//! The keys and buttons.
//!
//! This family is by far the largest, so it has a file of its own, and its
//! table by number is written down in three parts, one for each value of
//! the high byte. Each proof then walks a few hundred lines of a table, not
//! all of them at once.

use crate::enums::Numbered;
use vstd::prelude::*;

verus! {

/// Keys and buttons: inputs that are pressed and released.
#[allow(non_camel_case_types)]
#[derive(Clone, Copy, Debug, PartialEq, Eq, Hash, Structural)]
pub enum EV_KEY {
    KEY_RESERVED,
    KEY_ESC,
    KEY_1,
    KEY_2,
    KEY_3,
    KEY_4,
    KEY_5,
    KEY_6,
    KEY_7,
    KEY_8,
    KEY_9,
    KEY_0,
    KEY_MINUS,
    KEY_EQUAL,
    KEY_BACKSPACE,
    KEY_TAB,
    KEY_Q,
    KEY_W,
    KEY_E,
    KEY_R,
    KEY_T,
    KEY_Y,
    KEY_U,
    KEY_I,
    KEY_O,
    KEY_P,
    KEY_LEFTBRACE,
    KEY_RIGHTBRACE,
    KEY_ENTER,
    KEY_LEFTCTRL,
    KEY_A,
    KEY_S,
    KEY_D,
    KEY_F,
    KEY_G,
    KEY_H,
    KEY_J,
    KEY_K,
    KEY_L,
    KEY_SEMICOLON,
    KEY_APOSTROPHE,
    KEY_GRAVE,
    KEY_LEFTSHIFT,
    KEY_BACKSLASH,
    KEY_Z,
    KEY_X,
    KEY_C,
    KEY_V,
    KEY_B,
    KEY_N,
    KEY_M,
    KEY_COMMA,
    KEY_DOT,
    KEY_SLASH,
    KEY_RIGHTSHIFT,
    KEY_KPASTERISK,
    KEY_LEFTALT,
    KEY_SPACE,
    KEY_CAPSLOCK,
    KEY_F1,
    KEY_F2,
    KEY_F3,
    KEY_F4,
    KEY_F5,
    KEY_F6,
    KEY_F7,
    KEY_F8,
    KEY_F9,
    KEY_F10,
    KEY_NUMLOCK,
    KEY_SCROLLLOCK,
    KEY_KP7,
    KEY_KP8,
    KEY_KP9,
    KEY_KPMINUS,
    KEY_KP4,
    KEY_KP5,
    KEY_KP6,
    KEY_KPPLUS,
    KEY_KP1,
    KEY_KP2,
    KEY_KP3,
    KEY_KP0,
    KEY_KPDOT,
    KEY_ZENKAKUHANKAKU,
    KEY_102ND,
    KEY_F11,
    KEY_F12,
    KEY_RO,
    KEY_KATAKANA,
    KEY_HIRAGANA,
    KEY_HENKAN,
    KEY_KATAKANAHIRAGANA,
    KEY_MUHENKAN,
    KEY_KPJPCOMMA,
    KEY_KPENTER,
    KEY_RIGHTCTRL,
    KEY_KPSLASH,
    KEY_SYSRQ,
    KEY_RIGHTALT,
    KEY_LINEFEED,
    KEY_HOME,
    KEY_UP,
    KEY_PAGEUP,
    KEY_LEFT,
    KEY_RIGHT,
    KEY_END,
    KEY_DOWN,
    KEY_PAGEDOWN,
    KEY_INSERT,
    KEY_DELETE,
    KEY_MACRO,
    KEY_MUTE,
    KEY_VOLUMEDOWN,
    KEY_VOLUMEUP,
    KEY_POWER,
    KEY_KPEQUAL,
    KEY_KPPLUSMINUS,
    KEY_PAUSE,
    KEY_SCALE,
    KEY_KPCOMMA,
    KEY_HANGEUL,
    KEY_HANJA,
    KEY_YEN,
    KEY_LEFTMETA,
    KEY_RIGHTMETA,
    KEY_COMPOSE,
    KEY_STOP,
    KEY_AGAIN,
    KEY_PROPS,
    KEY_UNDO,
    KEY_FRONT,
    KEY_COPY,
    KEY_OPEN,
    KEY_PASTE,
    KEY_FIND,
    KEY_CUT,
    KEY_HELP,
    KEY_MENU,
    KEY_CALC,
    KEY_SETUP,
    KEY_SLEEP,
    KEY_WAKEUP,
    KEY_FILE,
    KEY_SENDFILE,
    KEY_DELETEFILE,
    KEY_XFER,
    KEY_PROG1,
    KEY_PROG2,
    KEY_WWW,
    KEY_MSDOS,
    KEY_COFFEE,
    KEY_ROTATE_DISPLAY,
    KEY_CYCLEWINDOWS,
    KEY_MAIL,
    KEY_BOOKMARKS,
    KEY_COMPUTER,
    KEY_BACK,
    KEY_FORWARD,
    KEY_CLOSECD,
    KEY_EJECTCD,
    KEY_EJECTCLOSECD,
    KEY_NEXTSONG,
    KEY_PLAYPAUSE,
    KEY_PREVIOUSSONG,
    KEY_STOPCD,
    KEY_RECORD,
    KEY_REWIND,
    KEY_PHONE,
    KEY_ISO,
    KEY_CONFIG,
    KEY_HOMEPAGE,
    KEY_REFRESH,
    KEY_EXIT,
    KEY_MOVE,
    KEY_EDIT,
    KEY_SCROLLUP,
    KEY_SCROLLDOWN,
    KEY_KPLEFTPAREN,
    KEY_KPRIGHTPAREN,
    KEY_NEW,
    KEY_REDO,
    KEY_F13,
    KEY_F14,
    KEY_F15,
    KEY_F16,
    KEY_F17,
    KEY_F18,
    KEY_F19,
    KEY_F20,
    KEY_F21,
    KEY_F22,
    KEY_F23,
    KEY_F24,
    KEY_PLAYCD,
    KEY_PAUSECD,
    KEY_PROG3,
    KEY_PROG4,
    KEY_ALL_APPLICATIONS,
    KEY_SUSPEND,
    KEY_CLOSE,
    KEY_PLAY,
    KEY_FASTFORWARD,
    KEY_BASSBOOST,
    KEY_PRINT,
    KEY_HP,
    KEY_CAMERA,
    KEY_SOUND,
    KEY_QUESTION,
    KEY_EMAIL,
    KEY_CHAT,
    KEY_SEARCH,
    KEY_CONNECT,
    KEY_FINANCE,
    KEY_SPORT,
    KEY_SHOP,
    KEY_ALTERASE,
    KEY_CANCEL,
    KEY_BRIGHTNESSDOWN,
    KEY_BRIGHTNESSUP,
    KEY_MEDIA,
    KEY_SWITCHVIDEOMODE,
    KEY_KBDILLUMTOGGLE,
    KEY_KBDILLUMDOWN,
    KEY_KBDILLUMUP,
    KEY_SEND,
    KEY_REPLY,
    KEY_FORWARDMAIL,
    KEY_SAVE,
    KEY_DOCUMENTS,
    KEY_BATTERY,
    KEY_BLUETOOTH,
    KEY_WLAN,
    KEY_UWB,
    KEY_UNKNOWN,
    KEY_VIDEO_NEXT,
    KEY_VIDEO_PREV,
    KEY_BRIGHTNESS_CYCLE,
    KEY_BRIGHTNESS_AUTO,
    KEY_DISPLAY_OFF,
    KEY_WWAN,
    KEY_RFKILL,
    KEY_MICMUTE,
    BTN_0,
    BTN_1,
    BTN_2,
    BTN_3,
    BTN_4,
    BTN_5,
    BTN_6,
    BTN_7,
    BTN_8,
    BTN_9,
    BTN_LEFT,
    BTN_RIGHT,
    BTN_MIDDLE,
    BTN_SIDE,
    BTN_EXTRA,
    BTN_FORWARD,
    BTN_BACK,
    BTN_TASK,
    BTN_TRIGGER,
    BTN_THUMB,
    BTN_THUMB2,
    BTN_TOP,
    BTN_TOP2,
    BTN_PINKIE,
    BTN_BASE,
    BTN_BASE2,
    BTN_BASE3,
    BTN_BASE4,
    BTN_BASE5,
    BTN_BASE6,
    BTN_DEAD,
    BTN_SOUTH,
    BTN_EAST,
    BTN_C,
    BTN_NORTH,
    BTN_WEST,
    BTN_Z,
    BTN_TL,
    BTN_TR,
    BTN_TL2,
    BTN_TR2,
    BTN_SELECT,
    BTN_START,
    BTN_MODE,
    BTN_THUMBL,
    BTN_THUMBR,
    BTN_TOOL_PEN,
    BTN_TOOL_RUBBER,
    BTN_TOOL_BRUSH,
    BTN_TOOL_PENCIL,
    BTN_TOOL_AIRBRUSH,
    BTN_TOOL_FINGER,
    BTN_TOOL_MOUSE,
    BTN_TOOL_LENS,
    BTN_TOOL_QUINTTAP,
    BTN_STYLUS3,
    BTN_TOUCH,
    BTN_STYLUS,
    BTN_STYLUS2,
    BTN_TOOL_DOUBLETAP,
    BTN_TOOL_TRIPLETAP,
    BTN_TOOL_QUADTAP,
    BTN_GEAR_DOWN,
    BTN_GEAR_UP,
    KEY_OK,
    KEY_SELECT,
    KEY_GOTO,
    KEY_CLEAR,
    KEY_POWER2,
    KEY_OPTION,
    KEY_INFO,
    KEY_TIME,
    KEY_VENDOR,
    KEY_ARCHIVE,
    KEY_PROGRAM,
    KEY_CHANNEL,
    KEY_FAVORITES,
    KEY_EPG,
    KEY_PVR,
    KEY_MHP,
    KEY_LANGUAGE,
    KEY_TITLE,
    KEY_SUBTITLE,
    KEY_ANGLE,
    KEY_FULL_SCREEN,
    KEY_MODE,
    KEY_KEYBOARD,
    KEY_ASPECT_RATIO,
    KEY_PC,
    KEY_TV,
    KEY_TV2,
    KEY_VCR,
    KEY_VCR2,
    KEY_SAT,
    KEY_SAT2,
    KEY_CD,
    KEY_TAPE,
    KEY_RADIO,
    KEY_TUNER,
    KEY_PLAYER,
    KEY_TEXT,
    KEY_DVD,
    KEY_AUX,
    KEY_MP3,
    KEY_AUDIO,
    KEY_VIDEO,
    KEY_DIRECTORY,
    KEY_LIST,
    KEY_MEMO,
    KEY_CALENDAR,
    KEY_RED,
    KEY_GREEN,
    KEY_YELLOW,
    KEY_BLUE,
    KEY_CHANNELUP,
    KEY_CHANNELDOWN,
    KEY_FIRST,
    KEY_LAST,
    KEY_AB,
    KEY_NEXT,
    KEY_RESTART,
    KEY_SLOW,
    KEY_SHUFFLE,
    KEY_BREAK,
    KEY_PREVIOUS,
    KEY_DIGITS,
    KEY_TEEN,
    KEY_TWEN,
    KEY_VIDEOPHONE,
    KEY_GAMES,
    KEY_ZOOMIN,
    KEY_ZOOMOUT,
    KEY_ZOOMRESET,
    KEY_WORDPROCESSOR,
    KEY_EDITOR,
    KEY_SPREADSHEET,
    KEY_GRAPHICSEDITOR,
    KEY_PRESENTATION,
    KEY_DATABASE,
    KEY_NEWS,
    KEY_VOICEMAIL,
    KEY_ADDRESSBOOK,
    KEY_MESSENGER,
    KEY_DISPLAYTOGGLE,
    KEY_SPELLCHECK,
    KEY_LOGOFF,
    KEY_DOLLAR,
    KEY_EURO,
    KEY_FRAMEBACK,
    KEY_FRAMEFORWARD,
    KEY_CONTEXT_MENU,
    KEY_MEDIA_REPEAT,
    KEY_10CHANNELSUP,
    KEY_10CHANNELSDOWN,
    KEY_IMAGES,
    KEY_NOTIFICATION_CENTER,
    KEY_PICKUP_PHONE,
    KEY_HANGUP_PHONE,
    KEY_LINK_PHONE,
    KEY_DEL_EOL,
    KEY_DEL_EOS,
    KEY_INS_LINE,
    KEY_DEL_LINE,
    KEY_FN,
    KEY_FN_ESC,
    KEY_FN_F1,
    KEY_FN_F2,
    KEY_FN_F3,
    KEY_FN_F4,
    KEY_FN_F5,
    KEY_FN_F6,
    KEY_FN_F7,
    KEY_FN_F8,
    KEY_FN_F9,
    KEY_FN_F10,
    KEY_FN_F11,
    KEY_FN_F12,
    KEY_FN_1,
    KEY_FN_2,
    KEY_FN_D,
    KEY_FN_E,
    KEY_FN_F,
    KEY_FN_S,
    KEY_FN_B,
    KEY_FN_RIGHT_SHIFT,
    KEY_BRL_DOT1,
    KEY_BRL_DOT2,
    KEY_BRL_DOT3,
    KEY_BRL_DOT4,
    KEY_BRL_DOT5,
    KEY_BRL_DOT6,
    KEY_BRL_DOT7,
    KEY_BRL_DOT8,
    KEY_BRL_DOT9,
    KEY_BRL_DOT10,
    KEY_NUMERIC_0,
    KEY_NUMERIC_1,
    KEY_NUMERIC_2,
    KEY_NUMERIC_3,
    KEY_NUMERIC_4,
    KEY_NUMERIC_5,
    KEY_NUMERIC_6,
    KEY_NUMERIC_7,
    KEY_NUMERIC_8,
    KEY_NUMERIC_9,
    KEY_NUMERIC_STAR,
    KEY_NUMERIC_POUND,
    KEY_NUMERIC_A,
    KEY_NUMERIC_B,
    KEY_NUMERIC_C,
    KEY_NUMERIC_D,
    KEY_CAMERA_FOCUS,
    KEY_WPS_BUTTON,
    KEY_TOUCHPAD_TOGGLE,
    KEY_TOUCHPAD_ON,
    KEY_TOUCHPAD_OFF,
    KEY_CAMERA_ZOOMIN,
    KEY_CAMERA_ZOOMOUT,
    KEY_CAMERA_UP,
    KEY_CAMERA_DOWN,
    KEY_CAMERA_LEFT,
    KEY_CAMERA_RIGHT,
    KEY_ATTENDANT_ON,
    KEY_ATTENDANT_OFF,
    KEY_ATTENDANT_TOGGLE,
    KEY_LIGHTS_TOGGLE,
    BTN_DPAD_UP,
    BTN_DPAD_DOWN,
    BTN_DPAD_LEFT,
    BTN_DPAD_RIGHT,
    KEY_ALS_TOGGLE,
    KEY_ROTATE_LOCK_TOGGLE,
    KEY_REFRESH_RATE_TOGGLE,
    KEY_BUTTONCONFIG,
    KEY_TASKMANAGER,
    KEY_JOURNAL,
    KEY_CONTROLPANEL,
    KEY_APPSELECT,
    KEY_SCREENSAVER,
    KEY_VOICECOMMAND,
    KEY_ASSISTANT,
    KEY_KBD_LAYOUT_NEXT,
    KEY_EMOJI_PICKER,
    KEY_DICTATE,
    KEY_BRIGHTNESS_MIN,
    KEY_BRIGHTNESS_MAX,
    KEY_KBDINPUTASSIST_PREV,
    KEY_KBDINPUTASSIST_NEXT,
    KEY_KBDINPUTASSIST_PREVGROUP,
    KEY_KBDINPUTASSIST_NEXTGROUP,
    KEY_KBDINPUTASSIST_ACCEPT,
    KEY_KBDINPUTASSIST_CANCEL,
    KEY_RIGHT_UP,
    KEY_RIGHT_DOWN,
    KEY_LEFT_UP,
    KEY_LEFT_DOWN,
    KEY_ROOT_MENU,
    KEY_MEDIA_TOP_MENU,
    KEY_NUMERIC_11,
    KEY_NUMERIC_12,
    KEY_AUDIO_DESC,
    KEY_3D_MODE,
    KEY_NEXT_FAVORITE,
    KEY_STOP_RECORD,
    KEY_PAUSE_RECORD,
    KEY_VOD,
    KEY_UNMUTE,
    KEY_FASTREVERSE,
    KEY_SLOWREVERSE,
    KEY_DATA,
    KEY_ONSCREEN_KEYBOARD,
    KEY_PRIVACY_SCREEN_TOGGLE,
    KEY_SELECTIVE_SCREENSHOT,
    KEY_NEXT_ELEMENT,
    KEY_PREVIOUS_ELEMENT,
    KEY_AUTOPILOT_ENGAGE_TOGGLE,
    KEY_MARK_WAYPOINT,
    KEY_SOS,
    KEY_NAV_CHART,
    KEY_FISHING_CHART,
    KEY_SINGLE_RANGE_RADAR,
    KEY_DUAL_RANGE_RADAR,
    KEY_RADAR_OVERLAY,
    KEY_TRADITIONAL_SONAR,
    KEY_CLEARVU_SONAR,
    KEY_SIDEVU_SONAR,
    KEY_NAV_INFO,
    KEY_BRIGHTNESS_MENU,
    KEY_MACRO1,
    KEY_MACRO2,
    KEY_MACRO3,
    KEY_MACRO4,
    KEY_MACRO5,
    KEY_MACRO6,
    KEY_MACRO7,
    KEY_MACRO8,
    KEY_MACRO9,
    KEY_MACRO10,
    KEY_MACRO11,
    KEY_MACRO12,
    KEY_MACRO13,
    KEY_MACRO14,
    KEY_MACRO15,
    KEY_MACRO16,
    KEY_MACRO17,
    KEY_MACRO18,
    KEY_MACRO19,
    KEY_MACRO20,
    KEY_MACRO21,
    KEY_MACRO22,
    KEY_MACRO23,
    KEY_MACRO24,
    KEY_MACRO25,
    KEY_MACRO26,
    KEY_MACRO27,
    KEY_MACRO28,
    KEY_MACRO29,
    KEY_MACRO30,
    KEY_MACRO_RECORD_START,
    KEY_MACRO_RECORD_STOP,
    KEY_MACRO_PRESET_CYCLE,
    KEY_MACRO_PRESET1,
    KEY_MACRO_PRESET2,
    KEY_MACRO_PRESET3,
    KEY_KBD_LCD_MENU1,
    KEY_KBD_LCD_MENU2,
    KEY_KBD_LCD_MENU3,
    KEY_KBD_LCD_MENU4,
    KEY_KBD_LCD_MENU5,
    BTN_TRIGGER_HAPPY1,
    BTN_TRIGGER_HAPPY2,
    BTN_TRIGGER_HAPPY3,
    BTN_TRIGGER_HAPPY4,
    BTN_TRIGGER_HAPPY5,
    BTN_TRIGGER_HAPPY6,
    BTN_TRIGGER_HAPPY7,
    BTN_TRIGGER_HAPPY8,
    BTN_TRIGGER_HAPPY9,
    BTN_TRIGGER_HAPPY10,
    BTN_TRIGGER_HAPPY11,
    BTN_TRIGGER_HAPPY12,
    BTN_TRIGGER_HAPPY13,
    BTN_TRIGGER_HAPPY14,
    BTN_TRIGGER_HAPPY15,
    BTN_TRIGGER_HAPPY16,
    BTN_TRIGGER_HAPPY17,
    BTN_TRIGGER_HAPPY18,
    BTN_TRIGGER_HAPPY19,
    BTN_TRIGGER_HAPPY20,
    BTN_TRIGGER_HAPPY21,
    BTN_TRIGGER_HAPPY22,
    BTN_TRIGGER_HAPPY23,
    BTN_TRIGGER_HAPPY24,
    BTN_TRIGGER_HAPPY25,
    BTN_TRIGGER_HAPPY26,
    BTN_TRIGGER_HAPPY27,
    BTN_TRIGGER_HAPPY28,
    BTN_TRIGGER_HAPPY29,
    BTN_TRIGGER_HAPPY30,
    BTN_TRIGGER_HAPPY31,
    BTN_TRIGGER_HAPPY32,
    BTN_TRIGGER_HAPPY33,
    BTN_TRIGGER_HAPPY34,
    BTN_TRIGGER_HAPPY35,
    BTN_TRIGGER_HAPPY36,
    BTN_TRIGGER_HAPPY37,
    BTN_TRIGGER_HAPPY38,
    BTN_TRIGGER_HAPPY39,
    BTN_TRIGGER_HAPPY40,
    KEY_MAX,
}

/// The keys with a number below `0x100`.
pub open spec fn key_named_0xx(n: u32) -> Option<EV_KEY> {
    match n {
        0 => Some(EV_KEY::KEY_RESERVED),
        1 => Some(EV_KEY::KEY_ESC),
        2 => Some(EV_KEY::KEY_1),
        3 => Some(EV_KEY::KEY_2),
        4 => Some(EV_KEY::KEY_3),
        5 => Some(EV_KEY::KEY_4),
        6 => Some(EV_KEY::KEY_5),
        7 => Some(EV_KEY::KEY_6),
        8 => Some(EV_KEY::KEY_7),
        9 => Some(EV_KEY::KEY_8),
        10 => Some(EV_KEY::KEY_9),
        11 => Some(EV_KEY::KEY_0),
        12 => Some(EV_KEY::KEY_MINUS),
        13 => Some(EV_KEY::KEY_EQUAL),
        14 => Some(EV_KEY::KEY_BACKSPACE),
        15 => Some(EV_KEY::KEY_TAB),
        16 => Some(EV_KEY::KEY_Q),
        17 => Some(EV_KEY::KEY_W),
        18 => Some(EV_KEY::KEY_E),
        19 => Some(EV_KEY::KEY_R),
        20 => Some(EV_KEY::KEY_T),
        21 => Some(EV_KEY::KEY_Y),
        22 => Some(EV_KEY::KEY_U),
        23 => Some(EV_KEY::KEY_I),
        24 => Some(EV_KEY::KEY_O),
        25 => Some(EV_KEY::KEY_P),
        26 => Some(EV_KEY::KEY_LEFTBRACE),
        27 => Some(EV_KEY::KEY_RIGHTBRACE),
        28 => Some(EV_KEY::KEY_ENTER),
        29 => Some(EV_KEY::KEY_LEFTCTRL),
        30 => Some(EV_KEY::KEY_A),
        31 => Some(EV_KEY::KEY_S),
        32 => Some(EV_KEY::KEY_D),
        33 => Some(EV_KEY::KEY_F),
        34 => Some(EV_KEY::KEY_G),
        35 => Some(EV_KEY::KEY_H),
        36 => Some(EV_KEY::KEY_J),
        37 => Some(EV_KEY::KEY_K),
        38 => Some(EV_KEY::KEY_L),
        39 => Some(EV_KEY::KEY_SEMICOLON),
        40 => Some(EV_KEY::KEY_APOSTROPHE),
        41 => Some(EV_KEY::KEY_GRAVE),
        42 => Some(EV_KEY::KEY_LEFTSHIFT),
        43 => Some(EV_KEY::KEY_BACKSLASH),
        44 => Some(EV_KEY::KEY_Z),
        45 => Some(EV_KEY::KEY_X),
        46 => Some(EV_KEY::KEY_C),
        47 => Some(EV_KEY::KEY_V),
        48 => Some(EV_KEY::KEY_B),
        49 => Some(EV_KEY::KEY_N),
        50 => Some(EV_KEY::KEY_M),
        51 => Some(EV_KEY::KEY_COMMA),
        52 => Some(EV_KEY::KEY_DOT),
        53 => Some(EV_KEY::KEY_SLASH),
        54 => Some(EV_KEY::KEY_RIGHTSHIFT),
        55 => Some(EV_KEY::KEY_KPASTERISK),
        56 => Some(EV_KEY::KEY_LEFTALT),
        57 => Some(EV_KEY::KEY_SPACE),
        58 => Some(EV_KEY::KEY_CAPSLOCK),
        59 => Some(EV_KEY::KEY_F1),
        60 => Some(EV_KEY::KEY_F2),
        61 => Some(EV_KEY::KEY_F3),
        62 => Some(EV_KEY::KEY_F4),
        63 => Some(EV_KEY::KEY_F5),
        64 => Some(EV_KEY::KEY_F6),
        65 => Some(EV_KEY::KEY_F7),
        66 => Some(EV_KEY::KEY_F8),
        67 => Some(EV_KEY::KEY_F9),
        68 => Some(EV_KEY::KEY_F10),
        69 => Some(EV_KEY::KEY_NUMLOCK),
        70 => Some(EV_KEY::KEY_SCROLLLOCK),
        71 => Some(EV_KEY::KEY_KP7),
        72 => Some(EV_KEY::KEY_KP8),
        73 => Some(EV_KEY::KEY_KP9),
        74 => Some(EV_KEY::KEY_KPMINUS),
        75 => Some(EV_KEY::KEY_KP4),
        76 => Some(EV_KEY::KEY_KP5),
        77 => Some(EV_KEY::KEY_KP6),
        78 => Some(EV_KEY::KEY_KPPLUS),
        79 => Some(EV_KEY::KEY_KP1),
        80 => Some(EV_KEY::KEY_KP2),
        81 => Some(EV_KEY::KEY_KP3),
        82 => Some(EV_KEY::KEY_KP0),
        83 => Some(EV_KEY::KEY_KPDOT),
        85 => Some(EV_KEY::KEY_ZENKAKUHANKAKU),
        86 => Some(EV_KEY::KEY_102ND),
        87 => Some(EV_KEY::KEY_F11),
        88 => Some(EV_KEY::KEY_F12),
        89 => Some(EV_KEY::KEY_RO),
        90 => Some(EV_KEY::KEY_KATAKANA),
        91 => Some(EV_KEY::KEY_HIRAGANA),
        92 => Some(EV_KEY::KEY_HENKAN),
        93 => Some(EV_KEY::KEY_KATAKANAHIRAGANA),
        94 => Some(EV_KEY::KEY_MUHENKAN),
        95 => Some(EV_KEY::KEY_KPJPCOMMA),
        96 => Some(EV_KEY::KEY_KPENTER),
        97 => Some(EV_KEY::KEY_RIGHTCTRL),
        98 => Some(EV_KEY::KEY_KPSLASH),
        99 => Some(EV_KEY::KEY_SYSRQ),
        100 => Some(EV_KEY::KEY_RIGHTALT),
        101 => Some(EV_KEY::KEY_LINEFEED),
        102 => Some(EV_KEY::KEY_HOME),
        103 => Some(EV_KEY::KEY_UP),
        104 => Some(EV_KEY::KEY_PAGEUP),
        105 => Some(EV_KEY::KEY_LEFT),
        106 => Some(EV_KEY::KEY_RIGHT),
        107 => Some(EV_KEY::KEY_END),
        108 => Some(EV_KEY::KEY_DOWN),
        109 => Some(EV_KEY::KEY_PAGEDOWN),
        110 => Some(EV_KEY::KEY_INSERT),
        111 => Some(EV_KEY::KEY_DELETE),
        112 => Some(EV_KEY::KEY_MACRO),
        113 => Some(EV_KEY::KEY_MUTE),
        114 => Some(EV_KEY::KEY_VOLUMEDOWN),
        115 => Some(EV_KEY::KEY_VOLUMEUP),
        116 => Some(EV_KEY::KEY_POWER),
        117 => Some(EV_KEY::KEY_KPEQUAL),
        118 => Some(EV_KEY::KEY_KPPLUSMINUS),
        119 => Some(EV_KEY::KEY_PAUSE),
        120 => Some(EV_KEY::KEY_SCALE),
        121 => Some(EV_KEY::KEY_KPCOMMA),
        122 => Some(EV_KEY::KEY_HANGEUL),
        123 => Some(EV_KEY::KEY_HANJA),
        124 => Some(EV_KEY::KEY_YEN),
        125 => Some(EV_KEY::KEY_LEFTMETA),
        126 => Some(EV_KEY::KEY_RIGHTMETA),
        127 => Some(EV_KEY::KEY_COMPOSE),
        128 => Some(EV_KEY::KEY_STOP),
        129 => Some(EV_KEY::KEY_AGAIN),
        130 => Some(EV_KEY::KEY_PROPS),
        131 => Some(EV_KEY::KEY_UNDO),
        132 => Some(EV_KEY::KEY_FRONT),
        133 => Some(EV_KEY::KEY_COPY),
        134 => Some(EV_KEY::KEY_OPEN),
        135 => Some(EV_KEY::KEY_PASTE),
        136 => Some(EV_KEY::KEY_FIND),
        137 => Some(EV_KEY::KEY_CUT),
        138 => Some(EV_KEY::KEY_HELP),
        139 => Some(EV_KEY::KEY_MENU),
        140 => Some(EV_KEY::KEY_CALC),
        141 => Some(EV_KEY::KEY_SETUP),
        142 => Some(EV_KEY::KEY_SLEEP),
        143 => Some(EV_KEY::KEY_WAKEUP),
        144 => Some(EV_KEY::KEY_FILE),
        145 => Some(EV_KEY::KEY_SENDFILE),
        146 => Some(EV_KEY::KEY_DELETEFILE),
        147 => Some(EV_KEY::KEY_XFER),
        148 => Some(EV_KEY::KEY_PROG1),
        149 => Some(EV_KEY::KEY_PROG2),
        150 => Some(EV_KEY::KEY_WWW),
        151 => Some(EV_KEY::KEY_MSDOS),
        152 => Some(EV_KEY::KEY_COFFEE),
        153 => Some(EV_KEY::KEY_ROTATE_DISPLAY),
        154 => Some(EV_KEY::KEY_CYCLEWINDOWS),
        155 => Some(EV_KEY::KEY_MAIL),
        156 => Some(EV_KEY::KEY_BOOKMARKS),
        157 => Some(EV_KEY::KEY_COMPUTER),
        158 => Some(EV_KEY::KEY_BACK),
        159 => Some(EV_KEY::KEY_FORWARD),
        160 => Some(EV_KEY::KEY_CLOSECD),
        161 => Some(EV_KEY::KEY_EJECTCD),
        162 => Some(EV_KEY::KEY_EJECTCLOSECD),
        163 => Some(EV_KEY::KEY_NEXTSONG),
        164 => Some(EV_KEY::KEY_PLAYPAUSE),
        165 => Some(EV_KEY::KEY_PREVIOUSSONG),
        166 => Some(EV_KEY::KEY_STOPCD),
        167 => Some(EV_KEY::KEY_RECORD),
        168 => Some(EV_KEY::KEY_REWIND),
        169 => Some(EV_KEY::KEY_PHONE),
        170 => Some(EV_KEY::KEY_ISO),
        171 => Some(EV_KEY::KEY_CONFIG),
        172 => Some(EV_KEY::KEY_HOMEPAGE),
        173 => Some(EV_KEY::KEY_REFRESH),
        174 => Some(EV_KEY::KEY_EXIT),
        175 => Some(EV_KEY::KEY_MOVE),
        176 => Some(EV_KEY::KEY_EDIT),
        177 => Some(EV_KEY::KEY_SCROLLUP),
        178 => Some(EV_KEY::KEY_SCROLLDOWN),
        179 => Some(EV_KEY::KEY_KPLEFTPAREN),
        180 => Some(EV_KEY::KEY_KPRIGHTPAREN),
        181 => Some(EV_KEY::KEY_NEW),
        182 => Some(EV_KEY::KEY_REDO),
        183 => Some(EV_KEY::KEY_F13),
        184 => Some(EV_KEY::KEY_F14),
        185 => Some(EV_KEY::KEY_F15),
        186 => Some(EV_KEY::KEY_F16),
        187 => Some(EV_KEY::KEY_F17),
        188 => Some(EV_KEY::KEY_F18),
        189 => Some(EV_KEY::KEY_F19),
        190 => Some(EV_KEY::KEY_F20),
        191 => Some(EV_KEY::KEY_F21),
        192 => Some(EV_KEY::KEY_F22),
        193 => Some(EV_KEY::KEY_F23),
        194 => Some(EV_KEY::KEY_F24),
        200 => Some(EV_KEY::KEY_PLAYCD),
        201 => Some(EV_KEY::KEY_PAUSECD),
        202 => Some(EV_KEY::KEY_PROG3),
        203 => Some(EV_KEY::KEY_PROG4),
        204 => Some(EV_KEY::KEY_ALL_APPLICATIONS),
        205 => Some(EV_KEY::KEY_SUSPEND),
        206 => Some(EV_KEY::KEY_CLOSE),
        207 => Some(EV_KEY::KEY_PLAY),
        208 => Some(EV_KEY::KEY_FASTFORWARD),
        209 => Some(EV_KEY::KEY_BASSBOOST),
        210 => Some(EV_KEY::KEY_PRINT),
        211 => Some(EV_KEY::KEY_HP),
        212 => Some(EV_KEY::KEY_CAMERA),
        213 => Some(EV_KEY::KEY_SOUND),
        214 => Some(EV_KEY::KEY_QUESTION),
        215 => Some(EV_KEY::KEY_EMAIL),
        216 => Some(EV_KEY::KEY_CHAT),
        217 => Some(EV_KEY::KEY_SEARCH),
        218 => Some(EV_KEY::KEY_CONNECT),
        219 => Some(EV_KEY::KEY_FINANCE),
        220 => Some(EV_KEY::KEY_SPORT),
        221 => Some(EV_KEY::KEY_SHOP),
        222 => Some(EV_KEY::KEY_ALTERASE),
        223 => Some(EV_KEY::KEY_CANCEL),
        224 => Some(EV_KEY::KEY_BRIGHTNESSDOWN),
        225 => Some(EV_KEY::KEY_BRIGHTNESSUP),
        226 => Some(EV_KEY::KEY_MEDIA),
        227 => Some(EV_KEY::KEY_SWITCHVIDEOMODE),
        228 => Some(EV_KEY::KEY_KBDILLUMTOGGLE),
        229 => Some(EV_KEY::KEY_KBDILLUMDOWN),
        230 => Some(EV_KEY::KEY_KBDILLUMUP),
        231 => Some(EV_KEY::KEY_SEND),
        232 => Some(EV_KEY::KEY_REPLY),
        233 => Some(EV_KEY::KEY_FORWARDMAIL),
        234 => Some(EV_KEY::KEY_SAVE),
        235 => Some(EV_KEY::KEY_DOCUMENTS),
        236 => Some(EV_KEY::KEY_BATTERY),
        237 => Some(EV_KEY::KEY_BLUETOOTH),
        238 => Some(EV_KEY::KEY_WLAN),
        239 => Some(EV_KEY::KEY_UWB),
        240 => Some(EV_KEY::KEY_UNKNOWN),
        241 => Some(EV_KEY::KEY_VIDEO_NEXT),
        242 => Some(EV_KEY::KEY_VIDEO_PREV),
        243 => Some(EV_KEY::KEY_BRIGHTNESS_CYCLE),
        244 => Some(EV_KEY::KEY_BRIGHTNESS_AUTO),
        245 => Some(EV_KEY::KEY_DISPLAY_OFF),
        246 => Some(EV_KEY::KEY_WWAN),
        247 => Some(EV_KEY::KEY_RFKILL),
        248 => Some(EV_KEY::KEY_MICMUTE),
        _ => None,
    }
}

/// The keys with a number from `0x100` to `0x1ff`.
pub open spec fn key_named_1xx(n: u32) -> Option<EV_KEY> {
    match n {
        0x100 => Some(EV_KEY::BTN_0),
        0x101 => Some(EV_KEY::BTN_1),
        0x102 => Some(EV_KEY::BTN_2),
        0x103 => Some(EV_KEY::BTN_3),
        0x104 => Some(EV_KEY::BTN_4),
        0x105 => Some(EV_KEY::BTN_5),
        0x106 => Some(EV_KEY::BTN_6),
        0x107 => Some(EV_KEY::BTN_7),
        0x108 => Some(EV_KEY::BTN_8),
        0x109 => Some(EV_KEY::BTN_9),
        0x110 => Some(EV_KEY::BTN_LEFT),
        0x111 => Some(EV_KEY::BTN_RIGHT),
        0x112 => Some(EV_KEY::BTN_MIDDLE),
        0x113 => Some(EV_KEY::BTN_SIDE),
        0x114 => Some(EV_KEY::BTN_EXTRA),
        0x115 => Some(EV_KEY::BTN_FORWARD),
        0x116 => Some(EV_KEY::BTN_BACK),
        0x117 => Some(EV_KEY::BTN_TASK),
        0x120 => Some(EV_KEY::BTN_TRIGGER),
        0x121 => Some(EV_KEY::BTN_THUMB),
        0x122 => Some(EV_KEY::BTN_THUMB2),
        0x123 => Some(EV_KEY::BTN_TOP),
        0x124 => Some(EV_KEY::BTN_TOP2),
        0x125 => Some(EV_KEY::BTN_PINKIE),
        0x126 => Some(EV_KEY::BTN_BASE),
        0x127 => Some(EV_KEY::BTN_BASE2),
        0x128 => Some(EV_KEY::BTN_BASE3),
        0x129 => Some(EV_KEY::BTN_BASE4),
        0x12a => Some(EV_KEY::BTN_BASE5),
        0x12b => Some(EV_KEY::BTN_BASE6),
        0x12f => Some(EV_KEY::BTN_DEAD),
        0x130 => Some(EV_KEY::BTN_SOUTH),
        0x131 => Some(EV_KEY::BTN_EAST),
        0x132 => Some(EV_KEY::BTN_C),
        0x133 => Some(EV_KEY::BTN_NORTH),
        0x134 => Some(EV_KEY::BTN_WEST),
        0x135 => Some(EV_KEY::BTN_Z),
        0x136 => Some(EV_KEY::BTN_TL),
        0x137 => Some(EV_KEY::BTN_TR),
        0x138 => Some(EV_KEY::BTN_TL2),
        0x139 => Some(EV_KEY::BTN_TR2),
        0x13a => Some(EV_KEY::BTN_SELECT),
        0x13b => Some(EV_KEY::BTN_START),
        0x13c => Some(EV_KEY::BTN_MODE),
        0x13d => Some(EV_KEY::BTN_THUMBL),
        0x13e => Some(EV_KEY::BTN_THUMBR),
        0x140 => Some(EV_KEY::BTN_TOOL_PEN),
        0x141 => Some(EV_KEY::BTN_TOOL_RUBBER),
        0x142 => Some(EV_KEY::BTN_TOOL_BRUSH),
        0x143 => Some(EV_KEY::BTN_TOOL_PENCIL),
        0x144 => Some(EV_KEY::BTN_TOOL_AIRBRUSH),
        0x145 => Some(EV_KEY::BTN_TOOL_FINGER),
        0x146 => Some(EV_KEY::BTN_TOOL_MOUSE),
        0x147 => Some(EV_KEY::BTN_TOOL_LENS),
        0x148 => Some(EV_KEY::BTN_TOOL_QUINTTAP),
        0x149 => Some(EV_KEY::BTN_STYLUS3),
        0x14a => Some(EV_KEY::BTN_TOUCH),
        0x14b => Some(EV_KEY::BTN_STYLUS),
        0x14c => Some(EV_KEY::BTN_STYLUS2),
        0x14d => Some(EV_KEY::BTN_TOOL_DOUBLETAP),
        0x14e => Some(EV_KEY::BTN_TOOL_TRIPLETAP),
        0x14f => Some(EV_KEY::BTN_TOOL_QUADTAP),
        0x150 => Some(EV_KEY::BTN_GEAR_DOWN),
        0x151 => Some(EV_KEY::BTN_GEAR_UP),
        0x160 => Some(EV_KEY::KEY_OK),
        0x161 => Some(EV_KEY::KEY_SELECT),
        0x162 => Some(EV_KEY::KEY_GOTO),
        0x163 => Some(EV_KEY::KEY_CLEAR),
        0x164 => Some(EV_KEY::KEY_POWER2),
        0x165 => Some(EV_KEY::KEY_OPTION),
        0x166 => Some(EV_KEY::KEY_INFO),
        0x167 => Some(EV_KEY::KEY_TIME),
        0x168 => Some(EV_KEY::KEY_VENDOR),
        0x169 => Some(EV_KEY::KEY_ARCHIVE),
        0x16a => Some(EV_KEY::KEY_PROGRAM),
        0x16b => Some(EV_KEY::KEY_CHANNEL),
        0x16c => Some(EV_KEY::KEY_FAVORITES),
        0x16d => Some(EV_KEY::KEY_EPG),
        0x16e => Some(EV_KEY::KEY_PVR),
        0x16f => Some(EV_KEY::KEY_MHP),
        0x170 => Some(EV_KEY::KEY_LANGUAGE),
        0x171 => Some(EV_KEY::KEY_TITLE),
        0x172 => Some(EV_KEY::KEY_SUBTITLE),
        0x173 => Some(EV_KEY::KEY_ANGLE),
        0x174 => Some(EV_KEY::KEY_FULL_SCREEN),
        0x175 => Some(EV_KEY::KEY_MODE),
        0x176 => Some(EV_KEY::KEY_KEYBOARD),
        0x177 => Some(EV_KEY::KEY_ASPECT_RATIO),
        0x178 => Some(EV_KEY::KEY_PC),
        0x179 => Some(EV_KEY::KEY_TV),
        0x17a => Some(EV_KEY::KEY_TV2),
        0x17b => Some(EV_KEY::KEY_VCR),
        0x17c => Some(EV_KEY::KEY_VCR2),
        0x17d => Some(EV_KEY::KEY_SAT),
        0x17e => Some(EV_KEY::KEY_SAT2),
        0x17f => Some(EV_KEY::KEY_CD),
        0x180 => Some(EV_KEY::KEY_TAPE),
        0x181 => Some(EV_KEY::KEY_RADIO),
        0x182 => Some(EV_KEY::KEY_TUNER),
        0x183 => Some(EV_KEY::KEY_PLAYER),
        0x184 => Some(EV_KEY::KEY_TEXT),
        0x185 => Some(EV_KEY::KEY_DVD),
        0x186 => Some(EV_KEY::KEY_AUX),
        0x187 => Some(EV_KEY::KEY_MP3),
        0x188 => Some(EV_KEY::KEY_AUDIO),
        0x189 => Some(EV_KEY::KEY_VIDEO),
        0x18a => Some(EV_KEY::KEY_DIRECTORY),
        0x18b => Some(EV_KEY::KEY_LIST),
        0x18c => Some(EV_KEY::KEY_MEMO),
        0x18d => Some(EV_KEY::KEY_CALENDAR),
        0x18e => Some(EV_KEY::KEY_RED),
        0x18f => Some(EV_KEY::KEY_GREEN),
        0x190 => Some(EV_KEY::KEY_YELLOW),
        0x191 => Some(EV_KEY::KEY_BLUE),
        0x192 => Some(EV_KEY::KEY_CHANNELUP),
        0x193 => Some(EV_KEY::KEY_CHANNELDOWN),
        0x194 => Some(EV_KEY::KEY_FIRST),
        0x195 => Some(EV_KEY::KEY_LAST),
        0x196 => Some(EV_KEY::KEY_AB),
        0x197 => Some(EV_KEY::KEY_NEXT),
        0x198 => Some(EV_KEY::KEY_RESTART),
        0x199 => Some(EV_KEY::KEY_SLOW),
        0x19a => Some(EV_KEY::KEY_SHUFFLE),
        0x19b => Some(EV_KEY::KEY_BREAK),
        0x19c => Some(EV_KEY::KEY_PREVIOUS),
        0x19d => Some(EV_KEY::KEY_DIGITS),
        0x19e => Some(EV_KEY::KEY_TEEN),
        0x19f => Some(EV_KEY::KEY_TWEN),
        0x1a0 => Some(EV_KEY::KEY_VIDEOPHONE),
        0x1a1 => Some(EV_KEY::KEY_GAMES),
        0x1a2 => Some(EV_KEY::KEY_ZOOMIN),
        0x1a3 => Some(EV_KEY::KEY_ZOOMOUT),
        0x1a4 => Some(EV_KEY::KEY_ZOOMRESET),
        0x1a5 => Some(EV_KEY::KEY_WORDPROCESSOR),
        0x1a6 => Some(EV_KEY::KEY_EDITOR),
        0x1a7 => Some(EV_KEY::KEY_SPREADSHEET),
        0x1a8 => Some(EV_KEY::KEY_GRAPHICSEDITOR),
        0x1a9 => Some(EV_KEY::KEY_PRESENTATION),
        0x1aa => Some(EV_KEY::KEY_DATABASE),
        0x1ab => Some(EV_KEY::KEY_NEWS),
        0x1ac => Some(EV_KEY::KEY_VOICEMAIL),
        0x1ad => Some(EV_KEY::KEY_ADDRESSBOOK),
        0x1ae => Some(EV_KEY::KEY_MESSENGER),
        0x1af => Some(EV_KEY::KEY_DISPLAYTOGGLE),
        0x1b0 => Some(EV_KEY::KEY_SPELLCHECK),
        0x1b1 => Some(EV_KEY::KEY_LOGOFF),
        0x1b2 => Some(EV_KEY::KEY_DOLLAR),
        0x1b3 => Some(EV_KEY::KEY_EURO),
        0x1b4 => Some(EV_KEY::KEY_FRAMEBACK),
        0x1b5 => Some(EV_KEY::KEY_FRAMEFORWARD),
        0x1b6 => Some(EV_KEY::KEY_CONTEXT_MENU),
        0x1b7 => Some(EV_KEY::KEY_MEDIA_REPEAT),
        0x1b8 => Some(EV_KEY::KEY_10CHANNELSUP),
        0x1b9 => Some(EV_KEY::KEY_10CHANNELSDOWN),
        0x1ba => Some(EV_KEY::KEY_IMAGES),
        0x1bc => Some(EV_KEY::KEY_NOTIFICATION_CENTER),
        0x1bd => Some(EV_KEY::KEY_PICKUP_PHONE),
        0x1be => Some(EV_KEY::KEY_HANGUP_PHONE),
        0x1bf => Some(EV_KEY::KEY_LINK_PHONE),
        0x1c0 => Some(EV_KEY::KEY_DEL_EOL),
        0x1c1 => Some(EV_KEY::KEY_DEL_EOS),
        0x1c2 => Some(EV_KEY::KEY_INS_LINE),
        0x1c3 => Some(EV_KEY::KEY_DEL_LINE),
        0x1d0 => Some(EV_KEY::KEY_FN),
        0x1d1 => Some(EV_KEY::KEY_FN_ESC),
        0x1d2 => Some(EV_KEY::KEY_FN_F1),
        0x1d3 => Some(EV_KEY::KEY_FN_F2),
        0x1d4 => Some(EV_KEY::KEY_FN_F3),
        0x1d5 => Some(EV_KEY::KEY_FN_F4),
        0x1d6 => Some(EV_KEY::KEY_FN_F5),
        0x1d7 => Some(EV_KEY::KEY_FN_F6),
        0x1d8 => Some(EV_KEY::KEY_FN_F7),
        0x1d9 => Some(EV_KEY::KEY_FN_F8),
        0x1da => Some(EV_KEY::KEY_FN_F9),
        0x1db => Some(EV_KEY::KEY_FN_F10),
        0x1dc => Some(EV_KEY::KEY_FN_F11),
        0x1dd => Some(EV_KEY::KEY_FN_F12),
        0x1de => Some(EV_KEY::KEY_FN_1),
        0x1df => Some(EV_KEY::KEY_FN_2),
        0x1e0 => Some(EV_KEY::KEY_FN_D),
        0x1e1 => Some(EV_KEY::KEY_FN_E),
        0x1e2 => Some(EV_KEY::KEY_FN_F),
        0x1e3 => Some(EV_KEY::KEY_FN_S),
        0x1e4 => Some(EV_KEY::KEY_FN_B),
        0x1e5 => Some(EV_KEY::KEY_FN_RIGHT_SHIFT),
        0x1f1 => Some(EV_KEY::KEY_BRL_DOT1),
        0x1f2 => Some(EV_KEY::KEY_BRL_DOT2),
        0x1f3 => Some(EV_KEY::KEY_BRL_DOT3),
        0x1f4 => Some(EV_KEY::KEY_BRL_DOT4),
        0x1f5 => Some(EV_KEY::KEY_BRL_DOT5),
        0x1f6 => Some(EV_KEY::KEY_BRL_DOT6),
        0x1f7 => Some(EV_KEY::KEY_BRL_DOT7),
        0x1f8 => Some(EV_KEY::KEY_BRL_DOT8),
        0x1f9 => Some(EV_KEY::KEY_BRL_DOT9),
        0x1fa => Some(EV_KEY::KEY_BRL_DOT10),
        _ => None,
    }
}

/// The keys with a number from `0x200`.
pub open spec fn key_named_2xx(n: u32) -> Option<EV_KEY> {
    match n {
        0x200 => Some(EV_KEY::KEY_NUMERIC_0),
        0x201 => Some(EV_KEY::KEY_NUMERIC_1),
        0x202 => Some(EV_KEY::KEY_NUMERIC_2),
        0x203 => Some(EV_KEY::KEY_NUMERIC_3),
        0x204 => Some(EV_KEY::KEY_NUMERIC_4),
        0x205 => Some(EV_KEY::KEY_NUMERIC_5),
        0x206 => Some(EV_KEY::KEY_NUMERIC_6),
        0x207 => Some(EV_KEY::KEY_NUMERIC_7),
        0x208 => Some(EV_KEY::KEY_NUMERIC_8),
        0x209 => Some(EV_KEY::KEY_NUMERIC_9),
        0x20a => Some(EV_KEY::KEY_NUMERIC_STAR),
        0x20b => Some(EV_KEY::KEY_NUMERIC_POUND),
        0x20c => Some(EV_KEY::KEY_NUMERIC_A),
        0x20d => Some(EV_KEY::KEY_NUMERIC_B),
        0x20e => Some(EV_KEY::KEY_NUMERIC_C),
        0x20f => Some(EV_KEY::KEY_NUMERIC_D),
        0x210 => Some(EV_KEY::KEY_CAMERA_FOCUS),
        0x211 => Some(EV_KEY::KEY_WPS_BUTTON),
        0x212 => Some(EV_KEY::KEY_TOUCHPAD_TOGGLE),
        0x213 => Some(EV_KEY::KEY_TOUCHPAD_ON),
        0x214 => Some(EV_KEY::KEY_TOUCHPAD_OFF),
        0x215 => Some(EV_KEY::KEY_CAMERA_ZOOMIN),
        0x216 => Some(EV_KEY::KEY_CAMERA_ZOOMOUT),
        0x217 => Some(EV_KEY::KEY_CAMERA_UP),
        0x218 => Some(EV_KEY::KEY_CAMERA_DOWN),
        0x219 => Some(EV_KEY::KEY_CAMERA_LEFT),
        0x21a => Some(EV_KEY::KEY_CAMERA_RIGHT),
        0x21b => Some(EV_KEY::KEY_ATTENDANT_ON),
        0x21c => Some(EV_KEY::KEY_ATTENDANT_OFF),
        0x21d => Some(EV_KEY::KEY_ATTENDANT_TOGGLE),
        0x21e => Some(EV_KEY::KEY_LIGHTS_TOGGLE),
        0x220 => Some(EV_KEY::BTN_DPAD_UP),
        0x221 => Some(EV_KEY::BTN_DPAD_DOWN),
        0x222 => Some(EV_KEY::BTN_DPAD_LEFT),
        0x223 => Some(EV_KEY::BTN_DPAD_RIGHT),
        0x230 => Some(EV_KEY::KEY_ALS_TOGGLE),
        0x231 => Some(EV_KEY::KEY_ROTATE_LOCK_TOGGLE),
        0x232 => Some(EV_KEY::KEY_REFRESH_RATE_TOGGLE),
        0x240 => Some(EV_KEY::KEY_BUTTONCONFIG),
        0x241 => Some(EV_KEY::KEY_TASKMANAGER),
        0x242 => Some(EV_KEY::KEY_JOURNAL),
        0x243 => Some(EV_KEY::KEY_CONTROLPANEL),
        0x244 => Some(EV_KEY::KEY_APPSELECT),
        0x245 => Some(EV_KEY::KEY_SCREENSAVER),
        0x246 => Some(EV_KEY::KEY_VOICECOMMAND),
        0x247 => Some(EV_KEY::KEY_ASSISTANT),
        0x248 => Some(EV_KEY::KEY_KBD_LAYOUT_NEXT),
        0x249 => Some(EV_KEY::KEY_EMOJI_PICKER),
        0x24a => Some(EV_KEY::KEY_DICTATE),
        0x250 => Some(EV_KEY::KEY_BRIGHTNESS_MIN),
        0x251 => Some(EV_KEY::KEY_BRIGHTNESS_MAX),
        0x260 => Some(EV_KEY::KEY_KBDINPUTASSIST_PREV),
        0x261 => Some(EV_KEY::KEY_KBDINPUTASSIST_NEXT),
        0x262 => Some(EV_KEY::KEY_KBDINPUTASSIST_PREVGROUP),
        0x263 => Some(EV_KEY::KEY_KBDINPUTASSIST_NEXTGROUP),
        0x264 => Some(EV_KEY::KEY_KBDINPUTASSIST_ACCEPT),
        0x265 => Some(EV_KEY::KEY_KBDINPUTASSIST_CANCEL),
        0x266 => Some(EV_KEY::KEY_RIGHT_UP),
        0x267 => Some(EV_KEY::KEY_RIGHT_DOWN),
        0x268 => Some(EV_KEY::KEY_LEFT_UP),
        0x269 => Some(EV_KEY::KEY_LEFT_DOWN),
        0x26a => Some(EV_KEY::KEY_ROOT_MENU),
        0x26b => Some(EV_KEY::KEY_MEDIA_TOP_MENU),
        0x26c => Some(EV_KEY::KEY_NUMERIC_11),
        0x26d => Some(EV_KEY::KEY_NUMERIC_12),
        0x26e => Some(EV_KEY::KEY_AUDIO_DESC),
        0x26f => Some(EV_KEY::KEY_3D_MODE),
        0x270 => Some(EV_KEY::KEY_NEXT_FAVORITE),
        0x271 => Some(EV_KEY::KEY_STOP_RECORD),
        0x272 => Some(EV_KEY::KEY_PAUSE_RECORD),
        0x273 => Some(EV_KEY::KEY_VOD),
        0x274 => Some(EV_KEY::KEY_UNMUTE),
        0x275 => Some(EV_KEY::KEY_FASTREVERSE),
        0x276 => Some(EV_KEY::KEY_SLOWREVERSE),
        0x277 => Some(EV_KEY::KEY_DATA),
        0x278 => Some(EV_KEY::KEY_ONSCREEN_KEYBOARD),
        0x279 => Some(EV_KEY::KEY_PRIVACY_SCREEN_TOGGLE),
        0x27a => Some(EV_KEY::KEY_SELECTIVE_SCREENSHOT),
        0x27b => Some(EV_KEY::KEY_NEXT_ELEMENT),
        0x27c => Some(EV_KEY::KEY_PREVIOUS_ELEMENT),
        0x27d => Some(EV_KEY::KEY_AUTOPILOT_ENGAGE_TOGGLE),
        0x27e => Some(EV_KEY::KEY_MARK_WAYPOINT),
        0x27f => Some(EV_KEY::KEY_SOS),
        0x280 => Some(EV_KEY::KEY_NAV_CHART),
        0x281 => Some(EV_KEY::KEY_FISHING_CHART),
        0x282 => Some(EV_KEY::KEY_SINGLE_RANGE_RADAR),
        0x283 => Some(EV_KEY::KEY_DUAL_RANGE_RADAR),
        0x284 => Some(EV_KEY::KEY_RADAR_OVERLAY),
        0x285 => Some(EV_KEY::KEY_TRADITIONAL_SONAR),
        0x286 => Some(EV_KEY::KEY_CLEARVU_SONAR),
        0x287 => Some(EV_KEY::KEY_SIDEVU_SONAR),
        0x288 => Some(EV_KEY::KEY_NAV_INFO),
        0x289 => Some(EV_KEY::KEY_BRIGHTNESS_MENU),
        0x290 => Some(EV_KEY::KEY_MACRO1),
        0x291 => Some(EV_KEY::KEY_MACRO2),
        0x292 => Some(EV_KEY::KEY_MACRO3),
        0x293 => Some(EV_KEY::KEY_MACRO4),
        0x294 => Some(EV_KEY::KEY_MACRO5),
        0x295 => Some(EV_KEY::KEY_MACRO6),
        0x296 => Some(EV_KEY::KEY_MACRO7),
        0x297 => Some(EV_KEY::KEY_MACRO8),
        0x298 => Some(EV_KEY::KEY_MACRO9),
        0x299 => Some(EV_KEY::KEY_MACRO10),
        0x29a => Some(EV_KEY::KEY_MACRO11),
        0x29b => Some(EV_KEY::KEY_MACRO12),
        0x29c => Some(EV_KEY::KEY_MACRO13),
        0x29d => Some(EV_KEY::KEY_MACRO14),
        0x29e => Some(EV_KEY::KEY_MACRO15),
        0x29f => Some(EV_KEY::KEY_MACRO16),
        0x2a0 => Some(EV_KEY::KEY_MACRO17),
        0x2a1 => Some(EV_KEY::KEY_MACRO18),
        0x2a2 => Some(EV_KEY::KEY_MACRO19),
        0x2a3 => Some(EV_KEY::KEY_MACRO20),
        0x2a4 => Some(EV_KEY::KEY_MACRO21),
        0x2a5 => Some(EV_KEY::KEY_MACRO22),
        0x2a6 => Some(EV_KEY::KEY_MACRO23),
        0x2a7 => Some(EV_KEY::KEY_MACRO24),
        0x2a8 => Some(EV_KEY::KEY_MACRO25),
        0x2a9 => Some(EV_KEY::KEY_MACRO26),
        0x2aa => Some(EV_KEY::KEY_MACRO27),
        0x2ab => Some(EV_KEY::KEY_MACRO28),
        0x2ac => Some(EV_KEY::KEY_MACRO29),
        0x2ad => Some(EV_KEY::KEY_MACRO30),
        0x2b0 => Some(EV_KEY::KEY_MACRO_RECORD_START),
        0x2b1 => Some(EV_KEY::KEY_MACRO_RECORD_STOP),
        0x2b2 => Some(EV_KEY::KEY_MACRO_PRESET_CYCLE),
        0x2b3 => Some(EV_KEY::KEY_MACRO_PRESET1),
        0x2b4 => Some(EV_KEY::KEY_MACRO_PRESET2),
        0x2b5 => Some(EV_KEY::KEY_MACRO_PRESET3),
        0x2b8 => Some(EV_KEY::KEY_KBD_LCD_MENU1),
        0x2b9 => Some(EV_KEY::KEY_KBD_LCD_MENU2),
        0x2ba => Some(EV_KEY::KEY_KBD_LCD_MENU3),
        0x2bb => Some(EV_KEY::KEY_KBD_LCD_MENU4),
        0x2bc => Some(EV_KEY::KEY_KBD_LCD_MENU5),
        0x2c0 => Some(EV_KEY::BTN_TRIGGER_HAPPY1),
        0x2c1 => Some(EV_KEY::BTN_TRIGGER_HAPPY2),
        0x2c2 => Some(EV_KEY::BTN_TRIGGER_HAPPY3),
        0x2c3 => Some(EV_KEY::BTN_TRIGGER_HAPPY4),
        0x2c4 => Some(EV_KEY::BTN_TRIGGER_HAPPY5),
        0x2c5 => Some(EV_KEY::BTN_TRIGGER_HAPPY6),
        0x2c6 => Some(EV_KEY::BTN_TRIGGER_HAPPY7),
        0x2c7 => Some(EV_KEY::BTN_TRIGGER_HAPPY8),
        0x2c8 => Some(EV_KEY::BTN_TRIGGER_HAPPY9),
        0x2c9 => Some(EV_KEY::BTN_TRIGGER_HAPPY10),
        0x2ca => Some(EV_KEY::BTN_TRIGGER_HAPPY11),
        0x2cb => Some(EV_KEY::BTN_TRIGGER_HAPPY12),
        0x2cc => Some(EV_KEY::BTN_TRIGGER_HAPPY13),
        0x2cd => Some(EV_KEY::BTN_TRIGGER_HAPPY14),
        0x2ce => Some(EV_KEY::BTN_TRIGGER_HAPPY15),
        0x2cf => Some(EV_KEY::BTN_TRIGGER_HAPPY16),
        0x2d0 => Some(EV_KEY::BTN_TRIGGER_HAPPY17),
        0x2d1 => Some(EV_KEY::BTN_TRIGGER_HAPPY18),
        0x2d2 => Some(EV_KEY::BTN_TRIGGER_HAPPY19),
        0x2d3 => Some(EV_KEY::BTN_TRIGGER_HAPPY20),
        0x2d4 => Some(EV_KEY::BTN_TRIGGER_HAPPY21),
        0x2d5 => Some(EV_KEY::BTN_TRIGGER_HAPPY22),
        0x2d6 => Some(EV_KEY::BTN_TRIGGER_HAPPY23),
        0x2d7 => Some(EV_KEY::BTN_TRIGGER_HAPPY24),
        0x2d8 => Some(EV_KEY::BTN_TRIGGER_HAPPY25),
        0x2d9 => Some(EV_KEY::BTN_TRIGGER_HAPPY26),
        0x2da => Some(EV_KEY::BTN_TRIGGER_HAPPY27),
        0x2db => Some(EV_KEY::BTN_TRIGGER_HAPPY28),
        0x2dc => Some(EV_KEY::BTN_TRIGGER_HAPPY29),
        0x2dd => Some(EV_KEY::BTN_TRIGGER_HAPPY30),
        0x2de => Some(EV_KEY::BTN_TRIGGER_HAPPY31),
        0x2df => Some(EV_KEY::BTN_TRIGGER_HAPPY32),
        0x2e0 => Some(EV_KEY::BTN_TRIGGER_HAPPY33),
        0x2e1 => Some(EV_KEY::BTN_TRIGGER_HAPPY34),
        0x2e2 => Some(EV_KEY::BTN_TRIGGER_HAPPY35),
        0x2e3 => Some(EV_KEY::BTN_TRIGGER_HAPPY36),
        0x2e4 => Some(EV_KEY::BTN_TRIGGER_HAPPY37),
        0x2e5 => Some(EV_KEY::BTN_TRIGGER_HAPPY38),
        0x2e6 => Some(EV_KEY::BTN_TRIGGER_HAPPY39),
        0x2e7 => Some(EV_KEY::BTN_TRIGGER_HAPPY40),
        0x2ff => Some(EV_KEY::KEY_MAX),
        _ => None,
    }
}

fn int_to_key_0xx(code: u32) -> (r: Option<EV_KEY>)
    ensures
        r == key_named_0xx(code),
{
    match code {
        0 => Some(EV_KEY::KEY_RESERVED),
        1 => Some(EV_KEY::KEY_ESC),
        2 => Some(EV_KEY::KEY_1),
        3 => Some(EV_KEY::KEY_2),
        4 => Some(EV_KEY::KEY_3),
        5 => Some(EV_KEY::KEY_4),
        6 => Some(EV_KEY::KEY_5),
        7 => Some(EV_KEY::KEY_6),
        8 => Some(EV_KEY::KEY_7),
        9 => Some(EV_KEY::KEY_8),
        10 => Some(EV_KEY::KEY_9),
        11 => Some(EV_KEY::KEY_0),
        12 => Some(EV_KEY::KEY_MINUS),
        13 => Some(EV_KEY::KEY_EQUAL),
        14 => Some(EV_KEY::KEY_BACKSPACE),
        15 => Some(EV_KEY::KEY_TAB),
        16 => Some(EV_KEY::KEY_Q),
        17 => Some(EV_KEY::KEY_W),
        18 => Some(EV_KEY::KEY_E),
        19 => Some(EV_KEY::KEY_R),
        20 => Some(EV_KEY::KEY_T),
        21 => Some(EV_KEY::KEY_Y),
        22 => Some(EV_KEY::KEY_U),
        23 => Some(EV_KEY::KEY_I),
        24 => Some(EV_KEY::KEY_O),
        25 => Some(EV_KEY::KEY_P),
        26 => Some(EV_KEY::KEY_LEFTBRACE),
        27 => Some(EV_KEY::KEY_RIGHTBRACE),
        28 => Some(EV_KEY::KEY_ENTER),
        29 => Some(EV_KEY::KEY_LEFTCTRL),
        30 => Some(EV_KEY::KEY_A),
        31 => Some(EV_KEY::KEY_S),
        32 => Some(EV_KEY::KEY_D),
        33 => Some(EV_KEY::KEY_F),
        34 => Some(EV_KEY::KEY_G),
        35 => Some(EV_KEY::KEY_H),
        36 => Some(EV_KEY::KEY_J),
        37 => Some(EV_KEY::KEY_K),
        38 => Some(EV_KEY::KEY_L),
        39 => Some(EV_KEY::KEY_SEMICOLON),
        40 => Some(EV_KEY::KEY_APOSTROPHE),
        41 => Some(EV_KEY::KEY_GRAVE),
        42 => Some(EV_KEY::KEY_LEFTSHIFT),
        43 => Some(EV_KEY::KEY_BACKSLASH),
        44 => Some(EV_KEY::KEY_Z),
        45 => Some(EV_KEY::KEY_X),
        46 => Some(EV_KEY::KEY_C),
        47 => Some(EV_KEY::KEY_V),
        48 => Some(EV_KEY::KEY_B),
        49 => Some(EV_KEY::KEY_N),
        50 => Some(EV_KEY::KEY_M),
        51 => Some(EV_KEY::KEY_COMMA),
        52 => Some(EV_KEY::KEY_DOT),
        53 => Some(EV_KEY::KEY_SLASH),
        54 => Some(EV_KEY::KEY_RIGHTSHIFT),
        55 => Some(EV_KEY::KEY_KPASTERISK),
        56 => Some(EV_KEY::KEY_LEFTALT),
        57 => Some(EV_KEY::KEY_SPACE),
        58 => Some(EV_KEY::KEY_CAPSLOCK),
        59 => Some(EV_KEY::KEY_F1),
        60 => Some(EV_KEY::KEY_F2),
        61 => Some(EV_KEY::KEY_F3),
        62 => Some(EV_KEY::KEY_F4),
        63 => Some(EV_KEY::KEY_F5),
        64 => Some(EV_KEY::KEY_F6),
        65 => Some(EV_KEY::KEY_F7),
        66 => Some(EV_KEY::KEY_F8),
        67 => Some(EV_KEY::KEY_F9),
        68 => Some(EV_KEY::KEY_F10),
        69 => Some(EV_KEY::KEY_NUMLOCK),
        70 => Some(EV_KEY::KEY_SCROLLLOCK),
        71 => Some(EV_KEY::KEY_KP7),
        72 => Some(EV_KEY::KEY_KP8),
        73 => Some(EV_KEY::KEY_KP9),
        74 => Some(EV_KEY::KEY_KPMINUS),
        75 => Some(EV_KEY::KEY_KP4),
        76 => Some(EV_KEY::KEY_KP5),
        77 => Some(EV_KEY::KEY_KP6),
        78 => Some(EV_KEY::KEY_KPPLUS),
        79 => Some(EV_KEY::KEY_KP1),
        80 => Some(EV_KEY::KEY_KP2),
        81 => Some(EV_KEY::KEY_KP3),
        82 => Some(EV_KEY::KEY_KP0),
        83 => Some(EV_KEY::KEY_KPDOT),
        85 => Some(EV_KEY::KEY_ZENKAKUHANKAKU),
        86 => Some(EV_KEY::KEY_102ND),
        87 => Some(EV_KEY::KEY_F11),
        88 => Some(EV_KEY::KEY_F12),
        89 => Some(EV_KEY::KEY_RO),
        90 => Some(EV_KEY::KEY_KATAKANA),
        91 => Some(EV_KEY::KEY_HIRAGANA),
        92 => Some(EV_KEY::KEY_HENKAN),
        93 => Some(EV_KEY::KEY_KATAKANAHIRAGANA),
        94 => Some(EV_KEY::KEY_MUHENKAN),
        95 => Some(EV_KEY::KEY_KPJPCOMMA),
        96 => Some(EV_KEY::KEY_KPENTER),
        97 => Some(EV_KEY::KEY_RIGHTCTRL),
        98 => Some(EV_KEY::KEY_KPSLASH),
        99 => Some(EV_KEY::KEY_SYSRQ),
        100 => Some(EV_KEY::KEY_RIGHTALT),
        101 => Some(EV_KEY::KEY_LINEFEED),
        102 => Some(EV_KEY::KEY_HOME),
        103 => Some(EV_KEY::KEY_UP),
        104 => Some(EV_KEY::KEY_PAGEUP),
        105 => Some(EV_KEY::KEY_LEFT),
        106 => Some(EV_KEY::KEY_RIGHT),
        107 => Some(EV_KEY::KEY_END),
        108 => Some(EV_KEY::KEY_DOWN),
        109 => Some(EV_KEY::KEY_PAGEDOWN),
        110 => Some(EV_KEY::KEY_INSERT),
        111 => Some(EV_KEY::KEY_DELETE),
        112 => Some(EV_KEY::KEY_MACRO),
        113 => Some(EV_KEY::KEY_MUTE),
        114 => Some(EV_KEY::KEY_VOLUMEDOWN),
        115 => Some(EV_KEY::KEY_VOLUMEUP),
        116 => Some(EV_KEY::KEY_POWER),
        117 => Some(EV_KEY::KEY_KPEQUAL),
        118 => Some(EV_KEY::KEY_KPPLUSMINUS),
        119 => Some(EV_KEY::KEY_PAUSE),
        120 => Some(EV_KEY::KEY_SCALE),
        121 => Some(EV_KEY::KEY_KPCOMMA),
        122 => Some(EV_KEY::KEY_HANGEUL),
        123 => Some(EV_KEY::KEY_HANJA),
        124 => Some(EV_KEY::KEY_YEN),
        125 => Some(EV_KEY::KEY_LEFTMETA),
        126 => Some(EV_KEY::KEY_RIGHTMETA),
        127 => Some(EV_KEY::KEY_COMPOSE),
        128 => Some(EV_KEY::KEY_STOP),
        129 => Some(EV_KEY::KEY_AGAIN),
        130 => Some(EV_KEY::KEY_PROPS),
        131 => Some(EV_KEY::KEY_UNDO),
        132 => Some(EV_KEY::KEY_FRONT),
        133 => Some(EV_KEY::KEY_COPY),
        134 => Some(EV_KEY::KEY_OPEN),
        135 => Some(EV_KEY::KEY_PASTE),
        136 => Some(EV_KEY::KEY_FIND),
        137 => Some(EV_KEY::KEY_CUT),
        138 => Some(EV_KEY::KEY_HELP),
        139 => Some(EV_KEY::KEY_MENU),
        140 => Some(EV_KEY::KEY_CALC),
        141 => Some(EV_KEY::KEY_SETUP),
        142 => Some(EV_KEY::KEY_SLEEP),
        143 => Some(EV_KEY::KEY_WAKEUP),
        144 => Some(EV_KEY::KEY_FILE),
        145 => Some(EV_KEY::KEY_SENDFILE),
        146 => Some(EV_KEY::KEY_DELETEFILE),
        147 => Some(EV_KEY::KEY_XFER),
        148 => Some(EV_KEY::KEY_PROG1),
        149 => Some(EV_KEY::KEY_PROG2),
        150 => Some(EV_KEY::KEY_WWW),
        151 => Some(EV_KEY::KEY_MSDOS),
        152 => Some(EV_KEY::KEY_COFFEE),
        153 => Some(EV_KEY::KEY_ROTATE_DISPLAY),
        154 => Some(EV_KEY::KEY_CYCLEWINDOWS),
        155 => Some(EV_KEY::KEY_MAIL),
        156 => Some(EV_KEY::KEY_BOOKMARKS),
        157 => Some(EV_KEY::KEY_COMPUTER),
        158 => Some(EV_KEY::KEY_BACK),
        159 => Some(EV_KEY::KEY_FORWARD),
        160 => Some(EV_KEY::KEY_CLOSECD),
        161 => Some(EV_KEY::KEY_EJECTCD),
        162 => Some(EV_KEY::KEY_EJECTCLOSECD),
        163 => Some(EV_KEY::KEY_NEXTSONG),
        164 => Some(EV_KEY::KEY_PLAYPAUSE),
        165 => Some(EV_KEY::KEY_PREVIOUSSONG),
        166 => Some(EV_KEY::KEY_STOPCD),
        167 => Some(EV_KEY::KEY_RECORD),
        168 => Some(EV_KEY::KEY_REWIND),
        169 => Some(EV_KEY::KEY_PHONE),
        170 => Some(EV_KEY::KEY_ISO),
        171 => Some(EV_KEY::KEY_CONFIG),
        172 => Some(EV_KEY::KEY_HOMEPAGE),
        173 => Some(EV_KEY::KEY_REFRESH),
        174 => Some(EV_KEY::KEY_EXIT),
        175 => Some(EV_KEY::KEY_MOVE),
        176 => Some(EV_KEY::KEY_EDIT),
        177 => Some(EV_KEY::KEY_SCROLLUP),
        178 => Some(EV_KEY::KEY_SCROLLDOWN),
        179 => Some(EV_KEY::KEY_KPLEFTPAREN),
        180 => Some(EV_KEY::KEY_KPRIGHTPAREN),
        181 => Some(EV_KEY::KEY_NEW),
        182 => Some(EV_KEY::KEY_REDO),
        183 => Some(EV_KEY::KEY_F13),
        184 => Some(EV_KEY::KEY_F14),
        185 => Some(EV_KEY::KEY_F15),
        186 => Some(EV_KEY::KEY_F16),
        187 => Some(EV_KEY::KEY_F17),
        188 => Some(EV_KEY::KEY_F18),
        189 => Some(EV_KEY::KEY_F19),
        190 => Some(EV_KEY::KEY_F20),
        191 => Some(EV_KEY::KEY_F21),
        192 => Some(EV_KEY::KEY_F22),
        193 => Some(EV_KEY::KEY_F23),
        194 => Some(EV_KEY::KEY_F24),
        200 => Some(EV_KEY::KEY_PLAYCD),
        201 => Some(EV_KEY::KEY_PAUSECD),
        202 => Some(EV_KEY::KEY_PROG3),
        203 => Some(EV_KEY::KEY_PROG4),
        204 => Some(EV_KEY::KEY_ALL_APPLICATIONS),
        205 => Some(EV_KEY::KEY_SUSPEND),
        206 => Some(EV_KEY::KEY_CLOSE),
        207 => Some(EV_KEY::KEY_PLAY),
        208 => Some(EV_KEY::KEY_FASTFORWARD),
        209 => Some(EV_KEY::KEY_BASSBOOST),
        210 => Some(EV_KEY::KEY_PRINT),
        211 => Some(EV_KEY::KEY_HP),
        212 => Some(EV_KEY::KEY_CAMERA),
        213 => Some(EV_KEY::KEY_SOUND),
        214 => Some(EV_KEY::KEY_QUESTION),
        215 => Some(EV_KEY::KEY_EMAIL),
        216 => Some(EV_KEY::KEY_CHAT),
        217 => Some(EV_KEY::KEY_SEARCH),
        218 => Some(EV_KEY::KEY_CONNECT),
        219 => Some(EV_KEY::KEY_FINANCE),
        220 => Some(EV_KEY::KEY_SPORT),
        221 => Some(EV_KEY::KEY_SHOP),
        222 => Some(EV_KEY::KEY_ALTERASE),
        223 => Some(EV_KEY::KEY_CANCEL),
        224 => Some(EV_KEY::KEY_BRIGHTNESSDOWN),
        225 => Some(EV_KEY::KEY_BRIGHTNESSUP),
        226 => Some(EV_KEY::KEY_MEDIA),
        227 => Some(EV_KEY::KEY_SWITCHVIDEOMODE),
        228 => Some(EV_KEY::KEY_KBDILLUMTOGGLE),
        229 => Some(EV_KEY::KEY_KBDILLUMDOWN),
        230 => Some(EV_KEY::KEY_KBDILLUMUP),
        231 => Some(EV_KEY::KEY_SEND),
        232 => Some(EV_KEY::KEY_REPLY),
        233 => Some(EV_KEY::KEY_FORWARDMAIL),
        234 => Some(EV_KEY::KEY_SAVE),
        235 => Some(EV_KEY::KEY_DOCUMENTS),
        236 => Some(EV_KEY::KEY_BATTERY),
        237 => Some(EV_KEY::KEY_BLUETOOTH),
        238 => Some(EV_KEY::KEY_WLAN),
        239 => Some(EV_KEY::KEY_UWB),
        240 => Some(EV_KEY::KEY_UNKNOWN),
        241 => Some(EV_KEY::KEY_VIDEO_NEXT),
        242 => Some(EV_KEY::KEY_VIDEO_PREV),
        243 => Some(EV_KEY::KEY_BRIGHTNESS_CYCLE),
        244 => Some(EV_KEY::KEY_BRIGHTNESS_AUTO),
        245 => Some(EV_KEY::KEY_DISPLAY_OFF),
        246 => Some(EV_KEY::KEY_WWAN),
        247 => Some(EV_KEY::KEY_RFKILL),
        248 => Some(EV_KEY::KEY_MICMUTE),
        _ => None,
    }
}

fn int_to_key_1xx(code: u32) -> (r: Option<EV_KEY>)
    ensures
        r == key_named_1xx(code),
{
    match code {
        0x100 => Some(EV_KEY::BTN_0),
        0x101 => Some(EV_KEY::BTN_1),
        0x102 => Some(EV_KEY::BTN_2),
        0x103 => Some(EV_KEY::BTN_3),
        0x104 => Some(EV_KEY::BTN_4),
        0x105 => Some(EV_KEY::BTN_5),
        0x106 => Some(EV_KEY::BTN_6),
        0x107 => Some(EV_KEY::BTN_7),
        0x108 => Some(EV_KEY::BTN_8),
        0x109 => Some(EV_KEY::BTN_9),
        0x110 => Some(EV_KEY::BTN_LEFT),
        0x111 => Some(EV_KEY::BTN_RIGHT),
        0x112 => Some(EV_KEY::BTN_MIDDLE),
        0x113 => Some(EV_KEY::BTN_SIDE),
        0x114 => Some(EV_KEY::BTN_EXTRA),
        0x115 => Some(EV_KEY::BTN_FORWARD),
        0x116 => Some(EV_KEY::BTN_BACK),
        0x117 => Some(EV_KEY::BTN_TASK),
        0x120 => Some(EV_KEY::BTN_TRIGGER),
        0x121 => Some(EV_KEY::BTN_THUMB),
        0x122 => Some(EV_KEY::BTN_THUMB2),
        0x123 => Some(EV_KEY::BTN_TOP),
        0x124 => Some(EV_KEY::BTN_TOP2),
        0x125 => Some(EV_KEY::BTN_PINKIE),
        0x126 => Some(EV_KEY::BTN_BASE),
        0x127 => Some(EV_KEY::BTN_BASE2),
        0x128 => Some(EV_KEY::BTN_BASE3),
        0x129 => Some(EV_KEY::BTN_BASE4),
        0x12a => Some(EV_KEY::BTN_BASE5),
        0x12b => Some(EV_KEY::BTN_BASE6),
        0x12f => Some(EV_KEY::BTN_DEAD),
        0x130 => Some(EV_KEY::BTN_SOUTH),
        0x131 => Some(EV_KEY::BTN_EAST),
        0x132 => Some(EV_KEY::BTN_C),
        0x133 => Some(EV_KEY::BTN_NORTH),
        0x134 => Some(EV_KEY::BTN_WEST),
        0x135 => Some(EV_KEY::BTN_Z),
        0x136 => Some(EV_KEY::BTN_TL),
        0x137 => Some(EV_KEY::BTN_TR),
        0x138 => Some(EV_KEY::BTN_TL2),
        0x139 => Some(EV_KEY::BTN_TR2),
        0x13a => Some(EV_KEY::BTN_SELECT),
        0x13b => Some(EV_KEY::BTN_START),
        0x13c => Some(EV_KEY::BTN_MODE),
        0x13d => Some(EV_KEY::BTN_THUMBL),
        0x13e => Some(EV_KEY::BTN_THUMBR),
        0x140 => Some(EV_KEY::BTN_TOOL_PEN),
        0x141 => Some(EV_KEY::BTN_TOOL_RUBBER),
        0x142 => Some(EV_KEY::BTN_TOOL_BRUSH),
        0x143 => Some(EV_KEY::BTN_TOOL_PENCIL),
        0x144 => Some(EV_KEY::BTN_TOOL_AIRBRUSH),
        0x145 => Some(EV_KEY::BTN_TOOL_FINGER),
        0x146 => Some(EV_KEY::BTN_TOOL_MOUSE),
        0x147 => Some(EV_KEY::BTN_TOOL_LENS),
        0x148 => Some(EV_KEY::BTN_TOOL_QUINTTAP),
        0x149 => Some(EV_KEY::BTN_STYLUS3),
        0x14a => Some(EV_KEY::BTN_TOUCH),
        0x14b => Some(EV_KEY::BTN_STYLUS),
        0x14c => Some(EV_KEY::BTN_STYLUS2),
        0x14d => Some(EV_KEY::BTN_TOOL_DOUBLETAP),
        0x14e => Some(EV_KEY::BTN_TOOL_TRIPLETAP),
        0x14f => Some(EV_KEY::BTN_TOOL_QUADTAP),
        0x150 => Some(EV_KEY::BTN_GEAR_DOWN),
        0x151 => Some(EV_KEY::BTN_GEAR_UP),
        0x160 => Some(EV_KEY::KEY_OK),
        0x161 => Some(EV_KEY::KEY_SELECT),
        0x162 => Some(EV_KEY::KEY_GOTO),
        0x163 => Some(EV_KEY::KEY_CLEAR),
        0x164 => Some(EV_KEY::KEY_POWER2),
        0x165 => Some(EV_KEY::KEY_OPTION),
        0x166 => Some(EV_KEY::KEY_INFO),
        0x167 => Some(EV_KEY::KEY_TIME),
        0x168 => Some(EV_KEY::KEY_VENDOR),
        0x169 => Some(EV_KEY::KEY_ARCHIVE),
        0x16a => Some(EV_KEY::KEY_PROGRAM),
        0x16b => Some(EV_KEY::KEY_CHANNEL),
        0x16c => Some(EV_KEY::KEY_FAVORITES),
        0x16d => Some(EV_KEY::KEY_EPG),
        0x16e => Some(EV_KEY::KEY_PVR),
        0x16f => Some(EV_KEY::KEY_MHP),
        0x170 => Some(EV_KEY::KEY_LANGUAGE),
        0x171 => Some(EV_KEY::KEY_TITLE),
        0x172 => Some(EV_KEY::KEY_SUBTITLE),
        0x173 => Some(EV_KEY::KEY_ANGLE),
        0x174 => Some(EV_KEY::KEY_FULL_SCREEN),
        0x175 => Some(EV_KEY::KEY_MODE),
        0x176 => Some(EV_KEY::KEY_KEYBOARD),
        0x177 => Some(EV_KEY::KEY_ASPECT_RATIO),
        0x178 => Some(EV_KEY::KEY_PC),
        0x179 => Some(EV_KEY::KEY_TV),
        0x17a => Some(EV_KEY::KEY_TV2),
        0x17b => Some(EV_KEY::KEY_VCR),
        0x17c => Some(EV_KEY::KEY_VCR2),
        0x17d => Some(EV_KEY::KEY_SAT),
        0x17e => Some(EV_KEY::KEY_SAT2),
        0x17f => Some(EV_KEY::KEY_CD),
        0x180 => Some(EV_KEY::KEY_TAPE),
        0x181 => Some(EV_KEY::KEY_RADIO),
        0x182 => Some(EV_KEY::KEY_TUNER),
        0x183 => Some(EV_KEY::KEY_PLAYER),
        0x184 => Some(EV_KEY::KEY_TEXT),
        0x185 => Some(EV_KEY::KEY_DVD),
        0x186 => Some(EV_KEY::KEY_AUX),
        0x187 => Some(EV_KEY::KEY_MP3),
        0x188 => Some(EV_KEY::KEY_AUDIO),
        0x189 => Some(EV_KEY::KEY_VIDEO),
        0x18a => Some(EV_KEY::KEY_DIRECTORY),
        0x18b => Some(EV_KEY::KEY_LIST),
        0x18c => Some(EV_KEY::KEY_MEMO),
        0x18d => Some(EV_KEY::KEY_CALENDAR),
        0x18e => Some(EV_KEY::KEY_RED),
        0x18f => Some(EV_KEY::KEY_GREEN),
        0x190 => Some(EV_KEY::KEY_YELLOW),
        0x191 => Some(EV_KEY::KEY_BLUE),
        0x192 => Some(EV_KEY::KEY_CHANNELUP),
        0x193 => Some(EV_KEY::KEY_CHANNELDOWN),
        0x194 => Some(EV_KEY::KEY_FIRST),
        0x195 => Some(EV_KEY::KEY_LAST),
        0x196 => Some(EV_KEY::KEY_AB),
        0x197 => Some(EV_KEY::KEY_NEXT),
        0x198 => Some(EV_KEY::KEY_RESTART),
        0x199 => Some(EV_KEY::KEY_SLOW),
        0x19a => Some(EV_KEY::KEY_SHUFFLE),
        0x19b => Some(EV_KEY::KEY_BREAK),
        0x19c => Some(EV_KEY::KEY_PREVIOUS),
        0x19d => Some(EV_KEY::KEY_DIGITS),
        0x19e => Some(EV_KEY::KEY_TEEN),
        0x19f => Some(EV_KEY::KEY_TWEN),
        0x1a0 => Some(EV_KEY::KEY_VIDEOPHONE),
        0x1a1 => Some(EV_KEY::KEY_GAMES),
        0x1a2 => Some(EV_KEY::KEY_ZOOMIN),
        0x1a3 => Some(EV_KEY::KEY_ZOOMOUT),
        0x1a4 => Some(EV_KEY::KEY_ZOOMRESET),
        0x1a5 => Some(EV_KEY::KEY_WORDPROCESSOR),
        0x1a6 => Some(EV_KEY::KEY_EDITOR),
        0x1a7 => Some(EV_KEY::KEY_SPREADSHEET),
        0x1a8 => Some(EV_KEY::KEY_GRAPHICSEDITOR),
        0x1a9 => Some(EV_KEY::KEY_PRESENTATION),
        0x1aa => Some(EV_KEY::KEY_DATABASE),
        0x1ab => Some(EV_KEY::KEY_NEWS),
        0x1ac => Some(EV_KEY::KEY_VOICEMAIL),
        0x1ad => Some(EV_KEY::KEY_ADDRESSBOOK),
        0x1ae => Some(EV_KEY::KEY_MESSENGER),
        0x1af => Some(EV_KEY::KEY_DISPLAYTOGGLE),
        0x1b0 => Some(EV_KEY::KEY_SPELLCHECK),
        0x1b1 => Some(EV_KEY::KEY_LOGOFF),
        0x1b2 => Some(EV_KEY::KEY_DOLLAR),
        0x1b3 => Some(EV_KEY::KEY_EURO),
        0x1b4 => Some(EV_KEY::KEY_FRAMEBACK),
        0x1b5 => Some(EV_KEY::KEY_FRAMEFORWARD),
        0x1b6 => Some(EV_KEY::KEY_CONTEXT_MENU),
        0x1b7 => Some(EV_KEY::KEY_MEDIA_REPEAT),
        0x1b8 => Some(EV_KEY::KEY_10CHANNELSUP),
        0x1b9 => Some(EV_KEY::KEY_10CHANNELSDOWN),
        0x1ba => Some(EV_KEY::KEY_IMAGES),
        0x1bc => Some(EV_KEY::KEY_NOTIFICATION_CENTER),
        0x1bd => Some(EV_KEY::KEY_PICKUP_PHONE),
        0x1be => Some(EV_KEY::KEY_HANGUP_PHONE),
        0x1bf => Some(EV_KEY::KEY_LINK_PHONE),
        0x1c0 => Some(EV_KEY::KEY_DEL_EOL),
        0x1c1 => Some(EV_KEY::KEY_DEL_EOS),
        0x1c2 => Some(EV_KEY::KEY_INS_LINE),
        0x1c3 => Some(EV_KEY::KEY_DEL_LINE),
        0x1d0 => Some(EV_KEY::KEY_FN),
        0x1d1 => Some(EV_KEY::KEY_FN_ESC),
        0x1d2 => Some(EV_KEY::KEY_FN_F1),
        0x1d3 => Some(EV_KEY::KEY_FN_F2),
        0x1d4 => Some(EV_KEY::KEY_FN_F3),
        0x1d5 => Some(EV_KEY::KEY_FN_F4),
        0x1d6 => Some(EV_KEY::KEY_FN_F5),
        0x1d7 => Some(EV_KEY::KEY_FN_F6),
        0x1d8 => Some(EV_KEY::KEY_FN_F7),
        0x1d9 => Some(EV_KEY::KEY_FN_F8),
        0x1da => Some(EV_KEY::KEY_FN_F9),
        0x1db => Some(EV_KEY::KEY_FN_F10),
        0x1dc => Some(EV_KEY::KEY_FN_F11),
        0x1dd => Some(EV_KEY::KEY_FN_F12),
        0x1de => Some(EV_KEY::KEY_FN_1),
        0x1df => Some(EV_KEY::KEY_FN_2),
        0x1e0 => Some(EV_KEY::KEY_FN_D),
        0x1e1 => Some(EV_KEY::KEY_FN_E),
        0x1e2 => Some(EV_KEY::KEY_FN_F),
        0x1e3 => Some(EV_KEY::KEY_FN_S),
        0x1e4 => Some(EV_KEY::KEY_FN_B),
        0x1e5 => Some(EV_KEY::KEY_FN_RIGHT_SHIFT),
        0x1f1 => Some(EV_KEY::KEY_BRL_DOT1),
        0x1f2 => Some(EV_KEY::KEY_BRL_DOT2),
        0x1f3 => Some(EV_KEY::KEY_BRL_DOT3),
        0x1f4 => Some(EV_KEY::KEY_BRL_DOT4),
        0x1f5 => Some(EV_KEY::KEY_BRL_DOT5),
        0x1f6 => Some(EV_KEY::KEY_BRL_DOT6),
        0x1f7 => Some(EV_KEY::KEY_BRL_DOT7),
        0x1f8 => Some(EV_KEY::KEY_BRL_DOT8),
        0x1f9 => Some(EV_KEY::KEY_BRL_DOT9),
        0x1fa => Some(EV_KEY::KEY_BRL_DOT10),
        _ => None,
    }
}

fn int_to_key_2xx(code: u32) -> (r: Option<EV_KEY>)
    ensures
        r == key_named_2xx(code),
{
    match code {
        0x200 => Some(EV_KEY::KEY_NUMERIC_0),
        0x201 => Some(EV_KEY::KEY_NUMERIC_1),
        0x202 => Some(EV_KEY::KEY_NUMERIC_2),
        0x203 => Some(EV_KEY::KEY_NUMERIC_3),
        0x204 => Some(EV_KEY::KEY_NUMERIC_4),
        0x205 => Some(EV_KEY::KEY_NUMERIC_5),
        0x206 => Some(EV_KEY::KEY_NUMERIC_6),
        0x207 => Some(EV_KEY::KEY_NUMERIC_7),
        0x208 => Some(EV_KEY::KEY_NUMERIC_8),
        0x209 => Some(EV_KEY::KEY_NUMERIC_9),
        0x20a => Some(EV_KEY::KEY_NUMERIC_STAR),
        0x20b => Some(EV_KEY::KEY_NUMERIC_POUND),
        0x20c => Some(EV_KEY::KEY_NUMERIC_A),
        0x20d => Some(EV_KEY::KEY_NUMERIC_B),
        0x20e => Some(EV_KEY::KEY_NUMERIC_C),
        0x20f => Some(EV_KEY::KEY_NUMERIC_D),
        0x210 => Some(EV_KEY::KEY_CAMERA_FOCUS),
        0x211 => Some(EV_KEY::KEY_WPS_BUTTON),
        0x212 => Some(EV_KEY::KEY_TOUCHPAD_TOGGLE),
        0x213 => Some(EV_KEY::KEY_TOUCHPAD_ON),
        0x214 => Some(EV_KEY::KEY_TOUCHPAD_OFF),
        0x215 => Some(EV_KEY::KEY_CAMERA_ZOOMIN),
        0x216 => Some(EV_KEY::KEY_CAMERA_ZOOMOUT),
        0x217 => Some(EV_KEY::KEY_CAMERA_UP),
        0x218 => Some(EV_KEY::KEY_CAMERA_DOWN),
        0x219 => Some(EV_KEY::KEY_CAMERA_LEFT),
        0x21a => Some(EV_KEY::KEY_CAMERA_RIGHT),
        0x21b => Some(EV_KEY::KEY_ATTENDANT_ON),
        0x21c => Some(EV_KEY::KEY_ATTENDANT_OFF),
        0x21d => Some(EV_KEY::KEY_ATTENDANT_TOGGLE),
        0x21e => Some(EV_KEY::KEY_LIGHTS_TOGGLE),
        0x220 => Some(EV_KEY::BTN_DPAD_UP),
        0x221 => Some(EV_KEY::BTN_DPAD_DOWN),
        0x222 => Some(EV_KEY::BTN_DPAD_LEFT),
        0x223 => Some(EV_KEY::BTN_DPAD_RIGHT),
        0x230 => Some(EV_KEY::KEY_ALS_TOGGLE),
        0x231 => Some(EV_KEY::KEY_ROTATE_LOCK_TOGGLE),
        0x232 => Some(EV_KEY::KEY_REFRESH_RATE_TOGGLE),
        0x240 => Some(EV_KEY::KEY_BUTTONCONFIG),
        0x241 => Some(EV_KEY::KEY_TASKMANAGER),
        0x242 => Some(EV_KEY::KEY_JOURNAL),
        0x243 => Some(EV_KEY::KEY_CONTROLPANEL),
        0x244 => Some(EV_KEY::KEY_APPSELECT),
        0x245 => Some(EV_KEY::KEY_SCREENSAVER),
        0x246 => Some(EV_KEY::KEY_VOICECOMMAND),
        0x247 => Some(EV_KEY::KEY_ASSISTANT),
        0x248 => Some(EV_KEY::KEY_KBD_LAYOUT_NEXT),
        0x249 => Some(EV_KEY::KEY_EMOJI_PICKER),
        0x24a => Some(EV_KEY::KEY_DICTATE),
        0x250 => Some(EV_KEY::KEY_BRIGHTNESS_MIN),
        0x251 => Some(EV_KEY::KEY_BRIGHTNESS_MAX),
        0x260 => Some(EV_KEY::KEY_KBDINPUTASSIST_PREV),
        0x261 => Some(EV_KEY::KEY_KBDINPUTASSIST_NEXT),
        0x262 => Some(EV_KEY::KEY_KBDINPUTASSIST_PREVGROUP),
        0x263 => Some(EV_KEY::KEY_KBDINPUTASSIST_NEXTGROUP),
        0x264 => Some(EV_KEY::KEY_KBDINPUTASSIST_ACCEPT),
        0x265 => Some(EV_KEY::KEY_KBDINPUTASSIST_CANCEL),
        0x266 => Some(EV_KEY::KEY_RIGHT_UP),
        0x267 => Some(EV_KEY::KEY_RIGHT_DOWN),
        0x268 => Some(EV_KEY::KEY_LEFT_UP),
        0x269 => Some(EV_KEY::KEY_LEFT_DOWN),
        0x26a => Some(EV_KEY::KEY_ROOT_MENU),
        0x26b => Some(EV_KEY::KEY_MEDIA_TOP_MENU),
        0x26c => Some(EV_KEY::KEY_NUMERIC_11),
        0x26d => Some(EV_KEY::KEY_NUMERIC_12),
        0x26e => Some(EV_KEY::KEY_AUDIO_DESC),
        0x26f => Some(EV_KEY::KEY_3D_MODE),
        0x270 => Some(EV_KEY::KEY_NEXT_FAVORITE),
        0x271 => Some(EV_KEY::KEY_STOP_RECORD),
        0x272 => Some(EV_KEY::KEY_PAUSE_RECORD),
        0x273 => Some(EV_KEY::KEY_VOD),
        0x274 => Some(EV_KEY::KEY_UNMUTE),
        0x275 => Some(EV_KEY::KEY_FASTREVERSE),
        0x276 => Some(EV_KEY::KEY_SLOWREVERSE),
        0x277 => Some(EV_KEY::KEY_DATA),
        0x278 => Some(EV_KEY::KEY_ONSCREEN_KEYBOARD),
        0x279 => Some(EV_KEY::KEY_PRIVACY_SCREEN_TOGGLE),
        0x27a => Some(EV_KEY::KEY_SELECTIVE_SCREENSHOT),
        0x27b => Some(EV_KEY::KEY_NEXT_ELEMENT),
        0x27c => Some(EV_KEY::KEY_PREVIOUS_ELEMENT),
        0x27d => Some(EV_KEY::KEY_AUTOPILOT_ENGAGE_TOGGLE),
        0x27e => Some(EV_KEY::KEY_MARK_WAYPOINT),
        0x27f => Some(EV_KEY::KEY_SOS),
        0x280 => Some(EV_KEY::KEY_NAV_CHART),
        0x281 => Some(EV_KEY::KEY_FISHING_CHART),
        0x282 => Some(EV_KEY::KEY_SINGLE_RANGE_RADAR),
        0x283 => Some(EV_KEY::KEY_DUAL_RANGE_RADAR),
        0x284 => Some(EV_KEY::KEY_RADAR_OVERLAY),
        0x285 => Some(EV_KEY::KEY_TRADITIONAL_SONAR),
        0x286 => Some(EV_KEY::KEY_CLEARVU_SONAR),
        0x287 => Some(EV_KEY::KEY_SIDEVU_SONAR),
        0x288 => Some(EV_KEY::KEY_NAV_INFO),
        0x289 => Some(EV_KEY::KEY_BRIGHTNESS_MENU),
        0x290 => Some(EV_KEY::KEY_MACRO1),
        0x291 => Some(EV_KEY::KEY_MACRO2),
        0x292 => Some(EV_KEY::KEY_MACRO3),
        0x293 => Some(EV_KEY::KEY_MACRO4),
        0x294 => Some(EV_KEY::KEY_MACRO5),
        0x295 => Some(EV_KEY::KEY_MACRO6),
        0x296 => Some(EV_KEY::KEY_MACRO7),
        0x297 => Some(EV_KEY::KEY_MACRO8),
        0x298 => Some(EV_KEY::KEY_MACRO9),
        0x299 => Some(EV_KEY::KEY_MACRO10),
        0x29a => Some(EV_KEY::KEY_MACRO11),
        0x29b => Some(EV_KEY::KEY_MACRO12),
        0x29c => Some(EV_KEY::KEY_MACRO13),
        0x29d => Some(EV_KEY::KEY_MACRO14),
        0x29e => Some(EV_KEY::KEY_MACRO15),
        0x29f => Some(EV_KEY::KEY_MACRO16),
        0x2a0 => Some(EV_KEY::KEY_MACRO17),
        0x2a1 => Some(EV_KEY::KEY_MACRO18),
        0x2a2 => Some(EV_KEY::KEY_MACRO19),
        0x2a3 => Some(EV_KEY::KEY_MACRO20),
        0x2a4 => Some(EV_KEY::KEY_MACRO21),
        0x2a5 => Some(EV_KEY::KEY_MACRO22),
        0x2a6 => Some(EV_KEY::KEY_MACRO23),
        0x2a7 => Some(EV_KEY::KEY_MACRO24),
        0x2a8 => Some(EV_KEY::KEY_MACRO25),
        0x2a9 => Some(EV_KEY::KEY_MACRO26),
        0x2aa => Some(EV_KEY::KEY_MACRO27),
        0x2ab => Some(EV_KEY::KEY_MACRO28),
        0x2ac => Some(EV_KEY::KEY_MACRO29),
        0x2ad => Some(EV_KEY::KEY_MACRO30),
        0x2b0 => Some(EV_KEY::KEY_MACRO_RECORD_START),
        0x2b1 => Some(EV_KEY::KEY_MACRO_RECORD_STOP),
        0x2b2 => Some(EV_KEY::KEY_MACRO_PRESET_CYCLE),
        0x2b3 => Some(EV_KEY::KEY_MACRO_PRESET1),
        0x2b4 => Some(EV_KEY::KEY_MACRO_PRESET2),
        0x2b5 => Some(EV_KEY::KEY_MACRO_PRESET3),
        0x2b8 => Some(EV_KEY::KEY_KBD_LCD_MENU1),
        0x2b9 => Some(EV_KEY::KEY_KBD_LCD_MENU2),
        0x2ba => Some(EV_KEY::KEY_KBD_LCD_MENU3),
        0x2bb => Some(EV_KEY::KEY_KBD_LCD_MENU4),
        0x2bc => Some(EV_KEY::KEY_KBD_LCD_MENU5),
        0x2c0 => Some(EV_KEY::BTN_TRIGGER_HAPPY1),
        0x2c1 => Some(EV_KEY::BTN_TRIGGER_HAPPY2),
        0x2c2 => Some(EV_KEY::BTN_TRIGGER_HAPPY3),
        0x2c3 => Some(EV_KEY::BTN_TRIGGER_HAPPY4),
        0x2c4 => Some(EV_KEY::BTN_TRIGGER_HAPPY5),
        0x2c5 => Some(EV_KEY::BTN_TRIGGER_HAPPY6),
        0x2c6 => Some(EV_KEY::BTN_TRIGGER_HAPPY7),
        0x2c7 => Some(EV_KEY::BTN_TRIGGER_HAPPY8),
        0x2c8 => Some(EV_KEY::BTN_TRIGGER_HAPPY9),
        0x2c9 => Some(EV_KEY::BTN_TRIGGER_HAPPY10),
        0x2ca => Some(EV_KEY::BTN_TRIGGER_HAPPY11),
        0x2cb => Some(EV_KEY::BTN_TRIGGER_HAPPY12),
        0x2cc => Some(EV_KEY::BTN_TRIGGER_HAPPY13),
        0x2cd => Some(EV_KEY::BTN_TRIGGER_HAPPY14),
        0x2ce => Some(EV_KEY::BTN_TRIGGER_HAPPY15),
        0x2cf => Some(EV_KEY::BTN_TRIGGER_HAPPY16),
        0x2d0 => Some(EV_KEY::BTN_TRIGGER_HAPPY17),
        0x2d1 => Some(EV_KEY::BTN_TRIGGER_HAPPY18),
        0x2d2 => Some(EV_KEY::BTN_TRIGGER_HAPPY19),
        0x2d3 => Some(EV_KEY::BTN_TRIGGER_HAPPY20),
        0x2d4 => Some(EV_KEY::BTN_TRIGGER_HAPPY21),
        0x2d5 => Some(EV_KEY::BTN_TRIGGER_HAPPY22),
        0x2d6 => Some(EV_KEY::BTN_TRIGGER_HAPPY23),
        0x2d7 => Some(EV_KEY::BTN_TRIGGER_HAPPY24),
        0x2d8 => Some(EV_KEY::BTN_TRIGGER_HAPPY25),
        0x2d9 => Some(EV_KEY::BTN_TRIGGER_HAPPY26),
        0x2da => Some(EV_KEY::BTN_TRIGGER_HAPPY27),
        0x2db => Some(EV_KEY::BTN_TRIGGER_HAPPY28),
        0x2dc => Some(EV_KEY::BTN_TRIGGER_HAPPY29),
        0x2dd => Some(EV_KEY::BTN_TRIGGER_HAPPY30),
        0x2de => Some(EV_KEY::BTN_TRIGGER_HAPPY31),
        0x2df => Some(EV_KEY::BTN_TRIGGER_HAPPY32),
        0x2e0 => Some(EV_KEY::BTN_TRIGGER_HAPPY33),
        0x2e1 => Some(EV_KEY::BTN_TRIGGER_HAPPY34),
        0x2e2 => Some(EV_KEY::BTN_TRIGGER_HAPPY35),
        0x2e3 => Some(EV_KEY::BTN_TRIGGER_HAPPY36),
        0x2e4 => Some(EV_KEY::BTN_TRIGGER_HAPPY37),
        0x2e5 => Some(EV_KEY::BTN_TRIGGER_HAPPY38),
        0x2e6 => Some(EV_KEY::BTN_TRIGGER_HAPPY39),
        0x2e7 => Some(EV_KEY::BTN_TRIGGER_HAPPY40),
        0x2ff => Some(EV_KEY::KEY_MAX),
        _ => None,
    }
}

/// The name in [`EV_KEY`] of a number, if it has one.
pub fn int_to_ev_key(code: u32) -> (r: Option<EV_KEY>)
    ensures
        r == EV_KEY::named(code),
{
    if code < 0x100 {
        int_to_key_0xx(code)
    } else if code < 0x200 {
        int_to_key_1xx(code)
    } else {
        int_to_key_2xx(code)
    }
}

impl Numbered for EV_KEY {
    /// The table is long, so it stays folded where nothing asks for it:
    /// `lemma_named` gives the number of a key from its name by number,
    /// and `reveal` gives the table itself.
    #[verifier::opaque]
    open spec fn number(self) -> u32 {
        match self {
            EV_KEY::KEY_RESERVED => 0,
            EV_KEY::KEY_ESC => 1,
            EV_KEY::KEY_1 => 2,
            EV_KEY::KEY_2 => 3,
            EV_KEY::KEY_3 => 4,
            EV_KEY::KEY_4 => 5,
            EV_KEY::KEY_5 => 6,
            EV_KEY::KEY_6 => 7,
            EV_KEY::KEY_7 => 8,
            EV_KEY::KEY_8 => 9,
            EV_KEY::KEY_9 => 10,
            EV_KEY::KEY_0 => 11,
            EV_KEY::KEY_MINUS => 12,
            EV_KEY::KEY_EQUAL => 13,
            EV_KEY::KEY_BACKSPACE => 14,
            EV_KEY::KEY_TAB => 15,
            EV_KEY::KEY_Q => 16,
            EV_KEY::KEY_W => 17,
            EV_KEY::KEY_E => 18,
            EV_KEY::KEY_R => 19,
            EV_KEY::KEY_T => 20,
            EV_KEY::KEY_Y => 21,
            EV_KEY::KEY_U => 22,
            EV_KEY::KEY_I => 23,
            EV_KEY::KEY_O => 24,
            EV_KEY::KEY_P => 25,
            EV_KEY::KEY_LEFTBRACE => 26,
            EV_KEY::KEY_RIGHTBRACE => 27,
            EV_KEY::KEY_ENTER => 28,
            EV_KEY::KEY_LEFTCTRL => 29,
            EV_KEY::KEY_A => 30,
            EV_KEY::KEY_S => 31,
            EV_KEY::KEY_D => 32,
            EV_KEY::KEY_F => 33,
            EV_KEY::KEY_G => 34,
            EV_KEY::KEY_H => 35,
            EV_KEY::KEY_J => 36,
            EV_KEY::KEY_K => 37,
            EV_KEY::KEY_L => 38,
            EV_KEY::KEY_SEMICOLON => 39,
            EV_KEY::KEY_APOSTROPHE => 40,
            EV_KEY::KEY_GRAVE => 41,
            EV_KEY::KEY_LEFTSHIFT => 42,
            EV_KEY::KEY_BACKSLASH => 43,
            EV_KEY::KEY_Z => 44,
            EV_KEY::KEY_X => 45,
            EV_KEY::KEY_C => 46,
            EV_KEY::KEY_V => 47,
            EV_KEY::KEY_B => 48,
            EV_KEY::KEY_N => 49,
            EV_KEY::KEY_M => 50,
            EV_KEY::KEY_COMMA => 51,
            EV_KEY::KEY_DOT => 52,
            EV_KEY::KEY_SLASH => 53,
            EV_KEY::KEY_RIGHTSHIFT => 54,
            EV_KEY::KEY_KPASTERISK => 55,
            EV_KEY::KEY_LEFTALT => 56,
            EV_KEY::KEY_SPACE => 57,
            EV_KEY::KEY_CAPSLOCK => 58,
            EV_KEY::KEY_F1 => 59,
            EV_KEY::KEY_F2 => 60,
            EV_KEY::KEY_F3 => 61,
            EV_KEY::KEY_F4 => 62,
            EV_KEY::KEY_F5 => 63,
            EV_KEY::KEY_F6 => 64,
            EV_KEY::KEY_F7 => 65,
            EV_KEY::KEY_F8 => 66,
            EV_KEY::KEY_F9 => 67,
            EV_KEY::KEY_F10 => 68,
            EV_KEY::KEY_NUMLOCK => 69,
            EV_KEY::KEY_SCROLLLOCK => 70,
            EV_KEY::KEY_KP7 => 71,
            EV_KEY::KEY_KP8 => 72,
            EV_KEY::KEY_KP9 => 73,
            EV_KEY::KEY_KPMINUS => 74,
            EV_KEY::KEY_KP4 => 75,
            EV_KEY::KEY_KP5 => 76,
            EV_KEY::KEY_KP6 => 77,
            EV_KEY::KEY_KPPLUS => 78,
            EV_KEY::KEY_KP1 => 79,
            EV_KEY::KEY_KP2 => 80,
            EV_KEY::KEY_KP3 => 81,
            EV_KEY::KEY_KP0 => 82,
            EV_KEY::KEY_KPDOT => 83,
            EV_KEY::KEY_ZENKAKUHANKAKU => 85,
            EV_KEY::KEY_102ND => 86,
            EV_KEY::KEY_F11 => 87,
            EV_KEY::KEY_F12 => 88,
            EV_KEY::KEY_RO => 89,
            EV_KEY::KEY_KATAKANA => 90,
            EV_KEY::KEY_HIRAGANA => 91,
            EV_KEY::KEY_HENKAN => 92,
            EV_KEY::KEY_KATAKANAHIRAGANA => 93,
            EV_KEY::KEY_MUHENKAN => 94,
            EV_KEY::KEY_KPJPCOMMA => 95,
            EV_KEY::KEY_KPENTER => 96,
            EV_KEY::KEY_RIGHTCTRL => 97,
            EV_KEY::KEY_KPSLASH => 98,
            EV_KEY::KEY_SYSRQ => 99,
            EV_KEY::KEY_RIGHTALT => 100,
            EV_KEY::KEY_LINEFEED => 101,
            EV_KEY::KEY_HOME => 102,
            EV_KEY::KEY_UP => 103,
            EV_KEY::KEY_PAGEUP => 104,
            EV_KEY::KEY_LEFT => 105,
            EV_KEY::KEY_RIGHT => 106,
            EV_KEY::KEY_END => 107,
            EV_KEY::KEY_DOWN => 108,
            EV_KEY::KEY_PAGEDOWN => 109,
            EV_KEY::KEY_INSERT => 110,
            EV_KEY::KEY_DELETE => 111,
            EV_KEY::KEY_MACRO => 112,
            EV_KEY::KEY_MUTE => 113,
            EV_KEY::KEY_VOLUMEDOWN => 114,
            EV_KEY::KEY_VOLUMEUP => 115,
            EV_KEY::KEY_POWER => 116,
            EV_KEY::KEY_KPEQUAL => 117,
            EV_KEY::KEY_KPPLUSMINUS => 118,
            EV_KEY::KEY_PAUSE => 119,
            EV_KEY::KEY_SCALE => 120,
            EV_KEY::KEY_KPCOMMA => 121,
            EV_KEY::KEY_HANGEUL => 122,
            EV_KEY::KEY_HANJA => 123,
            EV_KEY::KEY_YEN => 124,
            EV_KEY::KEY_LEFTMETA => 125,
            EV_KEY::KEY_RIGHTMETA => 126,
            EV_KEY::KEY_COMPOSE => 127,
            EV_KEY::KEY_STOP => 128,
            EV_KEY::KEY_AGAIN => 129,
            EV_KEY::KEY_PROPS => 130,
            EV_KEY::KEY_UNDO => 131,
            EV_KEY::KEY_FRONT => 132,
            EV_KEY::KEY_COPY => 133,
            EV_KEY::KEY_OPEN => 134,
            EV_KEY::KEY_PASTE => 135,
            EV_KEY::KEY_FIND => 136,
            EV_KEY::KEY_CUT => 137,
            EV_KEY::KEY_HELP => 138,
            EV_KEY::KEY_MENU => 139,
            EV_KEY::KEY_CALC => 140,
            EV_KEY::KEY_SETUP => 141,
            EV_KEY::KEY_SLEEP => 142,
            EV_KEY::KEY_WAKEUP => 143,
            EV_KEY::KEY_FILE => 144,
            EV_KEY::KEY_SENDFILE => 145,
            EV_KEY::KEY_DELETEFILE => 146,
            EV_KEY::KEY_XFER => 147,
            EV_KEY::KEY_PROG1 => 148,
            EV_KEY::KEY_PROG2 => 149,
            EV_KEY::KEY_WWW => 150,
            EV_KEY::KEY_MSDOS => 151,
            EV_KEY::KEY_COFFEE => 152,
            EV_KEY::KEY_ROTATE_DISPLAY => 153,
            EV_KEY::KEY_CYCLEWINDOWS => 154,
            EV_KEY::KEY_MAIL => 155,
            EV_KEY::KEY_BOOKMARKS => 156,
            EV_KEY::KEY_COMPUTER => 157,
            EV_KEY::KEY_BACK => 158,
            EV_KEY::KEY_FORWARD => 159,
            EV_KEY::KEY_CLOSECD => 160,
            EV_KEY::KEY_EJECTCD => 161,
            EV_KEY::KEY_EJECTCLOSECD => 162,
            EV_KEY::KEY_NEXTSONG => 163,
            EV_KEY::KEY_PLAYPAUSE => 164,
            EV_KEY::KEY_PREVIOUSSONG => 165,
            EV_KEY::KEY_STOPCD => 166,
            EV_KEY::KEY_RECORD => 167,
            EV_KEY::KEY_REWIND => 168,
            EV_KEY::KEY_PHONE => 169,
            EV_KEY::KEY_ISO => 170,
            EV_KEY::KEY_CONFIG => 171,
            EV_KEY::KEY_HOMEPAGE => 172,
            EV_KEY::KEY_REFRESH => 173,
            EV_KEY::KEY_EXIT => 174,
            EV_KEY::KEY_MOVE => 175,
            EV_KEY::KEY_EDIT => 176,
            EV_KEY::KEY_SCROLLUP => 177,
            EV_KEY::KEY_SCROLLDOWN => 178,
            EV_KEY::KEY_KPLEFTPAREN => 179,
            EV_KEY::KEY_KPRIGHTPAREN => 180,
            EV_KEY::KEY_NEW => 181,
            EV_KEY::KEY_REDO => 182,
            EV_KEY::KEY_F13 => 183,
            EV_KEY::KEY_F14 => 184,
            EV_KEY::KEY_F15 => 185,
            EV_KEY::KEY_F16 => 186,
            EV_KEY::KEY_F17 => 187,
            EV_KEY::KEY_F18 => 188,
            EV_KEY::KEY_F19 => 189,
            EV_KEY::KEY_F20 => 190,
            EV_KEY::KEY_F21 => 191,
            EV_KEY::KEY_F22 => 192,
            EV_KEY::KEY_F23 => 193,
            EV_KEY::KEY_F24 => 194,
            EV_KEY::KEY_PLAYCD => 200,
            EV_KEY::KEY_PAUSECD => 201,
            EV_KEY::KEY_PROG3 => 202,
            EV_KEY::KEY_PROG4 => 203,
            EV_KEY::KEY_ALL_APPLICATIONS => 204,
            EV_KEY::KEY_SUSPEND => 205,
            EV_KEY::KEY_CLOSE => 206,
            EV_KEY::KEY_PLAY => 207,
            EV_KEY::KEY_FASTFORWARD => 208,
            EV_KEY::KEY_BASSBOOST => 209,
            EV_KEY::KEY_PRINT => 210,
            EV_KEY::KEY_HP => 211,
            EV_KEY::KEY_CAMERA => 212,
            EV_KEY::KEY_SOUND => 213,
            EV_KEY::KEY_QUESTION => 214,
            EV_KEY::KEY_EMAIL => 215,
            EV_KEY::KEY_CHAT => 216,
            EV_KEY::KEY_SEARCH => 217,
            EV_KEY::KEY_CONNECT => 218,
            EV_KEY::KEY_FINANCE => 219,
            EV_KEY::KEY_SPORT => 220,
            EV_KEY::KEY_SHOP => 221,
            EV_KEY::KEY_ALTERASE => 222,
            EV_KEY::KEY_CANCEL => 223,
            EV_KEY::KEY_BRIGHTNESSDOWN => 224,
            EV_KEY::KEY_BRIGHTNESSUP => 225,
            EV_KEY::KEY_MEDIA => 226,
            EV_KEY::KEY_SWITCHVIDEOMODE => 227,
            EV_KEY::KEY_KBDILLUMTOGGLE => 228,
            EV_KEY::KEY_KBDILLUMDOWN => 229,
            EV_KEY::KEY_KBDILLUMUP => 230,
            EV_KEY::KEY_SEND => 231,
            EV_KEY::KEY_REPLY => 232,
            EV_KEY::KEY_FORWARDMAIL => 233,
            EV_KEY::KEY_SAVE => 234,
            EV_KEY::KEY_DOCUMENTS => 235,
            EV_KEY::KEY_BATTERY => 236,
            EV_KEY::KEY_BLUETOOTH => 237,
            EV_KEY::KEY_WLAN => 238,
            EV_KEY::KEY_UWB => 239,
            EV_KEY::KEY_UNKNOWN => 240,
            EV_KEY::KEY_VIDEO_NEXT => 241,
            EV_KEY::KEY_VIDEO_PREV => 242,
            EV_KEY::KEY_BRIGHTNESS_CYCLE => 243,
            EV_KEY::KEY_BRIGHTNESS_AUTO => 244,
            EV_KEY::KEY_DISPLAY_OFF => 245,
            EV_KEY::KEY_WWAN => 246,
            EV_KEY::KEY_RFKILL => 247,
            EV_KEY::KEY_MICMUTE => 248,
            EV_KEY::BTN_0 => 0x100,
            EV_KEY::BTN_1 => 0x101,
            EV_KEY::BTN_2 => 0x102,
            EV_KEY::BTN_3 => 0x103,
            EV_KEY::BTN_4 => 0x104,
            EV_KEY::BTN_5 => 0x105,
            EV_KEY::BTN_6 => 0x106,
            EV_KEY::BTN_7 => 0x107,
            EV_KEY::BTN_8 => 0x108,
            EV_KEY::BTN_9 => 0x109,
            EV_KEY::BTN_LEFT => 0x110,
            EV_KEY::BTN_RIGHT => 0x111,
            EV_KEY::BTN_MIDDLE => 0x112,
            EV_KEY::BTN_SIDE => 0x113,
            EV_KEY::BTN_EXTRA => 0x114,
            EV_KEY::BTN_FORWARD => 0x115,
            EV_KEY::BTN_BACK => 0x116,
            EV_KEY::BTN_TASK => 0x117,
            EV_KEY::BTN_TRIGGER => 0x120,
            EV_KEY::BTN_THUMB => 0x121,
            EV_KEY::BTN_THUMB2 => 0x122,
            EV_KEY::BTN_TOP => 0x123,
            EV_KEY::BTN_TOP2 => 0x124,
            EV_KEY::BTN_PINKIE => 0x125,
            EV_KEY::BTN_BASE => 0x126,
            EV_KEY::BTN_BASE2 => 0x127,
            EV_KEY::BTN_BASE3 => 0x128,
            EV_KEY::BTN_BASE4 => 0x129,
            EV_KEY::BTN_BASE5 => 0x12a,
            EV_KEY::BTN_BASE6 => 0x12b,
            EV_KEY::BTN_DEAD => 0x12f,
            EV_KEY::BTN_SOUTH => 0x130,
            EV_KEY::BTN_EAST => 0x131,
            EV_KEY::BTN_C => 0x132,
            EV_KEY::BTN_NORTH => 0x133,
            EV_KEY::BTN_WEST => 0x134,
            EV_KEY::BTN_Z => 0x135,
            EV_KEY::BTN_TL => 0x136,
            EV_KEY::BTN_TR => 0x137,
            EV_KEY::BTN_TL2 => 0x138,
            EV_KEY::BTN_TR2 => 0x139,
            EV_KEY::BTN_SELECT => 0x13a,
            EV_KEY::BTN_START => 0x13b,
            EV_KEY::BTN_MODE => 0x13c,
            EV_KEY::BTN_THUMBL => 0x13d,
            EV_KEY::BTN_THUMBR => 0x13e,
            EV_KEY::BTN_TOOL_PEN => 0x140,
            EV_KEY::BTN_TOOL_RUBBER => 0x141,
            EV_KEY::BTN_TOOL_BRUSH => 0x142,
            EV_KEY::BTN_TOOL_PENCIL => 0x143,
            EV_KEY::BTN_TOOL_AIRBRUSH => 0x144,
            EV_KEY::BTN_TOOL_FINGER => 0x145,
            EV_KEY::BTN_TOOL_MOUSE => 0x146,
            EV_KEY::BTN_TOOL_LENS => 0x147,
            EV_KEY::BTN_TOOL_QUINTTAP => 0x148,
            EV_KEY::BTN_STYLUS3 => 0x149,
            EV_KEY::BTN_TOUCH => 0x14a,
            EV_KEY::BTN_STYLUS => 0x14b,
            EV_KEY::BTN_STYLUS2 => 0x14c,
            EV_KEY::BTN_TOOL_DOUBLETAP => 0x14d,
            EV_KEY::BTN_TOOL_TRIPLETAP => 0x14e,
            EV_KEY::BTN_TOOL_QUADTAP => 0x14f,
            EV_KEY::BTN_GEAR_DOWN => 0x150,
            EV_KEY::BTN_GEAR_UP => 0x151,
            EV_KEY::KEY_OK => 0x160,
            EV_KEY::KEY_SELECT => 0x161,
            EV_KEY::KEY_GOTO => 0x162,
            EV_KEY::KEY_CLEAR => 0x163,
            EV_KEY::KEY_POWER2 => 0x164,
            EV_KEY::KEY_OPTION => 0x165,
            EV_KEY::KEY_INFO => 0x166,
            EV_KEY::KEY_TIME => 0x167,
            EV_KEY::KEY_VENDOR => 0x168,
            EV_KEY::KEY_ARCHIVE => 0x169,
            EV_KEY::KEY_PROGRAM => 0x16a,
            EV_KEY::KEY_CHANNEL => 0x16b,
            EV_KEY::KEY_FAVORITES => 0x16c,
            EV_KEY::KEY_EPG => 0x16d,
            EV_KEY::KEY_PVR => 0x16e,
            EV_KEY::KEY_MHP => 0x16f,
            EV_KEY::KEY_LANGUAGE => 0x170,
            EV_KEY::KEY_TITLE => 0x171,
            EV_KEY::KEY_SUBTITLE => 0x172,
            EV_KEY::KEY_ANGLE => 0x173,
            EV_KEY::KEY_FULL_SCREEN => 0x174,
            EV_KEY::KEY_MODE => 0x175,
            EV_KEY::KEY_KEYBOARD => 0x176,
            EV_KEY::KEY_ASPECT_RATIO => 0x177,
            EV_KEY::KEY_PC => 0x178,
            EV_KEY::KEY_TV => 0x179,
            EV_KEY::KEY_TV2 => 0x17a,
            EV_KEY::KEY_VCR => 0x17b,
            EV_KEY::KEY_VCR2 => 0x17c,
            EV_KEY::KEY_SAT => 0x17d,
            EV_KEY::KEY_SAT2 => 0x17e,
            EV_KEY::KEY_CD => 0x17f,
            EV_KEY::KEY_TAPE => 0x180,
            EV_KEY::KEY_RADIO => 0x181,
            EV_KEY::KEY_TUNER => 0x182,
            EV_KEY::KEY_PLAYER => 0x183,
            EV_KEY::KEY_TEXT => 0x184,
            EV_KEY::KEY_DVD => 0x185,
            EV_KEY::KEY_AUX => 0x186,
            EV_KEY::KEY_MP3 => 0x187,
            EV_KEY::KEY_AUDIO => 0x188,
            EV_KEY::KEY_VIDEO => 0x189,
            EV_KEY::KEY_DIRECTORY => 0x18a,
            EV_KEY::KEY_LIST => 0x18b,
            EV_KEY::KEY_MEMO => 0x18c,
            EV_KEY::KEY_CALENDAR => 0x18d,
            EV_KEY::KEY_RED => 0x18e,
            EV_KEY::KEY_GREEN => 0x18f,
            EV_KEY::KEY_YELLOW => 0x190,
            EV_KEY::KEY_BLUE => 0x191,
            EV_KEY::KEY_CHANNELUP => 0x192,
            EV_KEY::KEY_CHANNELDOWN => 0x193,
            EV_KEY::KEY_FIRST => 0x194,
            EV_KEY::KEY_LAST => 0x195,
            EV_KEY::KEY_AB => 0x196,
            EV_KEY::KEY_NEXT => 0x197,
            EV_KEY::KEY_RESTART => 0x198,
            EV_KEY::KEY_SLOW => 0x199,
            EV_KEY::KEY_SHUFFLE => 0x19a,
            EV_KEY::KEY_BREAK => 0x19b,
            EV_KEY::KEY_PREVIOUS => 0x19c,
            EV_KEY::KEY_DIGITS => 0x19d,
            EV_KEY::KEY_TEEN => 0x19e,
            EV_KEY::KEY_TWEN => 0x19f,
            EV_KEY::KEY_VIDEOPHONE => 0x1a0,
            EV_KEY::KEY_GAMES => 0x1a1,
            EV_KEY::KEY_ZOOMIN => 0x1a2,
            EV_KEY::KEY_ZOOMOUT => 0x1a3,
            EV_KEY::KEY_ZOOMRESET => 0x1a4,
            EV_KEY::KEY_WORDPROCESSOR => 0x1a5,
            EV_KEY::KEY_EDITOR => 0x1a6,
            EV_KEY::KEY_SPREADSHEET => 0x1a7,
            EV_KEY::KEY_GRAPHICSEDITOR => 0x1a8,
            EV_KEY::KEY_PRESENTATION => 0x1a9,
            EV_KEY::KEY_DATABASE => 0x1aa,
            EV_KEY::KEY_NEWS => 0x1ab,
            EV_KEY::KEY_VOICEMAIL => 0x1ac,
            EV_KEY::KEY_ADDRESSBOOK => 0x1ad,
            EV_KEY::KEY_MESSENGER => 0x1ae,
            EV_KEY::KEY_DISPLAYTOGGLE => 0x1af,
            EV_KEY::KEY_SPELLCHECK => 0x1b0,
            EV_KEY::KEY_LOGOFF => 0x1b1,
            EV_KEY::KEY_DOLLAR => 0x1b2,
            EV_KEY::KEY_EURO => 0x1b3,
            EV_KEY::KEY_FRAMEBACK => 0x1b4,
            EV_KEY::KEY_FRAMEFORWARD => 0x1b5,
            EV_KEY::KEY_CONTEXT_MENU => 0x1b6,
            EV_KEY::KEY_MEDIA_REPEAT => 0x1b7,
            EV_KEY::KEY_10CHANNELSUP => 0x1b8,
            EV_KEY::KEY_10CHANNELSDOWN => 0x1b9,
            EV_KEY::KEY_IMAGES => 0x1ba,
            EV_KEY::KEY_NOTIFICATION_CENTER => 0x1bc,
            EV_KEY::KEY_PICKUP_PHONE => 0x1bd,
            EV_KEY::KEY_HANGUP_PHONE => 0x1be,
            EV_KEY::KEY_LINK_PHONE => 0x1bf,
            EV_KEY::KEY_DEL_EOL => 0x1c0,
            EV_KEY::KEY_DEL_EOS => 0x1c1,
            EV_KEY::KEY_INS_LINE => 0x1c2,
            EV_KEY::KEY_DEL_LINE => 0x1c3,
            EV_KEY::KEY_FN => 0x1d0,
            EV_KEY::KEY_FN_ESC => 0x1d1,
            EV_KEY::KEY_FN_F1 => 0x1d2,
            EV_KEY::KEY_FN_F2 => 0x1d3,
            EV_KEY::KEY_FN_F3 => 0x1d4,
            EV_KEY::KEY_FN_F4 => 0x1d5,
            EV_KEY::KEY_FN_F5 => 0x1d6,
            EV_KEY::KEY_FN_F6 => 0x1d7,
            EV_KEY::KEY_FN_F7 => 0x1d8,
            EV_KEY::KEY_FN_F8 => 0x1d9,
            EV_KEY::KEY_FN_F9 => 0x1da,
            EV_KEY::KEY_FN_F10 => 0x1db,
            EV_KEY::KEY_FN_F11 => 0x1dc,
            EV_KEY::KEY_FN_F12 => 0x1dd,
            EV_KEY::KEY_FN_1 => 0x1de,
            EV_KEY::KEY_FN_2 => 0x1df,
            EV_KEY::KEY_FN_D => 0x1e0,
            EV_KEY::KEY_FN_E => 0x1e1,
            EV_KEY::KEY_FN_F => 0x1e2,
            EV_KEY::KEY_FN_S => 0x1e3,
            EV_KEY::KEY_FN_B => 0x1e4,
            EV_KEY::KEY_FN_RIGHT_SHIFT => 0x1e5,
            EV_KEY::KEY_BRL_DOT1 => 0x1f1,
            EV_KEY::KEY_BRL_DOT2 => 0x1f2,
            EV_KEY::KEY_BRL_DOT3 => 0x1f3,
            EV_KEY::KEY_BRL_DOT4 => 0x1f4,
            EV_KEY::KEY_BRL_DOT5 => 0x1f5,
            EV_KEY::KEY_BRL_DOT6 => 0x1f6,
            EV_KEY::KEY_BRL_DOT7 => 0x1f7,
            EV_KEY::KEY_BRL_DOT8 => 0x1f8,
            EV_KEY::KEY_BRL_DOT9 => 0x1f9,
            EV_KEY::KEY_BRL_DOT10 => 0x1fa,
            EV_KEY::KEY_NUMERIC_0 => 0x200,
            EV_KEY::KEY_NUMERIC_1 => 0x201,
            EV_KEY::KEY_NUMERIC_2 => 0x202,
            EV_KEY::KEY_NUMERIC_3 => 0x203,
            EV_KEY::KEY_NUMERIC_4 => 0x204,
            EV_KEY::KEY_NUMERIC_5 => 0x205,
            EV_KEY::KEY_NUMERIC_6 => 0x206,
            EV_KEY::KEY_NUMERIC_7 => 0x207,
            EV_KEY::KEY_NUMERIC_8 => 0x208,
            EV_KEY::KEY_NUMERIC_9 => 0x209,
            EV_KEY::KEY_NUMERIC_STAR => 0x20a,
            EV_KEY::KEY_NUMERIC_POUND => 0x20b,
            EV_KEY::KEY_NUMERIC_A => 0x20c,
            EV_KEY::KEY_NUMERIC_B => 0x20d,
            EV_KEY::KEY_NUMERIC_C => 0x20e,
            EV_KEY::KEY_NUMERIC_D => 0x20f,
            EV_KEY::KEY_CAMERA_FOCUS => 0x210,
            EV_KEY::KEY_WPS_BUTTON => 0x211,
            EV_KEY::KEY_TOUCHPAD_TOGGLE => 0x212,
            EV_KEY::KEY_TOUCHPAD_ON => 0x213,
            EV_KEY::KEY_TOUCHPAD_OFF => 0x214,
            EV_KEY::KEY_CAMERA_ZOOMIN => 0x215,
            EV_KEY::KEY_CAMERA_ZOOMOUT => 0x216,
            EV_KEY::KEY_CAMERA_UP => 0x217,
            EV_KEY::KEY_CAMERA_DOWN => 0x218,
            EV_KEY::KEY_CAMERA_LEFT => 0x219,
            EV_KEY::KEY_CAMERA_RIGHT => 0x21a,
            EV_KEY::KEY_ATTENDANT_ON => 0x21b,
            EV_KEY::KEY_ATTENDANT_OFF => 0x21c,
            EV_KEY::KEY_ATTENDANT_TOGGLE => 0x21d,
            EV_KEY::KEY_LIGHTS_TOGGLE => 0x21e,
            EV_KEY::BTN_DPAD_UP => 0x220,
            EV_KEY::BTN_DPAD_DOWN => 0x221,
            EV_KEY::BTN_DPAD_LEFT => 0x222,
            EV_KEY::BTN_DPAD_RIGHT => 0x223,
            EV_KEY::KEY_ALS_TOGGLE => 0x230,
            EV_KEY::KEY_ROTATE_LOCK_TOGGLE => 0x231,
            EV_KEY::KEY_REFRESH_RATE_TOGGLE => 0x232,
            EV_KEY::KEY_BUTTONCONFIG => 0x240,
            EV_KEY::KEY_TASKMANAGER => 0x241,
            EV_KEY::KEY_JOURNAL => 0x242,
            EV_KEY::KEY_CONTROLPANEL => 0x243,
            EV_KEY::KEY_APPSELECT => 0x244,
            EV_KEY::KEY_SCREENSAVER => 0x245,
            EV_KEY::KEY_VOICECOMMAND => 0x246,
            EV_KEY::KEY_ASSISTANT => 0x247,
            EV_KEY::KEY_KBD_LAYOUT_NEXT => 0x248,
            EV_KEY::KEY_EMOJI_PICKER => 0x249,
            EV_KEY::KEY_DICTATE => 0x24a,
            EV_KEY::KEY_BRIGHTNESS_MIN => 0x250,
            EV_KEY::KEY_BRIGHTNESS_MAX => 0x251,
            EV_KEY::KEY_KBDINPUTASSIST_PREV => 0x260,
            EV_KEY::KEY_KBDINPUTASSIST_NEXT => 0x261,
            EV_KEY::KEY_KBDINPUTASSIST_PREVGROUP => 0x262,
            EV_KEY::KEY_KBDINPUTASSIST_NEXTGROUP => 0x263,
            EV_KEY::KEY_KBDINPUTASSIST_ACCEPT => 0x264,
            EV_KEY::KEY_KBDINPUTASSIST_CANCEL => 0x265,
            EV_KEY::KEY_RIGHT_UP => 0x266,
            EV_KEY::KEY_RIGHT_DOWN => 0x267,
            EV_KEY::KEY_LEFT_UP => 0x268,
            EV_KEY::KEY_LEFT_DOWN => 0x269,
            EV_KEY::KEY_ROOT_MENU => 0x26a,
            EV_KEY::KEY_MEDIA_TOP_MENU => 0x26b,
            EV_KEY::KEY_NUMERIC_11 => 0x26c,
            EV_KEY::KEY_NUMERIC_12 => 0x26d,
            EV_KEY::KEY_AUDIO_DESC => 0x26e,
            EV_KEY::KEY_3D_MODE => 0x26f,
            EV_KEY::KEY_NEXT_FAVORITE => 0x270,
            EV_KEY::KEY_STOP_RECORD => 0x271,
            EV_KEY::KEY_PAUSE_RECORD => 0x272,
            EV_KEY::KEY_VOD => 0x273,
            EV_KEY::KEY_UNMUTE => 0x274,
            EV_KEY::KEY_FASTREVERSE => 0x275,
            EV_KEY::KEY_SLOWREVERSE => 0x276,
            EV_KEY::KEY_DATA => 0x277,
            EV_KEY::KEY_ONSCREEN_KEYBOARD => 0x278,
            EV_KEY::KEY_PRIVACY_SCREEN_TOGGLE => 0x279,
            EV_KEY::KEY_SELECTIVE_SCREENSHOT => 0x27a,
            EV_KEY::KEY_NEXT_ELEMENT => 0x27b,
            EV_KEY::KEY_PREVIOUS_ELEMENT => 0x27c,
            EV_KEY::KEY_AUTOPILOT_ENGAGE_TOGGLE => 0x27d,
            EV_KEY::KEY_MARK_WAYPOINT => 0x27e,
            EV_KEY::KEY_SOS => 0x27f,
            EV_KEY::KEY_NAV_CHART => 0x280,
            EV_KEY::KEY_FISHING_CHART => 0x281,
            EV_KEY::KEY_SINGLE_RANGE_RADAR => 0x282,
            EV_KEY::KEY_DUAL_RANGE_RADAR => 0x283,
            EV_KEY::KEY_RADAR_OVERLAY => 0x284,
            EV_KEY::KEY_TRADITIONAL_SONAR => 0x285,
            EV_KEY::KEY_CLEARVU_SONAR => 0x286,
            EV_KEY::KEY_SIDEVU_SONAR => 0x287,
            EV_KEY::KEY_NAV_INFO => 0x288,
            EV_KEY::KEY_BRIGHTNESS_MENU => 0x289,
            EV_KEY::KEY_MACRO1 => 0x290,
            EV_KEY::KEY_MACRO2 => 0x291,
            EV_KEY::KEY_MACRO3 => 0x292,
            EV_KEY::KEY_MACRO4 => 0x293,
            EV_KEY::KEY_MACRO5 => 0x294,
            EV_KEY::KEY_MACRO6 => 0x295,
            EV_KEY::KEY_MACRO7 => 0x296,
            EV_KEY::KEY_MACRO8 => 0x297,
            EV_KEY::KEY_MACRO9 => 0x298,
            EV_KEY::KEY_MACRO10 => 0x299,
            EV_KEY::KEY_MACRO11 => 0x29a,
            EV_KEY::KEY_MACRO12 => 0x29b,
            EV_KEY::KEY_MACRO13 => 0x29c,
            EV_KEY::KEY_MACRO14 => 0x29d,
            EV_KEY::KEY_MACRO15 => 0x29e,
            EV_KEY::KEY_MACRO16 => 0x29f,
            EV_KEY::KEY_MACRO17 => 0x2a0,
            EV_KEY::KEY_MACRO18 => 0x2a1,
            EV_KEY::KEY_MACRO19 => 0x2a2,
            EV_KEY::KEY_MACRO20 => 0x2a3,
            EV_KEY::KEY_MACRO21 => 0x2a4,
            EV_KEY::KEY_MACRO22 => 0x2a5,
            EV_KEY::KEY_MACRO23 => 0x2a6,
            EV_KEY::KEY_MACRO24 => 0x2a7,
            EV_KEY::KEY_MACRO25 => 0x2a8,
            EV_KEY::KEY_MACRO26 => 0x2a9,
            EV_KEY::KEY_MACRO27 => 0x2aa,
            EV_KEY::KEY_MACRO28 => 0x2ab,
            EV_KEY::KEY_MACRO29 => 0x2ac,
            EV_KEY::KEY_MACRO30 => 0x2ad,
            EV_KEY::KEY_MACRO_RECORD_START => 0x2b0,
            EV_KEY::KEY_MACRO_RECORD_STOP => 0x2b1,
            EV_KEY::KEY_MACRO_PRESET_CYCLE => 0x2b2,
            EV_KEY::KEY_MACRO_PRESET1 => 0x2b3,
            EV_KEY::KEY_MACRO_PRESET2 => 0x2b4,
            EV_KEY::KEY_MACRO_PRESET3 => 0x2b5,
            EV_KEY::KEY_KBD_LCD_MENU1 => 0x2b8,
            EV_KEY::KEY_KBD_LCD_MENU2 => 0x2b9,
            EV_KEY::KEY_KBD_LCD_MENU3 => 0x2ba,
            EV_KEY::KEY_KBD_LCD_MENU4 => 0x2bb,
            EV_KEY::KEY_KBD_LCD_MENU5 => 0x2bc,
            EV_KEY::BTN_TRIGGER_HAPPY1 => 0x2c0,
            EV_KEY::BTN_TRIGGER_HAPPY2 => 0x2c1,
            EV_KEY::BTN_TRIGGER_HAPPY3 => 0x2c2,
            EV_KEY::BTN_TRIGGER_HAPPY4 => 0x2c3,
            EV_KEY::BTN_TRIGGER_HAPPY5 => 0x2c4,
            EV_KEY::BTN_TRIGGER_HAPPY6 => 0x2c5,
            EV_KEY::BTN_TRIGGER_HAPPY7 => 0x2c6,
            EV_KEY::BTN_TRIGGER_HAPPY8 => 0x2c7,
            EV_KEY::BTN_TRIGGER_HAPPY9 => 0x2c8,
            EV_KEY::BTN_TRIGGER_HAPPY10 => 0x2c9,
            EV_KEY::BTN_TRIGGER_HAPPY11 => 0x2ca,
            EV_KEY::BTN_TRIGGER_HAPPY12 => 0x2cb,
            EV_KEY::BTN_TRIGGER_HAPPY13 => 0x2cc,
            EV_KEY::BTN_TRIGGER_HAPPY14 => 0x2cd,
            EV_KEY::BTN_TRIGGER_HAPPY15 => 0x2ce,
            EV_KEY::BTN_TRIGGER_HAPPY16 => 0x2cf,
            EV_KEY::BTN_TRIGGER_HAPPY17 => 0x2d0,
            EV_KEY::BTN_TRIGGER_HAPPY18 => 0x2d1,
            EV_KEY::BTN_TRIGGER_HAPPY19 => 0x2d2,
            EV_KEY::BTN_TRIGGER_HAPPY20 => 0x2d3,
            EV_KEY::BTN_TRIGGER_HAPPY21 => 0x2d4,
            EV_KEY::BTN_TRIGGER_HAPPY22 => 0x2d5,
            EV_KEY::BTN_TRIGGER_HAPPY23 => 0x2d6,
            EV_KEY::BTN_TRIGGER_HAPPY24 => 0x2d7,
            EV_KEY::BTN_TRIGGER_HAPPY25 => 0x2d8,
            EV_KEY::BTN_TRIGGER_HAPPY26 => 0x2d9,
            EV_KEY::BTN_TRIGGER_HAPPY27 => 0x2da,
            EV_KEY::BTN_TRIGGER_HAPPY28 => 0x2db,
            EV_KEY::BTN_TRIGGER_HAPPY29 => 0x2dc,
            EV_KEY::BTN_TRIGGER_HAPPY30 => 0x2dd,
            EV_KEY::BTN_TRIGGER_HAPPY31 => 0x2de,
            EV_KEY::BTN_TRIGGER_HAPPY32 => 0x2df,
            EV_KEY::BTN_TRIGGER_HAPPY33 => 0x2e0,
            EV_KEY::BTN_TRIGGER_HAPPY34 => 0x2e1,
            EV_KEY::BTN_TRIGGER_HAPPY35 => 0x2e2,
            EV_KEY::BTN_TRIGGER_HAPPY36 => 0x2e3,
            EV_KEY::BTN_TRIGGER_HAPPY37 => 0x2e4,
            EV_KEY::BTN_TRIGGER_HAPPY38 => 0x2e5,
            EV_KEY::BTN_TRIGGER_HAPPY39 => 0x2e6,
            EV_KEY::BTN_TRIGGER_HAPPY40 => 0x2e7,
            EV_KEY::KEY_MAX => 0x2ff,
        }
    }

    open spec fn named(n: u32) -> Option<Self> {
        if n < 0x100 {
            key_named_0xx(n)
        } else if n < 0x200 {
            key_named_1xx(n)
        } else {
            key_named_2xx(n)
        }
    }

    open spec fn last() -> Self {
        EV_KEY::KEY_MAX
    }

    fn to_int(&self) -> (n: u32) {
        proof {
            reveal(<EV_KEY as Numbered>::number);
        }
        match self {
            EV_KEY::KEY_RESERVED => 0,
            EV_KEY::KEY_ESC => 1,
            EV_KEY::KEY_1 => 2,
            EV_KEY::KEY_2 => 3,
            EV_KEY::KEY_3 => 4,
            EV_KEY::KEY_4 => 5,
            EV_KEY::KEY_5 => 6,
            EV_KEY::KEY_6 => 7,
            EV_KEY::KEY_7 => 8,
            EV_KEY::KEY_8 => 9,
            EV_KEY::KEY_9 => 10,
            EV_KEY::KEY_0 => 11,
            EV_KEY::KEY_MINUS => 12,
            EV_KEY::KEY_EQUAL => 13,
            EV_KEY::KEY_BACKSPACE => 14,
            EV_KEY::KEY_TAB => 15,
            EV_KEY::KEY_Q => 16,
            EV_KEY::KEY_W => 17,
            EV_KEY::KEY_E => 18,
            EV_KEY::KEY_R => 19,
            EV_KEY::KEY_T => 20,
            EV_KEY::KEY_Y => 21,
            EV_KEY::KEY_U => 22,
            EV_KEY::KEY_I => 23,
            EV_KEY::KEY_O => 24,
            EV_KEY::KEY_P => 25,
            EV_KEY::KEY_LEFTBRACE => 26,
            EV_KEY::KEY_RIGHTBRACE => 27,
            EV_KEY::KEY_ENTER => 28,
            EV_KEY::KEY_LEFTCTRL => 29,
            EV_KEY::KEY_A => 30,
            EV_KEY::KEY_S => 31,
            EV_KEY::KEY_D => 32,
            EV_KEY::KEY_F => 33,
            EV_KEY::KEY_G => 34,
            EV_KEY::KEY_H => 35,
            EV_KEY::KEY_J => 36,
            EV_KEY::KEY_K => 37,
            EV_KEY::KEY_L => 38,
            EV_KEY::KEY_SEMICOLON => 39,
            EV_KEY::KEY_APOSTROPHE => 40,
            EV_KEY::KEY_GRAVE => 41,
            EV_KEY::KEY_LEFTSHIFT => 42,
            EV_KEY::KEY_BACKSLASH => 43,
            EV_KEY::KEY_Z => 44,
            EV_KEY::KEY_X => 45,
            EV_KEY::KEY_C => 46,
            EV_KEY::KEY_V => 47,
            EV_KEY::KEY_B => 48,
            EV_KEY::KEY_N => 49,
            EV_KEY::KEY_M => 50,
            EV_KEY::KEY_COMMA => 51,
            EV_KEY::KEY_DOT => 52,
            EV_KEY::KEY_SLASH => 53,
            EV_KEY::KEY_RIGHTSHIFT => 54,
            EV_KEY::KEY_KPASTERISK => 55,
            EV_KEY::KEY_LEFTALT => 56,
            EV_KEY::KEY_SPACE => 57,
            EV_KEY::KEY_CAPSLOCK => 58,
            EV_KEY::KEY_F1 => 59,
            EV_KEY::KEY_F2 => 60,
            EV_KEY::KEY_F3 => 61,
            EV_KEY::KEY_F4 => 62,
            EV_KEY::KEY_F5 => 63,
            EV_KEY::KEY_F6 => 64,
            EV_KEY::KEY_F7 => 65,
            EV_KEY::KEY_F8 => 66,
            EV_KEY::KEY_F9 => 67,
            EV_KEY::KEY_F10 => 68,
            EV_KEY::KEY_NUMLOCK => 69,
            EV_KEY::KEY_SCROLLLOCK => 70,
            EV_KEY::KEY_KP7 => 71,
            EV_KEY::KEY_KP8 => 72,
            EV_KEY::KEY_KP9 => 73,
            EV_KEY::KEY_KPMINUS => 74,
            EV_KEY::KEY_KP4 => 75,
            EV_KEY::KEY_KP5 => 76,
            EV_KEY::KEY_KP6 => 77,
            EV_KEY::KEY_KPPLUS => 78,
            EV_KEY::KEY_KP1 => 79,
            EV_KEY::KEY_KP2 => 80,
            EV_KEY::KEY_KP3 => 81,
            EV_KEY::KEY_KP0 => 82,
            EV_KEY::KEY_KPDOT => 83,
            EV_KEY::KEY_ZENKAKUHANKAKU => 85,
            EV_KEY::KEY_102ND => 86,
            EV_KEY::KEY_F11 => 87,
            EV_KEY::KEY_F12 => 88,
            EV_KEY::KEY_RO => 89,
            EV_KEY::KEY_KATAKANA => 90,
            EV_KEY::KEY_HIRAGANA => 91,
            EV_KEY::KEY_HENKAN => 92,
            EV_KEY::KEY_KATAKANAHIRAGANA => 93,
            EV_KEY::KEY_MUHENKAN => 94,
            EV_KEY::KEY_KPJPCOMMA => 95,
            EV_KEY::KEY_KPENTER => 96,
            EV_KEY::KEY_RIGHTCTRL => 97,
            EV_KEY::KEY_KPSLASH => 98,
            EV_KEY::KEY_SYSRQ => 99,
            EV_KEY::KEY_RIGHTALT => 100,
            EV_KEY::KEY_LINEFEED => 101,
            EV_KEY::KEY_HOME => 102,
            EV_KEY::KEY_UP => 103,
            EV_KEY::KEY_PAGEUP => 104,
            EV_KEY::KEY_LEFT => 105,
            EV_KEY::KEY_RIGHT => 106,
            EV_KEY::KEY_END => 107,
            EV_KEY::KEY_DOWN => 108,
            EV_KEY::KEY_PAGEDOWN => 109,
            EV_KEY::KEY_INSERT => 110,
            EV_KEY::KEY_DELETE => 111,
            EV_KEY::KEY_MACRO => 112,
            EV_KEY::KEY_MUTE => 113,
            EV_KEY::KEY_VOLUMEDOWN => 114,
            EV_KEY::KEY_VOLUMEUP => 115,
            EV_KEY::KEY_POWER => 116,
            EV_KEY::KEY_KPEQUAL => 117,
            EV_KEY::KEY_KPPLUSMINUS => 118,
            EV_KEY::KEY_PAUSE => 119,
            EV_KEY::KEY_SCALE => 120,
            EV_KEY::KEY_KPCOMMA => 121,
            EV_KEY::KEY_HANGEUL => 122,
            EV_KEY::KEY_HANJA => 123,
            EV_KEY::KEY_YEN => 124,
            EV_KEY::KEY_LEFTMETA => 125,
            EV_KEY::KEY_RIGHTMETA => 126,
            EV_KEY::KEY_COMPOSE => 127,
            EV_KEY::KEY_STOP => 128,
            EV_KEY::KEY_AGAIN => 129,
            EV_KEY::KEY_PROPS => 130,
            EV_KEY::KEY_UNDO => 131,
            EV_KEY::KEY_FRONT => 132,
            EV_KEY::KEY_COPY => 133,
            EV_KEY::KEY_OPEN => 134,
            EV_KEY::KEY_PASTE => 135,
            EV_KEY::KEY_FIND => 136,
            EV_KEY::KEY_CUT => 137,
            EV_KEY::KEY_HELP => 138,
            EV_KEY::KEY_MENU => 139,
            EV_KEY::KEY_CALC => 140,
            EV_KEY::KEY_SETUP => 141,
            EV_KEY::KEY_SLEEP => 142,
            EV_KEY::KEY_WAKEUP => 143,
            EV_KEY::KEY_FILE => 144,
            EV_KEY::KEY_SENDFILE => 145,
            EV_KEY::KEY_DELETEFILE => 146,
            EV_KEY::KEY_XFER => 147,
            EV_KEY::KEY_PROG1 => 148,
            EV_KEY::KEY_PROG2 => 149,
            EV_KEY::KEY_WWW => 150,
            EV_KEY::KEY_MSDOS => 151,
            EV_KEY::KEY_COFFEE => 152,
            EV_KEY::KEY_ROTATE_DISPLAY => 153,
            EV_KEY::KEY_CYCLEWINDOWS => 154,
            EV_KEY::KEY_MAIL => 155,
            EV_KEY::KEY_BOOKMARKS => 156,
            EV_KEY::KEY_COMPUTER => 157,
            EV_KEY::KEY_BACK => 158,
            EV_KEY::KEY_FORWARD => 159,
            EV_KEY::KEY_CLOSECD => 160,
            EV_KEY::KEY_EJECTCD => 161,
            EV_KEY::KEY_EJECTCLOSECD => 162,
            EV_KEY::KEY_NEXTSONG => 163,
            EV_KEY::KEY_PLAYPAUSE => 164,
            EV_KEY::KEY_PREVIOUSSONG => 165,
            EV_KEY::KEY_STOPCD => 166,
            EV_KEY::KEY_RECORD => 167,
            EV_KEY::KEY_REWIND => 168,
            EV_KEY::KEY_PHONE => 169,
            EV_KEY::KEY_ISO => 170,
            EV_KEY::KEY_CONFIG => 171,
            EV_KEY::KEY_HOMEPAGE => 172,
            EV_KEY::KEY_REFRESH => 173,
            EV_KEY::KEY_EXIT => 174,
            EV_KEY::KEY_MOVE => 175,
            EV_KEY::KEY_EDIT => 176,
            EV_KEY::KEY_SCROLLUP => 177,
            EV_KEY::KEY_SCROLLDOWN => 178,
            EV_KEY::KEY_KPLEFTPAREN => 179,
            EV_KEY::KEY_KPRIGHTPAREN => 180,
            EV_KEY::KEY_NEW => 181,
            EV_KEY::KEY_REDO => 182,
            EV_KEY::KEY_F13 => 183,
            EV_KEY::KEY_F14 => 184,
            EV_KEY::KEY_F15 => 185,
            EV_KEY::KEY_F16 => 186,
            EV_KEY::KEY_F17 => 187,
            EV_KEY::KEY_F18 => 188,
            EV_KEY::KEY_F19 => 189,
            EV_KEY::KEY_F20 => 190,
            EV_KEY::KEY_F21 => 191,
            EV_KEY::KEY_F22 => 192,
            EV_KEY::KEY_F23 => 193,
            EV_KEY::KEY_F24 => 194,
            EV_KEY::KEY_PLAYCD => 200,
            EV_KEY::KEY_PAUSECD => 201,
            EV_KEY::KEY_PROG3 => 202,
            EV_KEY::KEY_PROG4 => 203,
            EV_KEY::KEY_ALL_APPLICATIONS => 204,
            EV_KEY::KEY_SUSPEND => 205,
            EV_KEY::KEY_CLOSE => 206,
            EV_KEY::KEY_PLAY => 207,
            EV_KEY::KEY_FASTFORWARD => 208,
            EV_KEY::KEY_BASSBOOST => 209,
            EV_KEY::KEY_PRINT => 210,
            EV_KEY::KEY_HP => 211,
            EV_KEY::KEY_CAMERA => 212,
            EV_KEY::KEY_SOUND => 213,
            EV_KEY::KEY_QUESTION => 214,
            EV_KEY::KEY_EMAIL => 215,
            EV_KEY::KEY_CHAT => 216,
            EV_KEY::KEY_SEARCH => 217,
            EV_KEY::KEY_CONNECT => 218,
            EV_KEY::KEY_FINANCE => 219,
            EV_KEY::KEY_SPORT => 220,
            EV_KEY::KEY_SHOP => 221,
            EV_KEY::KEY_ALTERASE => 222,
            EV_KEY::KEY_CANCEL => 223,
            EV_KEY::KEY_BRIGHTNESSDOWN => 224,
            EV_KEY::KEY_BRIGHTNESSUP => 225,
            EV_KEY::KEY_MEDIA => 226,
            EV_KEY::KEY_SWITCHVIDEOMODE => 227,
            EV_KEY::KEY_KBDILLUMTOGGLE => 228,
            EV_KEY::KEY_KBDILLUMDOWN => 229,
            EV_KEY::KEY_KBDILLUMUP => 230,
            EV_KEY::KEY_SEND => 231,
            EV_KEY::KEY_REPLY => 232,
            EV_KEY::KEY_FORWARDMAIL => 233,
            EV_KEY::KEY_SAVE => 234,
            EV_KEY::KEY_DOCUMENTS => 235,
            EV_KEY::KEY_BATTERY => 236,
            EV_KEY::KEY_BLUETOOTH => 237,
            EV_KEY::KEY_WLAN => 238,
            EV_KEY::KEY_UWB => 239,
            EV_KEY::KEY_UNKNOWN => 240,
            EV_KEY::KEY_VIDEO_NEXT => 241,
            EV_KEY::KEY_VIDEO_PREV => 242,
            EV_KEY::KEY_BRIGHTNESS_CYCLE => 243,
            EV_KEY::KEY_BRIGHTNESS_AUTO => 244,
            EV_KEY::KEY_DISPLAY_OFF => 245,
            EV_KEY::KEY_WWAN => 246,
            EV_KEY::KEY_RFKILL => 247,
            EV_KEY::KEY_MICMUTE => 248,
            EV_KEY::BTN_0 => 0x100,
            EV_KEY::BTN_1 => 0x101,
            EV_KEY::BTN_2 => 0x102,
            EV_KEY::BTN_3 => 0x103,
            EV_KEY::BTN_4 => 0x104,
            EV_KEY::BTN_5 => 0x105,
            EV_KEY::BTN_6 => 0x106,
            EV_KEY::BTN_7 => 0x107,
            EV_KEY::BTN_8 => 0x108,
            EV_KEY::BTN_9 => 0x109,
            EV_KEY::BTN_LEFT => 0x110,
            EV_KEY::BTN_RIGHT => 0x111,
            EV_KEY::BTN_MIDDLE => 0x112,
            EV_KEY::BTN_SIDE => 0x113,
            EV_KEY::BTN_EXTRA => 0x114,
            EV_KEY::BTN_FORWARD => 0x115,
            EV_KEY::BTN_BACK => 0x116,
            EV_KEY::BTN_TASK => 0x117,
            EV_KEY::BTN_TRIGGER => 0x120,
            EV_KEY::BTN_THUMB => 0x121,
            EV_KEY::BTN_THUMB2 => 0x122,
            EV_KEY::BTN_TOP => 0x123,
            EV_KEY::BTN_TOP2 => 0x124,
            EV_KEY::BTN_PINKIE => 0x125,
            EV_KEY::BTN_BASE => 0x126,
            EV_KEY::BTN_BASE2 => 0x127,
            EV_KEY::BTN_BASE3 => 0x128,
            EV_KEY::BTN_BASE4 => 0x129,
            EV_KEY::BTN_BASE5 => 0x12a,
            EV_KEY::BTN_BASE6 => 0x12b,
            EV_KEY::BTN_DEAD => 0x12f,
            EV_KEY::BTN_SOUTH => 0x130,
            EV_KEY::BTN_EAST => 0x131,
            EV_KEY::BTN_C => 0x132,
            EV_KEY::BTN_NORTH => 0x133,
            EV_KEY::BTN_WEST => 0x134,
            EV_KEY::BTN_Z => 0x135,
            EV_KEY::BTN_TL => 0x136,
            EV_KEY::BTN_TR => 0x137,
            EV_KEY::BTN_TL2 => 0x138,
            EV_KEY::BTN_TR2 => 0x139,
            EV_KEY::BTN_SELECT => 0x13a,
            EV_KEY::BTN_START => 0x13b,
            EV_KEY::BTN_MODE => 0x13c,
            EV_KEY::BTN_THUMBL => 0x13d,
            EV_KEY::BTN_THUMBR => 0x13e,
            EV_KEY::BTN_TOOL_PEN => 0x140,
            EV_KEY::BTN_TOOL_RUBBER => 0x141,
            EV_KEY::BTN_TOOL_BRUSH => 0x142,
            EV_KEY::BTN_TOOL_PENCIL => 0x143,
            EV_KEY::BTN_TOOL_AIRBRUSH => 0x144,
            EV_KEY::BTN_TOOL_FINGER => 0x145,
            EV_KEY::BTN_TOOL_MOUSE => 0x146,
            EV_KEY::BTN_TOOL_LENS => 0x147,
            EV_KEY::BTN_TOOL_QUINTTAP => 0x148,
            EV_KEY::BTN_STYLUS3 => 0x149,
            EV_KEY::BTN_TOUCH => 0x14a,
            EV_KEY::BTN_STYLUS => 0x14b,
            EV_KEY::BTN_STYLUS2 => 0x14c,
            EV_KEY::BTN_TOOL_DOUBLETAP => 0x14d,
            EV_KEY::BTN_TOOL_TRIPLETAP => 0x14e,
            EV_KEY::BTN_TOOL_QUADTAP => 0x14f,
            EV_KEY::BTN_GEAR_DOWN => 0x150,
            EV_KEY::BTN_GEAR_UP => 0x151,
            EV_KEY::KEY_OK => 0x160,
            EV_KEY::KEY_SELECT => 0x161,
            EV_KEY::KEY_GOTO => 0x162,
            EV_KEY::KEY_CLEAR => 0x163,
            EV_KEY::KEY_POWER2 => 0x164,
            EV_KEY::KEY_OPTION => 0x165,
            EV_KEY::KEY_INFO => 0x166,
            EV_KEY::KEY_TIME => 0x167,
            EV_KEY::KEY_VENDOR => 0x168,
            EV_KEY::KEY_ARCHIVE => 0x169,
            EV_KEY::KEY_PROGRAM => 0x16a,
            EV_KEY::KEY_CHANNEL => 0x16b,
            EV_KEY::KEY_FAVORITES => 0x16c,
            EV_KEY::KEY_EPG => 0x16d,
            EV_KEY::KEY_PVR => 0x16e,
            EV_KEY::KEY_MHP => 0x16f,
            EV_KEY::KEY_LANGUAGE => 0x170,
            EV_KEY::KEY_TITLE => 0x171,
            EV_KEY::KEY_SUBTITLE => 0x172,
            EV_KEY::KEY_ANGLE => 0x173,
            EV_KEY::KEY_FULL_SCREEN => 0x174,
            EV_KEY::KEY_MODE => 0x175,
            EV_KEY::KEY_KEYBOARD => 0x176,
            EV_KEY::KEY_ASPECT_RATIO => 0x177,
            EV_KEY::KEY_PC => 0x178,
            EV_KEY::KEY_TV => 0x179,
            EV_KEY::KEY_TV2 => 0x17a,
            EV_KEY::KEY_VCR => 0x17b,
            EV_KEY::KEY_VCR2 => 0x17c,
            EV_KEY::KEY_SAT => 0x17d,
            EV_KEY::KEY_SAT2 => 0x17e,
            EV_KEY::KEY_CD => 0x17f,
            EV_KEY::KEY_TAPE => 0x180,
            EV_KEY::KEY_RADIO => 0x181,
            EV_KEY::KEY_TUNER => 0x182,
            EV_KEY::KEY_PLAYER => 0x183,
            EV_KEY::KEY_TEXT => 0x184,
            EV_KEY::KEY_DVD => 0x185,
            EV_KEY::KEY_AUX => 0x186,
            EV_KEY::KEY_MP3 => 0x187,
            EV_KEY::KEY_AUDIO => 0x188,
            EV_KEY::KEY_VIDEO => 0x189,
            EV_KEY::KEY_DIRECTORY => 0x18a,
            EV_KEY::KEY_LIST => 0x18b,
            EV_KEY::KEY_MEMO => 0x18c,
            EV_KEY::KEY_CALENDAR => 0x18d,
            EV_KEY::KEY_RED => 0x18e,
            EV_KEY::KEY_GREEN => 0x18f,
            EV_KEY::KEY_YELLOW => 0x190,
            EV_KEY::KEY_BLUE => 0x191,
            EV_KEY::KEY_CHANNELUP => 0x192,
            EV_KEY::KEY_CHANNELDOWN => 0x193,
            EV_KEY::KEY_FIRST => 0x194,
            EV_KEY::KEY_LAST => 0x195,
            EV_KEY::KEY_AB => 0x196,
            EV_KEY::KEY_NEXT => 0x197,
            EV_KEY::KEY_RESTART => 0x198,
            EV_KEY::KEY_SLOW => 0x199,
            EV_KEY::KEY_SHUFFLE => 0x19a,
            EV_KEY::KEY_BREAK => 0x19b,
            EV_KEY::KEY_PREVIOUS => 0x19c,
            EV_KEY::KEY_DIGITS => 0x19d,
            EV_KEY::KEY_TEEN => 0x19e,
            EV_KEY::KEY_TWEN => 0x19f,
            EV_KEY::KEY_VIDEOPHONE => 0x1a0,
            EV_KEY::KEY_GAMES => 0x1a1,
            EV_KEY::KEY_ZOOMIN => 0x1a2,
            EV_KEY::KEY_ZOOMOUT => 0x1a3,
            EV_KEY::KEY_ZOOMRESET => 0x1a4,
            EV_KEY::KEY_WORDPROCESSOR => 0x1a5,
            EV_KEY::KEY_EDITOR => 0x1a6,
            EV_KEY::KEY_SPREADSHEET => 0x1a7,
            EV_KEY::KEY_GRAPHICSEDITOR => 0x1a8,
            EV_KEY::KEY_PRESENTATION => 0x1a9,
            EV_KEY::KEY_DATABASE => 0x1aa,
            EV_KEY::KEY_NEWS => 0x1ab,
            EV_KEY::KEY_VOICEMAIL => 0x1ac,
            EV_KEY::KEY_ADDRESSBOOK => 0x1ad,
            EV_KEY::KEY_MESSENGER => 0x1ae,
            EV_KEY::KEY_DISPLAYTOGGLE => 0x1af,
            EV_KEY::KEY_SPELLCHECK => 0x1b0,
            EV_KEY::KEY_LOGOFF => 0x1b1,
            EV_KEY::KEY_DOLLAR => 0x1b2,
            EV_KEY::KEY_EURO => 0x1b3,
            EV_KEY::KEY_FRAMEBACK => 0x1b4,
            EV_KEY::KEY_FRAMEFORWARD => 0x1b5,
            EV_KEY::KEY_CONTEXT_MENU => 0x1b6,
            EV_KEY::KEY_MEDIA_REPEAT => 0x1b7,
            EV_KEY::KEY_10CHANNELSUP => 0x1b8,
            EV_KEY::KEY_10CHANNELSDOWN => 0x1b9,
            EV_KEY::KEY_IMAGES => 0x1ba,
            EV_KEY::KEY_NOTIFICATION_CENTER => 0x1bc,
            EV_KEY::KEY_PICKUP_PHONE => 0x1bd,
            EV_KEY::KEY_HANGUP_PHONE => 0x1be,
            EV_KEY::KEY_LINK_PHONE => 0x1bf,
            EV_KEY::KEY_DEL_EOL => 0x1c0,
            EV_KEY::KEY_DEL_EOS => 0x1c1,
            EV_KEY::KEY_INS_LINE => 0x1c2,
            EV_KEY::KEY_DEL_LINE => 0x1c3,
            EV_KEY::KEY_FN => 0x1d0,
            EV_KEY::KEY_FN_ESC => 0x1d1,
            EV_KEY::KEY_FN_F1 => 0x1d2,
            EV_KEY::KEY_FN_F2 => 0x1d3,
            EV_KEY::KEY_FN_F3 => 0x1d4,
            EV_KEY::KEY_FN_F4 => 0x1d5,
            EV_KEY::KEY_FN_F5 => 0x1d6,
            EV_KEY::KEY_FN_F6 => 0x1d7,
            EV_KEY::KEY_FN_F7 => 0x1d8,
            EV_KEY::KEY_FN_F8 => 0x1d9,
            EV_KEY::KEY_FN_F9 => 0x1da,
            EV_KEY::KEY_FN_F10 => 0x1db,
            EV_KEY::KEY_FN_F11 => 0x1dc,
            EV_KEY::KEY_FN_F12 => 0x1dd,
            EV_KEY::KEY_FN_1 => 0x1de,
            EV_KEY::KEY_FN_2 => 0x1df,
            EV_KEY::KEY_FN_D => 0x1e0,
            EV_KEY::KEY_FN_E => 0x1e1,
            EV_KEY::KEY_FN_F => 0x1e2,
            EV_KEY::KEY_FN_S => 0x1e3,
            EV_KEY::KEY_FN_B => 0x1e4,
            EV_KEY::KEY_FN_RIGHT_SHIFT => 0x1e5,
            EV_KEY::KEY_BRL_DOT1 => 0x1f1,
            EV_KEY::KEY_BRL_DOT2 => 0x1f2,
            EV_KEY::KEY_BRL_DOT3 => 0x1f3,
            EV_KEY::KEY_BRL_DOT4 => 0x1f4,
            EV_KEY::KEY_BRL_DOT5 => 0x1f5,
            EV_KEY::KEY_BRL_DOT6 => 0x1f6,
            EV_KEY::KEY_BRL_DOT7 => 0x1f7,
            EV_KEY::KEY_BRL_DOT8 => 0x1f8,
            EV_KEY::KEY_BRL_DOT9 => 0x1f9,
            EV_KEY::KEY_BRL_DOT10 => 0x1fa,
            EV_KEY::KEY_NUMERIC_0 => 0x200,
            EV_KEY::KEY_NUMERIC_1 => 0x201,
            EV_KEY::KEY_NUMERIC_2 => 0x202,
            EV_KEY::KEY_NUMERIC_3 => 0x203,
            EV_KEY::KEY_NUMERIC_4 => 0x204,
            EV_KEY::KEY_NUMERIC_5 => 0x205,
            EV_KEY::KEY_NUMERIC_6 => 0x206,
            EV_KEY::KEY_NUMERIC_7 => 0x207,
            EV_KEY::KEY_NUMERIC_8 => 0x208,
            EV_KEY::KEY_NUMERIC_9 => 0x209,
            EV_KEY::KEY_NUMERIC_STAR => 0x20a,
            EV_KEY::KEY_NUMERIC_POUND => 0x20b,
            EV_KEY::KEY_NUMERIC_A => 0x20c,
            EV_KEY::KEY_NUMERIC_B => 0x20d,
            EV_KEY::KEY_NUMERIC_C => 0x20e,
            EV_KEY::KEY_NUMERIC_D => 0x20f,
            EV_KEY::KEY_CAMERA_FOCUS => 0x210,
            EV_KEY::KEY_WPS_BUTTON => 0x211,
            EV_KEY::KEY_TOUCHPAD_TOGGLE => 0x212,
            EV_KEY::KEY_TOUCHPAD_ON => 0x213,
            EV_KEY::KEY_TOUCHPAD_OFF => 0x214,
            EV_KEY::KEY_CAMERA_ZOOMIN => 0x215,
            EV_KEY::KEY_CAMERA_ZOOMOUT => 0x216,
            EV_KEY::KEY_CAMERA_UP => 0x217,
            EV_KEY::KEY_CAMERA_DOWN => 0x218,
            EV_KEY::KEY_CAMERA_LEFT => 0x219,
            EV_KEY::KEY_CAMERA_RIGHT => 0x21a,
            EV_KEY::KEY_ATTENDANT_ON => 0x21b,
            EV_KEY::KEY_ATTENDANT_OFF => 0x21c,
            EV_KEY::KEY_ATTENDANT_TOGGLE => 0x21d,
            EV_KEY::KEY_LIGHTS_TOGGLE => 0x21e,
            EV_KEY::BTN_DPAD_UP => 0x220,
            EV_KEY::BTN_DPAD_DOWN => 0x221,
            EV_KEY::BTN_DPAD_LEFT => 0x222,
            EV_KEY::BTN_DPAD_RIGHT => 0x223,
            EV_KEY::KEY_ALS_TOGGLE => 0x230,
            EV_KEY::KEY_ROTATE_LOCK_TOGGLE => 0x231,
            EV_KEY::KEY_REFRESH_RATE_TOGGLE => 0x232,
            EV_KEY::KEY_BUTTONCONFIG => 0x240,
            EV_KEY::KEY_TASKMANAGER => 0x241,
            EV_KEY::KEY_JOURNAL => 0x242,
            EV_KEY::KEY_CONTROLPANEL => 0x243,
            EV_KEY::KEY_APPSELECT => 0x244,
            EV_KEY::KEY_SCREENSAVER => 0x245,
            EV_KEY::KEY_VOICECOMMAND => 0x246,
            EV_KEY::KEY_ASSISTANT => 0x247,
            EV_KEY::KEY_KBD_LAYOUT_NEXT => 0x248,
            EV_KEY::KEY_EMOJI_PICKER => 0x249,
            EV_KEY::KEY_DICTATE => 0x24a,
            EV_KEY::KEY_BRIGHTNESS_MIN => 0x250,
            EV_KEY::KEY_BRIGHTNESS_MAX => 0x251,
            EV_KEY::KEY_KBDINPUTASSIST_PREV => 0x260,
            EV_KEY::KEY_KBDINPUTASSIST_NEXT => 0x261,
            EV_KEY::KEY_KBDINPUTASSIST_PREVGROUP => 0x262,
            EV_KEY::KEY_KBDINPUTASSIST_NEXTGROUP => 0x263,
            EV_KEY::KEY_KBDINPUTASSIST_ACCEPT => 0x264,
            EV_KEY::KEY_KBDINPUTASSIST_CANCEL => 0x265,
            EV_KEY::KEY_RIGHT_UP => 0x266,
            EV_KEY::KEY_RIGHT_DOWN => 0x267,
            EV_KEY::KEY_LEFT_UP => 0x268,
            EV_KEY::KEY_LEFT_DOWN => 0x269,
            EV_KEY::KEY_ROOT_MENU => 0x26a,
            EV_KEY::KEY_MEDIA_TOP_MENU => 0x26b,
            EV_KEY::KEY_NUMERIC_11 => 0x26c,
            EV_KEY::KEY_NUMERIC_12 => 0x26d,
            EV_KEY::KEY_AUDIO_DESC => 0x26e,
            EV_KEY::KEY_3D_MODE => 0x26f,
            EV_KEY::KEY_NEXT_FAVORITE => 0x270,
            EV_KEY::KEY_STOP_RECORD => 0x271,
            EV_KEY::KEY_PAUSE_RECORD => 0x272,
            EV_KEY::KEY_VOD => 0x273,
            EV_KEY::KEY_UNMUTE => 0x274,
            EV_KEY::KEY_FASTREVERSE => 0x275,
            EV_KEY::KEY_SLOWREVERSE => 0x276,
            EV_KEY::KEY_DATA => 0x277,
            EV_KEY::KEY_ONSCREEN_KEYBOARD => 0x278,
            EV_KEY::KEY_PRIVACY_SCREEN_TOGGLE => 0x279,
            EV_KEY::KEY_SELECTIVE_SCREENSHOT => 0x27a,
            EV_KEY::KEY_NEXT_ELEMENT => 0x27b,
            EV_KEY::KEY_PREVIOUS_ELEMENT => 0x27c,
            EV_KEY::KEY_AUTOPILOT_ENGAGE_TOGGLE => 0x27d,
            EV_KEY::KEY_MARK_WAYPOINT => 0x27e,
            EV_KEY::KEY_SOS => 0x27f,
            EV_KEY::KEY_NAV_CHART => 0x280,
            EV_KEY::KEY_FISHING_CHART => 0x281,
            EV_KEY::KEY_SINGLE_RANGE_RADAR => 0x282,
            EV_KEY::KEY_DUAL_RANGE_RADAR => 0x283,
            EV_KEY::KEY_RADAR_OVERLAY => 0x284,
            EV_KEY::KEY_TRADITIONAL_SONAR => 0x285,
            EV_KEY::KEY_CLEARVU_SONAR => 0x286,
            EV_KEY::KEY_SIDEVU_SONAR => 0x287,
            EV_KEY::KEY_NAV_INFO => 0x288,
            EV_KEY::KEY_BRIGHTNESS_MENU => 0x289,
            EV_KEY::KEY_MACRO1 => 0x290,
            EV_KEY::KEY_MACRO2 => 0x291,
            EV_KEY::KEY_MACRO3 => 0x292,
            EV_KEY::KEY_MACRO4 => 0x293,
            EV_KEY::KEY_MACRO5 => 0x294,
            EV_KEY::KEY_MACRO6 => 0x295,
            EV_KEY::KEY_MACRO7 => 0x296,
            EV_KEY::KEY_MACRO8 => 0x297,
            EV_KEY::KEY_MACRO9 => 0x298,
            EV_KEY::KEY_MACRO10 => 0x299,
            EV_KEY::KEY_MACRO11 => 0x29a,
            EV_KEY::KEY_MACRO12 => 0x29b,
            EV_KEY::KEY_MACRO13 => 0x29c,
            EV_KEY::KEY_MACRO14 => 0x29d,
            EV_KEY::KEY_MACRO15 => 0x29e,
            EV_KEY::KEY_MACRO16 => 0x29f,
            EV_KEY::KEY_MACRO17 => 0x2a0,
            EV_KEY::KEY_MACRO18 => 0x2a1,
            EV_KEY::KEY_MACRO19 => 0x2a2,
            EV_KEY::KEY_MACRO20 => 0x2a3,
            EV_KEY::KEY_MACRO21 => 0x2a4,
            EV_KEY::KEY_MACRO22 => 0x2a5,
            EV_KEY::KEY_MACRO23 => 0x2a6,
            EV_KEY::KEY_MACRO24 => 0x2a7,
            EV_KEY::KEY_MACRO25 => 0x2a8,
            EV_KEY::KEY_MACRO26 => 0x2a9,
            EV_KEY::KEY_MACRO27 => 0x2aa,
            EV_KEY::KEY_MACRO28 => 0x2ab,
            EV_KEY::KEY_MACRO29 => 0x2ac,
            EV_KEY::KEY_MACRO30 => 0x2ad,
            EV_KEY::KEY_MACRO_RECORD_START => 0x2b0,
            EV_KEY::KEY_MACRO_RECORD_STOP => 0x2b1,
            EV_KEY::KEY_MACRO_PRESET_CYCLE => 0x2b2,
            EV_KEY::KEY_MACRO_PRESET1 => 0x2b3,
            EV_KEY::KEY_MACRO_PRESET2 => 0x2b4,
            EV_KEY::KEY_MACRO_PRESET3 => 0x2b5,
            EV_KEY::KEY_KBD_LCD_MENU1 => 0x2b8,
            EV_KEY::KEY_KBD_LCD_MENU2 => 0x2b9,
            EV_KEY::KEY_KBD_LCD_MENU3 => 0x2ba,
            EV_KEY::KEY_KBD_LCD_MENU4 => 0x2bb,
            EV_KEY::KEY_KBD_LCD_MENU5 => 0x2bc,
            EV_KEY::BTN_TRIGGER_HAPPY1 => 0x2c0,
            EV_KEY::BTN_TRIGGER_HAPPY2 => 0x2c1,
            EV_KEY::BTN_TRIGGER_HAPPY3 => 0x2c2,
            EV_KEY::BTN_TRIGGER_HAPPY4 => 0x2c3,
            EV_KEY::BTN_TRIGGER_HAPPY5 => 0x2c4,
            EV_KEY::BTN_TRIGGER_HAPPY6 => 0x2c5,
            EV_KEY::BTN_TRIGGER_HAPPY7 => 0x2c6,
            EV_KEY::BTN_TRIGGER_HAPPY8 => 0x2c7,
            EV_KEY::BTN_TRIGGER_HAPPY9 => 0x2c8,
            EV_KEY::BTN_TRIGGER_HAPPY10 => 0x2c9,
            EV_KEY::BTN_TRIGGER_HAPPY11 => 0x2ca,
            EV_KEY::BTN_TRIGGER_HAPPY12 => 0x2cb,
            EV_KEY::BTN_TRIGGER_HAPPY13 => 0x2cc,
            EV_KEY::BTN_TRIGGER_HAPPY14 => 0x2cd,
            EV_KEY::BTN_TRIGGER_HAPPY15 => 0x2ce,
            EV_KEY::BTN_TRIGGER_HAPPY16 => 0x2cf,
            EV_KEY::BTN_TRIGGER_HAPPY17 => 0x2d0,
            EV_KEY::BTN_TRIGGER_HAPPY18 => 0x2d1,
            EV_KEY::BTN_TRIGGER_HAPPY19 => 0x2d2,
            EV_KEY::BTN_TRIGGER_HAPPY20 => 0x2d3,
            EV_KEY::BTN_TRIGGER_HAPPY21 => 0x2d4,
            EV_KEY::BTN_TRIGGER_HAPPY22 => 0x2d5,
            EV_KEY::BTN_TRIGGER_HAPPY23 => 0x2d6,
            EV_KEY::BTN_TRIGGER_HAPPY24 => 0x2d7,
            EV_KEY::BTN_TRIGGER_HAPPY25 => 0x2d8,
            EV_KEY::BTN_TRIGGER_HAPPY26 => 0x2d9,
            EV_KEY::BTN_TRIGGER_HAPPY27 => 0x2da,
            EV_KEY::BTN_TRIGGER_HAPPY28 => 0x2db,
            EV_KEY::BTN_TRIGGER_HAPPY29 => 0x2dc,
            EV_KEY::BTN_TRIGGER_HAPPY30 => 0x2dd,
            EV_KEY::BTN_TRIGGER_HAPPY31 => 0x2de,
            EV_KEY::BTN_TRIGGER_HAPPY32 => 0x2df,
            EV_KEY::BTN_TRIGGER_HAPPY33 => 0x2e0,
            EV_KEY::BTN_TRIGGER_HAPPY34 => 0x2e1,
            EV_KEY::BTN_TRIGGER_HAPPY35 => 0x2e2,
            EV_KEY::BTN_TRIGGER_HAPPY36 => 0x2e3,
            EV_KEY::BTN_TRIGGER_HAPPY37 => 0x2e4,
            EV_KEY::BTN_TRIGGER_HAPPY38 => 0x2e5,
            EV_KEY::BTN_TRIGGER_HAPPY39 => 0x2e6,
            EV_KEY::BTN_TRIGGER_HAPPY40 => 0x2e7,
            EV_KEY::KEY_MAX => 0x2ff,
        }
    }

    fn from_int(n: u32) -> (r: Option<Self>) {
        int_to_ev_key(n)
    }

    fn is_last(&self) -> (b: bool) {
        *self == EV_KEY::KEY_MAX
    }

    /// The proof takes the keys one by one.
    proof fn lemma_found_again(x: Self) {
        reveal(<EV_KEY as Numbered>::number);
        match x {
            EV_KEY::KEY_RESERVED => {},
            EV_KEY::KEY_ESC => {},
            EV_KEY::KEY_1 => {},
            EV_KEY::KEY_2 => {},
            EV_KEY::KEY_3 => {},
            EV_KEY::KEY_4 => {},
            EV_KEY::KEY_5 => {},
            EV_KEY::KEY_6 => {},
            EV_KEY::KEY_7 => {},
            EV_KEY::KEY_8 => {},
            EV_KEY::KEY_9 => {},
            EV_KEY::KEY_0 => {},
            EV_KEY::KEY_MINUS => {},
            EV_KEY::KEY_EQUAL => {},
            EV_KEY::KEY_BACKSPACE => {},
            EV_KEY::KEY_TAB => {},
            EV_KEY::KEY_Q => {},
            EV_KEY::KEY_W => {},
            EV_KEY::KEY_E => {},
            EV_KEY::KEY_R => {},
            EV_KEY::KEY_T => {},
            EV_KEY::KEY_Y => {},
            EV_KEY::KEY_U => {},
            EV_KEY::KEY_I => {},
            EV_KEY::KEY_O => {},
            EV_KEY::KEY_P => {},
            EV_KEY::KEY_LEFTBRACE => {},
            EV_KEY::KEY_RIGHTBRACE => {},
            EV_KEY::KEY_ENTER => {},
            EV_KEY::KEY_LEFTCTRL => {},
            EV_KEY::KEY_A => {},
            EV_KEY::KEY_S => {},
            EV_KEY::KEY_D => {},
            EV_KEY::KEY_F => {},
            EV_KEY::KEY_G => {},
            EV_KEY::KEY_H => {},
            EV_KEY::KEY_J => {},
            EV_KEY::KEY_K => {},
            EV_KEY::KEY_L => {},
            EV_KEY::KEY_SEMICOLON => {},
            EV_KEY::KEY_APOSTROPHE => {},
            EV_KEY::KEY_GRAVE => {},
            EV_KEY::KEY_LEFTSHIFT => {},
            EV_KEY::KEY_BACKSLASH => {},
            EV_KEY::KEY_Z => {},
            EV_KEY::KEY_X => {},
            EV_KEY::KEY_C => {},
            EV_KEY::KEY_V => {},
            EV_KEY::KEY_B => {},
            EV_KEY::KEY_N => {},
            EV_KEY::KEY_M => {},
            EV_KEY::KEY_COMMA => {},
            EV_KEY::KEY_DOT => {},
            EV_KEY::KEY_SLASH => {},
            EV_KEY::KEY_RIGHTSHIFT => {},
            EV_KEY::KEY_KPASTERISK => {},
            EV_KEY::KEY_LEFTALT => {},
            EV_KEY::KEY_SPACE => {},
            EV_KEY::KEY_CAPSLOCK => {},
            EV_KEY::KEY_F1 => {},
            EV_KEY::KEY_F2 => {},
            EV_KEY::KEY_F3 => {},
            EV_KEY::KEY_F4 => {},
            EV_KEY::KEY_F5 => {},
            EV_KEY::KEY_F6 => {},
            EV_KEY::KEY_F7 => {},
            EV_KEY::KEY_F8 => {},
            EV_KEY::KEY_F9 => {},
            EV_KEY::KEY_F10 => {},
            EV_KEY::KEY_NUMLOCK => {},
            EV_KEY::KEY_SCROLLLOCK => {},
            EV_KEY::KEY_KP7 => {},
            EV_KEY::KEY_KP8 => {},
            EV_KEY::KEY_KP9 => {},
            EV_KEY::KEY_KPMINUS => {},
            EV_KEY::KEY_KP4 => {},
            EV_KEY::KEY_KP5 => {},
            EV_KEY::KEY_KP6 => {},
            EV_KEY::KEY_KPPLUS => {},
            EV_KEY::KEY_KP1 => {},
            EV_KEY::KEY_KP2 => {},
            EV_KEY::KEY_KP3 => {},
            EV_KEY::KEY_KP0 => {},
            EV_KEY::KEY_KPDOT => {},
            EV_KEY::KEY_ZENKAKUHANKAKU => {},
            EV_KEY::KEY_102ND => {},
            EV_KEY::KEY_F11 => {},
            EV_KEY::KEY_F12 => {},
            EV_KEY::KEY_RO => {},
            EV_KEY::KEY_KATAKANA => {},
            EV_KEY::KEY_HIRAGANA => {},
            EV_KEY::KEY_HENKAN => {},
            EV_KEY::KEY_KATAKANAHIRAGANA => {},
            EV_KEY::KEY_MUHENKAN => {},
            EV_KEY::KEY_KPJPCOMMA => {},
            EV_KEY::KEY_KPENTER => {},
            EV_KEY::KEY_RIGHTCTRL => {},
            EV_KEY::KEY_KPSLASH => {},
            EV_KEY::KEY_SYSRQ => {},
            EV_KEY::KEY_RIGHTALT => {},
            EV_KEY::KEY_LINEFEED => {},
            EV_KEY::KEY_HOME => {},
            EV_KEY::KEY_UP => {},
            EV_KEY::KEY_PAGEUP => {},
            EV_KEY::KEY_LEFT => {},
            EV_KEY::KEY_RIGHT => {},
            EV_KEY::KEY_END => {},
            EV_KEY::KEY_DOWN => {},
            EV_KEY::KEY_PAGEDOWN => {},
            EV_KEY::KEY_INSERT => {},
            EV_KEY::KEY_DELETE => {},
            EV_KEY::KEY_MACRO => {},
            EV_KEY::KEY_MUTE => {},
            EV_KEY::KEY_VOLUMEDOWN => {},
            EV_KEY::KEY_VOLUMEUP => {},
            EV_KEY::KEY_POWER => {},
            EV_KEY::KEY_KPEQUAL => {},
            EV_KEY::KEY_KPPLUSMINUS => {},
            EV_KEY::KEY_PAUSE => {},
            EV_KEY::KEY_SCALE => {},
            EV_KEY::KEY_KPCOMMA => {},
            EV_KEY::KEY_HANGEUL => {},
            EV_KEY::KEY_HANJA => {},
            EV_KEY::KEY_YEN => {},
            EV_KEY::KEY_LEFTMETA => {},
            EV_KEY::KEY_RIGHTMETA => {},
            EV_KEY::KEY_COMPOSE => {},
            EV_KEY::KEY_STOP => {},
            EV_KEY::KEY_AGAIN => {},
            EV_KEY::KEY_PROPS => {},
            EV_KEY::KEY_UNDO => {},
            EV_KEY::KEY_FRONT => {},
            EV_KEY::KEY_COPY => {},
            EV_KEY::KEY_OPEN => {},
            EV_KEY::KEY_PASTE => {},
            EV_KEY::KEY_FIND => {},
            EV_KEY::KEY_CUT => {},
            EV_KEY::KEY_HELP => {},
            EV_KEY::KEY_MENU => {},
            EV_KEY::KEY_CALC => {},
            EV_KEY::KEY_SETUP => {},
            EV_KEY::KEY_SLEEP => {},
            EV_KEY::KEY_WAKEUP => {},
            EV_KEY::KEY_FILE => {},
            EV_KEY::KEY_SENDFILE => {},
            EV_KEY::KEY_DELETEFILE => {},
            EV_KEY::KEY_XFER => {},
            EV_KEY::KEY_PROG1 => {},
            EV_KEY::KEY_PROG2 => {},
            EV_KEY::KEY_WWW => {},
            EV_KEY::KEY_MSDOS => {},
            EV_KEY::KEY_COFFEE => {},
            EV_KEY::KEY_ROTATE_DISPLAY => {},
            EV_KEY::KEY_CYCLEWINDOWS => {},
            EV_KEY::KEY_MAIL => {},
            EV_KEY::KEY_BOOKMARKS => {},
            EV_KEY::KEY_COMPUTER => {},
            EV_KEY::KEY_BACK => {},
            EV_KEY::KEY_FORWARD => {},
            EV_KEY::KEY_CLOSECD => {},
            EV_KEY::KEY_EJECTCD => {},
            EV_KEY::KEY_EJECTCLOSECD => {},
            EV_KEY::KEY_NEXTSONG => {},
            EV_KEY::KEY_PLAYPAUSE => {},
            EV_KEY::KEY_PREVIOUSSONG => {},
            EV_KEY::KEY_STOPCD => {},
            EV_KEY::KEY_RECORD => {},
            EV_KEY::KEY_REWIND => {},
            EV_KEY::KEY_PHONE => {},
            EV_KEY::KEY_ISO => {},
            EV_KEY::KEY_CONFIG => {},
            EV_KEY::KEY_HOMEPAGE => {},
            EV_KEY::KEY_REFRESH => {},
            EV_KEY::KEY_EXIT => {},
            EV_KEY::KEY_MOVE => {},
            EV_KEY::KEY_EDIT => {},
            EV_KEY::KEY_SCROLLUP => {},
            EV_KEY::KEY_SCROLLDOWN => {},
            EV_KEY::KEY_KPLEFTPAREN => {},
            EV_KEY::KEY_KPRIGHTPAREN => {},
            EV_KEY::KEY_NEW => {},
            EV_KEY::KEY_REDO => {},
            EV_KEY::KEY_F13 => {},
            EV_KEY::KEY_F14 => {},
            EV_KEY::KEY_F15 => {},
            EV_KEY::KEY_F16 => {},
            EV_KEY::KEY_F17 => {},
            EV_KEY::KEY_F18 => {},
            EV_KEY::KEY_F19 => {},
            EV_KEY::KEY_F20 => {},
            EV_KEY::KEY_F21 => {},
            EV_KEY::KEY_F22 => {},
            EV_KEY::KEY_F23 => {},
            EV_KEY::KEY_F24 => {},
            EV_KEY::KEY_PLAYCD => {},
            EV_KEY::KEY_PAUSECD => {},
            EV_KEY::KEY_PROG3 => {},
            EV_KEY::KEY_PROG4 => {},
            EV_KEY::KEY_ALL_APPLICATIONS => {},
            EV_KEY::KEY_SUSPEND => {},
            EV_KEY::KEY_CLOSE => {},
            EV_KEY::KEY_PLAY => {},
            EV_KEY::KEY_FASTFORWARD => {},
            EV_KEY::KEY_BASSBOOST => {},
            EV_KEY::KEY_PRINT => {},
            EV_KEY::KEY_HP => {},
            EV_KEY::KEY_CAMERA => {},
            EV_KEY::KEY_SOUND => {},
            EV_KEY::KEY_QUESTION => {},
            EV_KEY::KEY_EMAIL => {},
            EV_KEY::KEY_CHAT => {},
            EV_KEY::KEY_SEARCH => {},
            EV_KEY::KEY_CONNECT => {},
            EV_KEY::KEY_FINANCE => {},
            EV_KEY::KEY_SPORT => {},
            EV_KEY::KEY_SHOP => {},
            EV_KEY::KEY_ALTERASE => {},
            EV_KEY::KEY_CANCEL => {},
            EV_KEY::KEY_BRIGHTNESSDOWN => {},
            EV_KEY::KEY_BRIGHTNESSUP => {},
            EV_KEY::KEY_MEDIA => {},
            EV_KEY::KEY_SWITCHVIDEOMODE => {},
            EV_KEY::KEY_KBDILLUMTOGGLE => {},
            EV_KEY::KEY_KBDILLUMDOWN => {},
            EV_KEY::KEY_KBDILLUMUP => {},
            EV_KEY::KEY_SEND => {},
            EV_KEY::KEY_REPLY => {},
            EV_KEY::KEY_FORWARDMAIL => {},
            EV_KEY::KEY_SAVE => {},
            EV_KEY::KEY_DOCUMENTS => {},
            EV_KEY::KEY_BATTERY => {},
            EV_KEY::KEY_BLUETOOTH => {},
            EV_KEY::KEY_WLAN => {},
            EV_KEY::KEY_UWB => {},
            EV_KEY::KEY_UNKNOWN => {},
            EV_KEY::KEY_VIDEO_NEXT => {},
            EV_KEY::KEY_VIDEO_PREV => {},
            EV_KEY::KEY_BRIGHTNESS_CYCLE => {},
            EV_KEY::KEY_BRIGHTNESS_AUTO => {},
            EV_KEY::KEY_DISPLAY_OFF => {},
            EV_KEY::KEY_WWAN => {},
            EV_KEY::KEY_RFKILL => {},
            EV_KEY::KEY_MICMUTE => {},
            EV_KEY::BTN_0 => {},
            EV_KEY::BTN_1 => {},
            EV_KEY::BTN_2 => {},
            EV_KEY::BTN_3 => {},
            EV_KEY::BTN_4 => {},
            EV_KEY::BTN_5 => {},
            EV_KEY::BTN_6 => {},
            EV_KEY::BTN_7 => {},
            EV_KEY::BTN_8 => {},
            EV_KEY::BTN_9 => {},
            EV_KEY::BTN_LEFT => {},
            EV_KEY::BTN_RIGHT => {},
            EV_KEY::BTN_MIDDLE => {},
            EV_KEY::BTN_SIDE => {},
            EV_KEY::BTN_EXTRA => {},
            EV_KEY::BTN_FORWARD => {},
            EV_KEY::BTN_BACK => {},
            EV_KEY::BTN_TASK => {},
            EV_KEY::BTN_TRIGGER => {},
            EV_KEY::BTN_THUMB => {},
            EV_KEY::BTN_THUMB2 => {},
            EV_KEY::BTN_TOP => {},
            EV_KEY::BTN_TOP2 => {},
            EV_KEY::BTN_PINKIE => {},
            EV_KEY::BTN_BASE => {},
            EV_KEY::BTN_BASE2 => {},
            EV_KEY::BTN_BASE3 => {},
            EV_KEY::BTN_BASE4 => {},
            EV_KEY::BTN_BASE5 => {},
            EV_KEY::BTN_BASE6 => {},
            EV_KEY::BTN_DEAD => {},
            EV_KEY::BTN_SOUTH => {},
            EV_KEY::BTN_EAST => {},
            EV_KEY::BTN_C => {},
            EV_KEY::BTN_NORTH => {},
            EV_KEY::BTN_WEST => {},
            EV_KEY::BTN_Z => {},
            EV_KEY::BTN_TL => {},
            EV_KEY::BTN_TR => {},
            EV_KEY::BTN_TL2 => {},
            EV_KEY::BTN_TR2 => {},
            EV_KEY::BTN_SELECT => {},
            EV_KEY::BTN_START => {},
            EV_KEY::BTN_MODE => {},
            EV_KEY::BTN_THUMBL => {},
            EV_KEY::BTN_THUMBR => {},
            EV_KEY::BTN_TOOL_PEN => {},
            EV_KEY::BTN_TOOL_RUBBER => {},
            EV_KEY::BTN_TOOL_BRUSH => {},
            EV_KEY::BTN_TOOL_PENCIL => {},
            EV_KEY::BTN_TOOL_AIRBRUSH => {},
            EV_KEY::BTN_TOOL_FINGER => {},
            EV_KEY::BTN_TOOL_MOUSE => {},
            EV_KEY::BTN_TOOL_LENS => {},
            EV_KEY::BTN_TOOL_QUINTTAP => {},
            EV_KEY::BTN_STYLUS3 => {},
            EV_KEY::BTN_TOUCH => {},
            EV_KEY::BTN_STYLUS => {},
            EV_KEY::BTN_STYLUS2 => {},
            EV_KEY::BTN_TOOL_DOUBLETAP => {},
            EV_KEY::BTN_TOOL_TRIPLETAP => {},
            EV_KEY::BTN_TOOL_QUADTAP => {},
            EV_KEY::BTN_GEAR_DOWN => {},
            EV_KEY::BTN_GEAR_UP => {},
            EV_KEY::KEY_OK => {},
            EV_KEY::KEY_SELECT => {},
            EV_KEY::KEY_GOTO => {},
            EV_KEY::KEY_CLEAR => {},
            EV_KEY::KEY_POWER2 => {},
            EV_KEY::KEY_OPTION => {},
            EV_KEY::KEY_INFO => {},
            EV_KEY::KEY_TIME => {},
            EV_KEY::KEY_VENDOR => {},
            EV_KEY::KEY_ARCHIVE => {},
            EV_KEY::KEY_PROGRAM => {},
            EV_KEY::KEY_CHANNEL => {},
            EV_KEY::KEY_FAVORITES => {},
            EV_KEY::KEY_EPG => {},
            EV_KEY::KEY_PVR => {},
            EV_KEY::KEY_MHP => {},
            EV_KEY::KEY_LANGUAGE => {},
            EV_KEY::KEY_TITLE => {},
            EV_KEY::KEY_SUBTITLE => {},
            EV_KEY::KEY_ANGLE => {},
            EV_KEY::KEY_FULL_SCREEN => {},
            EV_KEY::KEY_MODE => {},
            EV_KEY::KEY_KEYBOARD => {},
            EV_KEY::KEY_ASPECT_RATIO => {},
            EV_KEY::KEY_PC => {},
            EV_KEY::KEY_TV => {},
            EV_KEY::KEY_TV2 => {},
            EV_KEY::KEY_VCR => {},
            EV_KEY::KEY_VCR2 => {},
            EV_KEY::KEY_SAT => {},
            EV_KEY::KEY_SAT2 => {},
            EV_KEY::KEY_CD => {},
            EV_KEY::KEY_TAPE => {},
            EV_KEY::KEY_RADIO => {},
            EV_KEY::KEY_TUNER => {},
            EV_KEY::KEY_PLAYER => {},
            EV_KEY::KEY_TEXT => {},
            EV_KEY::KEY_DVD => {},
            EV_KEY::KEY_AUX => {},
            EV_KEY::KEY_MP3 => {},
            EV_KEY::KEY_AUDIO => {},
            EV_KEY::KEY_VIDEO => {},
            EV_KEY::KEY_DIRECTORY => {},
            EV_KEY::KEY_LIST => {},
            EV_KEY::KEY_MEMO => {},
            EV_KEY::KEY_CALENDAR => {},
            EV_KEY::KEY_RED => {},
            EV_KEY::KEY_GREEN => {},
            EV_KEY::KEY_YELLOW => {},
            EV_KEY::KEY_BLUE => {},
            EV_KEY::KEY_CHANNELUP => {},
            EV_KEY::KEY_CHANNELDOWN => {},
            EV_KEY::KEY_FIRST => {},
            EV_KEY::KEY_LAST => {},
            EV_KEY::KEY_AB => {},
            EV_KEY::KEY_NEXT => {},
            EV_KEY::KEY_RESTART => {},
            EV_KEY::KEY_SLOW => {},
            EV_KEY::KEY_SHUFFLE => {},
            EV_KEY::KEY_BREAK => {},
            EV_KEY::KEY_PREVIOUS => {},
            EV_KEY::KEY_DIGITS => {},
            EV_KEY::KEY_TEEN => {},
            EV_KEY::KEY_TWEN => {},
            EV_KEY::KEY_VIDEOPHONE => {},
            EV_KEY::KEY_GAMES => {},
            EV_KEY::KEY_ZOOMIN => {},
            EV_KEY::KEY_ZOOMOUT => {},
            EV_KEY::KEY_ZOOMRESET => {},
            EV_KEY::KEY_WORDPROCESSOR => {},
            EV_KEY::KEY_EDITOR => {},
            EV_KEY::KEY_SPREADSHEET => {},
            EV_KEY::KEY_GRAPHICSEDITOR => {},
            EV_KEY::KEY_PRESENTATION => {},
            EV_KEY::KEY_DATABASE => {},
            EV_KEY::KEY_NEWS => {},
            EV_KEY::KEY_VOICEMAIL => {},
            EV_KEY::KEY_ADDRESSBOOK => {},
            EV_KEY::KEY_MESSENGER => {},
            EV_KEY::KEY_DISPLAYTOGGLE => {},
            EV_KEY::KEY_SPELLCHECK => {},
            EV_KEY::KEY_LOGOFF => {},
            EV_KEY::KEY_DOLLAR => {},
            EV_KEY::KEY_EURO => {},
            EV_KEY::KEY_FRAMEBACK => {},
            EV_KEY::KEY_FRAMEFORWARD => {},
            EV_KEY::KEY_CONTEXT_MENU => {},
            EV_KEY::KEY_MEDIA_REPEAT => {},
            EV_KEY::KEY_10CHANNELSUP => {},
            EV_KEY::KEY_10CHANNELSDOWN => {},
            EV_KEY::KEY_IMAGES => {},
            EV_KEY::KEY_NOTIFICATION_CENTER => {},
            EV_KEY::KEY_PICKUP_PHONE => {},
            EV_KEY::KEY_HANGUP_PHONE => {},
            EV_KEY::KEY_LINK_PHONE => {},
            EV_KEY::KEY_DEL_EOL => {},
            EV_KEY::KEY_DEL_EOS => {},
            EV_KEY::KEY_INS_LINE => {},
            EV_KEY::KEY_DEL_LINE => {},
            EV_KEY::KEY_FN => {},
            EV_KEY::KEY_FN_ESC => {},
            EV_KEY::KEY_FN_F1 => {},
            EV_KEY::KEY_FN_F2 => {},
            EV_KEY::KEY_FN_F3 => {},
            EV_KEY::KEY_FN_F4 => {},
            EV_KEY::KEY_FN_F5 => {},
            EV_KEY::KEY_FN_F6 => {},
            EV_KEY::KEY_FN_F7 => {},
            EV_KEY::KEY_FN_F8 => {},
            EV_KEY::KEY_FN_F9 => {},
            EV_KEY::KEY_FN_F10 => {},
            EV_KEY::KEY_FN_F11 => {},
            EV_KEY::KEY_FN_F12 => {},
            EV_KEY::KEY_FN_1 => {},
            EV_KEY::KEY_FN_2 => {},
            EV_KEY::KEY_FN_D => {},
            EV_KEY::KEY_FN_E => {},
            EV_KEY::KEY_FN_F => {},
            EV_KEY::KEY_FN_S => {},
            EV_KEY::KEY_FN_B => {},
            EV_KEY::KEY_FN_RIGHT_SHIFT => {},
            EV_KEY::KEY_BRL_DOT1 => {},
            EV_KEY::KEY_BRL_DOT2 => {},
            EV_KEY::KEY_BRL_DOT3 => {},
            EV_KEY::KEY_BRL_DOT4 => {},
            EV_KEY::KEY_BRL_DOT5 => {},
            EV_KEY::KEY_BRL_DOT6 => {},
            EV_KEY::KEY_BRL_DOT7 => {},
            EV_KEY::KEY_BRL_DOT8 => {},
            EV_KEY::KEY_BRL_DOT9 => {},
            EV_KEY::KEY_BRL_DOT10 => {},
            EV_KEY::KEY_NUMERIC_0 => {},
            EV_KEY::KEY_NUMERIC_1 => {},
            EV_KEY::KEY_NUMERIC_2 => {},
            EV_KEY::KEY_NUMERIC_3 => {},
            EV_KEY::KEY_NUMERIC_4 => {},
            EV_KEY::KEY_NUMERIC_5 => {},
            EV_KEY::KEY_NUMERIC_6 => {},
            EV_KEY::KEY_NUMERIC_7 => {},
            EV_KEY::KEY_NUMERIC_8 => {},
            EV_KEY::KEY_NUMERIC_9 => {},
            EV_KEY::KEY_NUMERIC_STAR => {},
            EV_KEY::KEY_NUMERIC_POUND => {},
            EV_KEY::KEY_NUMERIC_A => {},
            EV_KEY::KEY_NUMERIC_B => {},
            EV_KEY::KEY_NUMERIC_C => {},
            EV_KEY::KEY_NUMERIC_D => {},
            EV_KEY::KEY_CAMERA_FOCUS => {},
            EV_KEY::KEY_WPS_BUTTON => {},
            EV_KEY::KEY_TOUCHPAD_TOGGLE => {},
            EV_KEY::KEY_TOUCHPAD_ON => {},
            EV_KEY::KEY_TOUCHPAD_OFF => {},
            EV_KEY::KEY_CAMERA_ZOOMIN => {},
            EV_KEY::KEY_CAMERA_ZOOMOUT => {},
            EV_KEY::KEY_CAMERA_UP => {},
            EV_KEY::KEY_CAMERA_DOWN => {},
            EV_KEY::KEY_CAMERA_LEFT => {},
            EV_KEY::KEY_CAMERA_RIGHT => {},
            EV_KEY::KEY_ATTENDANT_ON => {},
            EV_KEY::KEY_ATTENDANT_OFF => {},
            EV_KEY::KEY_ATTENDANT_TOGGLE => {},
            EV_KEY::KEY_LIGHTS_TOGGLE => {},
            EV_KEY::BTN_DPAD_UP => {},
            EV_KEY::BTN_DPAD_DOWN => {},
            EV_KEY::BTN_DPAD_LEFT => {},
            EV_KEY::BTN_DPAD_RIGHT => {},
            EV_KEY::KEY_ALS_TOGGLE => {},
            EV_KEY::KEY_ROTATE_LOCK_TOGGLE => {},
            EV_KEY::KEY_REFRESH_RATE_TOGGLE => {},
            EV_KEY::KEY_BUTTONCONFIG => {},
            EV_KEY::KEY_TASKMANAGER => {},
            EV_KEY::KEY_JOURNAL => {},
            EV_KEY::KEY_CONTROLPANEL => {},
            EV_KEY::KEY_APPSELECT => {},
            EV_KEY::KEY_SCREENSAVER => {},
            EV_KEY::KEY_VOICECOMMAND => {},
            EV_KEY::KEY_ASSISTANT => {},
            EV_KEY::KEY_KBD_LAYOUT_NEXT => {},
            EV_KEY::KEY_EMOJI_PICKER => {},
            EV_KEY::KEY_DICTATE => {},
            EV_KEY::KEY_BRIGHTNESS_MIN => {},
            EV_KEY::KEY_BRIGHTNESS_MAX => {},
            EV_KEY::KEY_KBDINPUTASSIST_PREV => {},
            EV_KEY::KEY_KBDINPUTASSIST_NEXT => {},
            EV_KEY::KEY_KBDINPUTASSIST_PREVGROUP => {},
            EV_KEY::KEY_KBDINPUTASSIST_NEXTGROUP => {},
            EV_KEY::KEY_KBDINPUTASSIST_ACCEPT => {},
            EV_KEY::KEY_KBDINPUTASSIST_CANCEL => {},
            EV_KEY::KEY_RIGHT_UP => {},
            EV_KEY::KEY_RIGHT_DOWN => {},
            EV_KEY::KEY_LEFT_UP => {},
            EV_KEY::KEY_LEFT_DOWN => {},
            EV_KEY::KEY_ROOT_MENU => {},
            EV_KEY::KEY_MEDIA_TOP_MENU => {},
            EV_KEY::KEY_NUMERIC_11 => {},
            EV_KEY::KEY_NUMERIC_12 => {},
            EV_KEY::KEY_AUDIO_DESC => {},
            EV_KEY::KEY_3D_MODE => {},
            EV_KEY::KEY_NEXT_FAVORITE => {},
            EV_KEY::KEY_STOP_RECORD => {},
            EV_KEY::KEY_PAUSE_RECORD => {},
            EV_KEY::KEY_VOD => {},
            EV_KEY::KEY_UNMUTE => {},
            EV_KEY::KEY_FASTREVERSE => {},
            EV_KEY::KEY_SLOWREVERSE => {},
            EV_KEY::KEY_DATA => {},
            EV_KEY::KEY_ONSCREEN_KEYBOARD => {},
            EV_KEY::KEY_PRIVACY_SCREEN_TOGGLE => {},
            EV_KEY::KEY_SELECTIVE_SCREENSHOT => {},
            EV_KEY::KEY_NEXT_ELEMENT => {},
            EV_KEY::KEY_PREVIOUS_ELEMENT => {},
            EV_KEY::KEY_AUTOPILOT_ENGAGE_TOGGLE => {},
            EV_KEY::KEY_MARK_WAYPOINT => {},
            EV_KEY::KEY_SOS => {},
            EV_KEY::KEY_NAV_CHART => {},
            EV_KEY::KEY_FISHING_CHART => {},
            EV_KEY::KEY_SINGLE_RANGE_RADAR => {},
            EV_KEY::KEY_DUAL_RANGE_RADAR => {},
            EV_KEY::KEY_RADAR_OVERLAY => {},
            EV_KEY::KEY_TRADITIONAL_SONAR => {},
            EV_KEY::KEY_CLEARVU_SONAR => {},
            EV_KEY::KEY_SIDEVU_SONAR => {},
            EV_KEY::KEY_NAV_INFO => {},
            EV_KEY::KEY_BRIGHTNESS_MENU => {},
            EV_KEY::KEY_MACRO1 => {},
            EV_KEY::KEY_MACRO2 => {},
            EV_KEY::KEY_MACRO3 => {},
            EV_KEY::KEY_MACRO4 => {},
            EV_KEY::KEY_MACRO5 => {},
            EV_KEY::KEY_MACRO6 => {},
            EV_KEY::KEY_MACRO7 => {},
            EV_KEY::KEY_MACRO8 => {},
            EV_KEY::KEY_MACRO9 => {},
            EV_KEY::KEY_MACRO10 => {},
            EV_KEY::KEY_MACRO11 => {},
            EV_KEY::KEY_MACRO12 => {},
            EV_KEY::KEY_MACRO13 => {},
            EV_KEY::KEY_MACRO14 => {},
            EV_KEY::KEY_MACRO15 => {},
            EV_KEY::KEY_MACRO16 => {},
            EV_KEY::KEY_MACRO17 => {},
            EV_KEY::KEY_MACRO18 => {},
            EV_KEY::KEY_MACRO19 => {},
            EV_KEY::KEY_MACRO20 => {},
            EV_KEY::KEY_MACRO21 => {},
            EV_KEY::KEY_MACRO22 => {},
            EV_KEY::KEY_MACRO23 => {},
            EV_KEY::KEY_MACRO24 => {},
            EV_KEY::KEY_MACRO25 => {},
            EV_KEY::KEY_MACRO26 => {},
            EV_KEY::KEY_MACRO27 => {},
            EV_KEY::KEY_MACRO28 => {},
            EV_KEY::KEY_MACRO29 => {},
            EV_KEY::KEY_MACRO30 => {},
            EV_KEY::KEY_MACRO_RECORD_START => {},
            EV_KEY::KEY_MACRO_RECORD_STOP => {},
            EV_KEY::KEY_MACRO_PRESET_CYCLE => {},
            EV_KEY::KEY_MACRO_PRESET1 => {},
            EV_KEY::KEY_MACRO_PRESET2 => {},
            EV_KEY::KEY_MACRO_PRESET3 => {},
            EV_KEY::KEY_KBD_LCD_MENU1 => {},
            EV_KEY::KEY_KBD_LCD_MENU2 => {},
            EV_KEY::KEY_KBD_LCD_MENU3 => {},
            EV_KEY::KEY_KBD_LCD_MENU4 => {},
            EV_KEY::KEY_KBD_LCD_MENU5 => {},
            EV_KEY::BTN_TRIGGER_HAPPY1 => {},
            EV_KEY::BTN_TRIGGER_HAPPY2 => {},
            EV_KEY::BTN_TRIGGER_HAPPY3 => {},
            EV_KEY::BTN_TRIGGER_HAPPY4 => {},
            EV_KEY::BTN_TRIGGER_HAPPY5 => {},
            EV_KEY::BTN_TRIGGER_HAPPY6 => {},
            EV_KEY::BTN_TRIGGER_HAPPY7 => {},
            EV_KEY::BTN_TRIGGER_HAPPY8 => {},
            EV_KEY::BTN_TRIGGER_HAPPY9 => {},
            EV_KEY::BTN_TRIGGER_HAPPY10 => {},
            EV_KEY::BTN_TRIGGER_HAPPY11 => {},
            EV_KEY::BTN_TRIGGER_HAPPY12 => {},
            EV_KEY::BTN_TRIGGER_HAPPY13 => {},
            EV_KEY::BTN_TRIGGER_HAPPY14 => {},
            EV_KEY::BTN_TRIGGER_HAPPY15 => {},
            EV_KEY::BTN_TRIGGER_HAPPY16 => {},
            EV_KEY::BTN_TRIGGER_HAPPY17 => {},
            EV_KEY::BTN_TRIGGER_HAPPY18 => {},
            EV_KEY::BTN_TRIGGER_HAPPY19 => {},
            EV_KEY::BTN_TRIGGER_HAPPY20 => {},
            EV_KEY::BTN_TRIGGER_HAPPY21 => {},
            EV_KEY::BTN_TRIGGER_HAPPY22 => {},
            EV_KEY::BTN_TRIGGER_HAPPY23 => {},
            EV_KEY::BTN_TRIGGER_HAPPY24 => {},
            EV_KEY::BTN_TRIGGER_HAPPY25 => {},
            EV_KEY::BTN_TRIGGER_HAPPY26 => {},
            EV_KEY::BTN_TRIGGER_HAPPY27 => {},
            EV_KEY::BTN_TRIGGER_HAPPY28 => {},
            EV_KEY::BTN_TRIGGER_HAPPY29 => {},
            EV_KEY::BTN_TRIGGER_HAPPY30 => {},
            EV_KEY::BTN_TRIGGER_HAPPY31 => {},
            EV_KEY::BTN_TRIGGER_HAPPY32 => {},
            EV_KEY::BTN_TRIGGER_HAPPY33 => {},
            EV_KEY::BTN_TRIGGER_HAPPY34 => {},
            EV_KEY::BTN_TRIGGER_HAPPY35 => {},
            EV_KEY::BTN_TRIGGER_HAPPY36 => {},
            EV_KEY::BTN_TRIGGER_HAPPY37 => {},
            EV_KEY::BTN_TRIGGER_HAPPY38 => {},
            EV_KEY::BTN_TRIGGER_HAPPY39 => {},
            EV_KEY::BTN_TRIGGER_HAPPY40 => {},
            EV_KEY::KEY_MAX => {},
        }
    }

    proof fn lemma_named(n: u32) {
        if let Some(x) = Self::named(n) {
            if n < 0x100 {
                lemma_key_named_0xx(x, n);
            } else if n < 0x200 {
                lemma_key_named_1xx(x, n);
            } else {
                lemma_key_named_2xx(x, n);
            }
        }
    }
}

proof fn lemma_key_numbers_0xx()
    ensures
        EV_KEY::KEY_RESERVED.number() == 0,
        EV_KEY::KEY_ESC.number() == 1,
        EV_KEY::KEY_1.number() == 2,
        EV_KEY::KEY_2.number() == 3,
        EV_KEY::KEY_3.number() == 4,
        EV_KEY::KEY_4.number() == 5,
        EV_KEY::KEY_5.number() == 6,
        EV_KEY::KEY_6.number() == 7,
        EV_KEY::KEY_7.number() == 8,
        EV_KEY::KEY_8.number() == 9,
        EV_KEY::KEY_9.number() == 10,
        EV_KEY::KEY_0.number() == 11,
        EV_KEY::KEY_MINUS.number() == 12,
        EV_KEY::KEY_EQUAL.number() == 13,
        EV_KEY::KEY_BACKSPACE.number() == 14,
        EV_KEY::KEY_TAB.number() == 15,
        EV_KEY::KEY_Q.number() == 16,
        EV_KEY::KEY_W.number() == 17,
        EV_KEY::KEY_E.number() == 18,
        EV_KEY::KEY_R.number() == 19,
        EV_KEY::KEY_T.number() == 20,
        EV_KEY::KEY_Y.number() == 21,
        EV_KEY::KEY_U.number() == 22,
        EV_KEY::KEY_I.number() == 23,
        EV_KEY::KEY_O.number() == 24,
        EV_KEY::KEY_P.number() == 25,
        EV_KEY::KEY_LEFTBRACE.number() == 26,
        EV_KEY::KEY_RIGHTBRACE.number() == 27,
        EV_KEY::KEY_ENTER.number() == 28,
        EV_KEY::KEY_LEFTCTRL.number() == 29,
        EV_KEY::KEY_A.number() == 30,
        EV_KEY::KEY_S.number() == 31,
        EV_KEY::KEY_D.number() == 32,
        EV_KEY::KEY_F.number() == 33,
        EV_KEY::KEY_G.number() == 34,
        EV_KEY::KEY_H.number() == 35,
        EV_KEY::KEY_J.number() == 36,
        EV_KEY::KEY_K.number() == 37,
        EV_KEY::KEY_L.number() == 38,
        EV_KEY::KEY_SEMICOLON.number() == 39,
        EV_KEY::KEY_APOSTROPHE.number() == 40,
        EV_KEY::KEY_GRAVE.number() == 41,
        EV_KEY::KEY_LEFTSHIFT.number() == 42,
        EV_KEY::KEY_BACKSLASH.number() == 43,
        EV_KEY::KEY_Z.number() == 44,
        EV_KEY::KEY_X.number() == 45,
        EV_KEY::KEY_C.number() == 46,
        EV_KEY::KEY_V.number() == 47,
        EV_KEY::KEY_B.number() == 48,
        EV_KEY::KEY_N.number() == 49,
        EV_KEY::KEY_M.number() == 50,
        EV_KEY::KEY_COMMA.number() == 51,
        EV_KEY::KEY_DOT.number() == 52,
        EV_KEY::KEY_SLASH.number() == 53,
        EV_KEY::KEY_RIGHTSHIFT.number() == 54,
        EV_KEY::KEY_KPASTERISK.number() == 55,
        EV_KEY::KEY_LEFTALT.number() == 56,
        EV_KEY::KEY_SPACE.number() == 57,
        EV_KEY::KEY_CAPSLOCK.number() == 58,
        EV_KEY::KEY_F1.number() == 59,
        EV_KEY::KEY_F2.number() == 60,
        EV_KEY::KEY_F3.number() == 61,
        EV_KEY::KEY_F4.number() == 62,
        EV_KEY::KEY_F5.number() == 63,
        EV_KEY::KEY_F6.number() == 64,
        EV_KEY::KEY_F7.number() == 65,
        EV_KEY::KEY_F8.number() == 66,
        EV_KEY::KEY_F9.number() == 67,
        EV_KEY::KEY_F10.number() == 68,
        EV_KEY::KEY_NUMLOCK.number() == 69,
        EV_KEY::KEY_SCROLLLOCK.number() == 70,
        EV_KEY::KEY_KP7.number() == 71,
        EV_KEY::KEY_KP8.number() == 72,
        EV_KEY::KEY_KP9.number() == 73,
        EV_KEY::KEY_KPMINUS.number() == 74,
        EV_KEY::KEY_KP4.number() == 75,
        EV_KEY::KEY_KP5.number() == 76,
        EV_KEY::KEY_KP6.number() == 77,
        EV_KEY::KEY_KPPLUS.number() == 78,
        EV_KEY::KEY_KP1.number() == 79,
        EV_KEY::KEY_KP2.number() == 80,
        EV_KEY::KEY_KP3.number() == 81,
        EV_KEY::KEY_KP0.number() == 82,
        EV_KEY::KEY_KPDOT.number() == 83,
        EV_KEY::KEY_ZENKAKUHANKAKU.number() == 85,
        EV_KEY::KEY_102ND.number() == 86,
        EV_KEY::KEY_F11.number() == 87,
        EV_KEY::KEY_F12.number() == 88,
        EV_KEY::KEY_RO.number() == 89,
        EV_KEY::KEY_KATAKANA.number() == 90,
        EV_KEY::KEY_HIRAGANA.number() == 91,
        EV_KEY::KEY_HENKAN.number() == 92,
        EV_KEY::KEY_KATAKANAHIRAGANA.number() == 93,
        EV_KEY::KEY_MUHENKAN.number() == 94,
        EV_KEY::KEY_KPJPCOMMA.number() == 95,
        EV_KEY::KEY_KPENTER.number() == 96,
        EV_KEY::KEY_RIGHTCTRL.number() == 97,
        EV_KEY::KEY_KPSLASH.number() == 98,
        EV_KEY::KEY_SYSRQ.number() == 99,
        EV_KEY::KEY_RIGHTALT.number() == 100,
        EV_KEY::KEY_LINEFEED.number() == 101,
        EV_KEY::KEY_HOME.number() == 102,
        EV_KEY::KEY_UP.number() == 103,
        EV_KEY::KEY_PAGEUP.number() == 104,
        EV_KEY::KEY_LEFT.number() == 105,
        EV_KEY::KEY_RIGHT.number() == 106,
        EV_KEY::KEY_END.number() == 107,
        EV_KEY::KEY_DOWN.number() == 108,
        EV_KEY::KEY_PAGEDOWN.number() == 109,
        EV_KEY::KEY_INSERT.number() == 110,
        EV_KEY::KEY_DELETE.number() == 111,
        EV_KEY::KEY_MACRO.number() == 112,
        EV_KEY::KEY_MUTE.number() == 113,
        EV_KEY::KEY_VOLUMEDOWN.number() == 114,
        EV_KEY::KEY_VOLUMEUP.number() == 115,
        EV_KEY::KEY_POWER.number() == 116,
        EV_KEY::KEY_KPEQUAL.number() == 117,
        EV_KEY::KEY_KPPLUSMINUS.number() == 118,
        EV_KEY::KEY_PAUSE.number() == 119,
        EV_KEY::KEY_SCALE.number() == 120,
        EV_KEY::KEY_KPCOMMA.number() == 121,
        EV_KEY::KEY_HANGEUL.number() == 122,
        EV_KEY::KEY_HANJA.number() == 123,
        EV_KEY::KEY_YEN.number() == 124,
        EV_KEY::KEY_LEFTMETA.number() == 125,
        EV_KEY::KEY_RIGHTMETA.number() == 126,
        EV_KEY::KEY_COMPOSE.number() == 127,
        EV_KEY::KEY_STOP.number() == 128,
        EV_KEY::KEY_AGAIN.number() == 129,
        EV_KEY::KEY_PROPS.number() == 130,
        EV_KEY::KEY_UNDO.number() == 131,
        EV_KEY::KEY_FRONT.number() == 132,
        EV_KEY::KEY_COPY.number() == 133,
        EV_KEY::KEY_OPEN.number() == 134,
        EV_KEY::KEY_PASTE.number() == 135,
        EV_KEY::KEY_FIND.number() == 136,
        EV_KEY::KEY_CUT.number() == 137,
        EV_KEY::KEY_HELP.number() == 138,
        EV_KEY::KEY_MENU.number() == 139,
        EV_KEY::KEY_CALC.number() == 140,
        EV_KEY::KEY_SETUP.number() == 141,
        EV_KEY::KEY_SLEEP.number() == 142,
        EV_KEY::KEY_WAKEUP.number() == 143,
        EV_KEY::KEY_FILE.number() == 144,
        EV_KEY::KEY_SENDFILE.number() == 145,
        EV_KEY::KEY_DELETEFILE.number() == 146,
        EV_KEY::KEY_XFER.number() == 147,
        EV_KEY::KEY_PROG1.number() == 148,
        EV_KEY::KEY_PROG2.number() == 149,
        EV_KEY::KEY_WWW.number() == 150,
        EV_KEY::KEY_MSDOS.number() == 151,
        EV_KEY::KEY_COFFEE.number() == 152,
        EV_KEY::KEY_ROTATE_DISPLAY.number() == 153,
        EV_KEY::KEY_CYCLEWINDOWS.number() == 154,
        EV_KEY::KEY_MAIL.number() == 155,
        EV_KEY::KEY_BOOKMARKS.number() == 156,
        EV_KEY::KEY_COMPUTER.number() == 157,
        EV_KEY::KEY_BACK.number() == 158,
        EV_KEY::KEY_FORWARD.number() == 159,
        EV_KEY::KEY_CLOSECD.number() == 160,
        EV_KEY::KEY_EJECTCD.number() == 161,
        EV_KEY::KEY_EJECTCLOSECD.number() == 162,
        EV_KEY::KEY_NEXTSONG.number() == 163,
        EV_KEY::KEY_PLAYPAUSE.number() == 164,
        EV_KEY::KEY_PREVIOUSSONG.number() == 165,
        EV_KEY::KEY_STOPCD.number() == 166,
        EV_KEY::KEY_RECORD.number() == 167,
        EV_KEY::KEY_REWIND.number() == 168,
        EV_KEY::KEY_PHONE.number() == 169,
        EV_KEY::KEY_ISO.number() == 170,
        EV_KEY::KEY_CONFIG.number() == 171,
        EV_KEY::KEY_HOMEPAGE.number() == 172,
        EV_KEY::KEY_REFRESH.number() == 173,
        EV_KEY::KEY_EXIT.number() == 174,
        EV_KEY::KEY_MOVE.number() == 175,
        EV_KEY::KEY_EDIT.number() == 176,
        EV_KEY::KEY_SCROLLUP.number() == 177,
        EV_KEY::KEY_SCROLLDOWN.number() == 178,
        EV_KEY::KEY_KPLEFTPAREN.number() == 179,
        EV_KEY::KEY_KPRIGHTPAREN.number() == 180,
        EV_KEY::KEY_NEW.number() == 181,
        EV_KEY::KEY_REDO.number() == 182,
        EV_KEY::KEY_F13.number() == 183,
        EV_KEY::KEY_F14.number() == 184,
        EV_KEY::KEY_F15.number() == 185,
        EV_KEY::KEY_F16.number() == 186,
        EV_KEY::KEY_F17.number() == 187,
        EV_KEY::KEY_F18.number() == 188,
        EV_KEY::KEY_F19.number() == 189,
        EV_KEY::KEY_F20.number() == 190,
        EV_KEY::KEY_F21.number() == 191,
        EV_KEY::KEY_F22.number() == 192,
        EV_KEY::KEY_F23.number() == 193,
        EV_KEY::KEY_F24.number() == 194,
        EV_KEY::KEY_PLAYCD.number() == 200,
        EV_KEY::KEY_PAUSECD.number() == 201,
        EV_KEY::KEY_PROG3.number() == 202,
        EV_KEY::KEY_PROG4.number() == 203,
        EV_KEY::KEY_ALL_APPLICATIONS.number() == 204,
        EV_KEY::KEY_SUSPEND.number() == 205,
        EV_KEY::KEY_CLOSE.number() == 206,
        EV_KEY::KEY_PLAY.number() == 207,
        EV_KEY::KEY_FASTFORWARD.number() == 208,
        EV_KEY::KEY_BASSBOOST.number() == 209,
        EV_KEY::KEY_PRINT.number() == 210,
        EV_KEY::KEY_HP.number() == 211,
        EV_KEY::KEY_CAMERA.number() == 212,
        EV_KEY::KEY_SOUND.number() == 213,
        EV_KEY::KEY_QUESTION.number() == 214,
        EV_KEY::KEY_EMAIL.number() == 215,
        EV_KEY::KEY_CHAT.number() == 216,
        EV_KEY::KEY_SEARCH.number() == 217,
        EV_KEY::KEY_CONNECT.number() == 218,
        EV_KEY::KEY_FINANCE.number() == 219,
        EV_KEY::KEY_SPORT.number() == 220,
        EV_KEY::KEY_SHOP.number() == 221,
        EV_KEY::KEY_ALTERASE.number() == 222,
        EV_KEY::KEY_CANCEL.number() == 223,
        EV_KEY::KEY_BRIGHTNESSDOWN.number() == 224,
        EV_KEY::KEY_BRIGHTNESSUP.number() == 225,
        EV_KEY::KEY_MEDIA.number() == 226,
        EV_KEY::KEY_SWITCHVIDEOMODE.number() == 227,
        EV_KEY::KEY_KBDILLUMTOGGLE.number() == 228,
        EV_KEY::KEY_KBDILLUMDOWN.number() == 229,
        EV_KEY::KEY_KBDILLUMUP.number() == 230,
        EV_KEY::KEY_SEND.number() == 231,
        EV_KEY::KEY_REPLY.number() == 232,
        EV_KEY::KEY_FORWARDMAIL.number() == 233,
        EV_KEY::KEY_SAVE.number() == 234,
        EV_KEY::KEY_DOCUMENTS.number() == 235,
        EV_KEY::KEY_BATTERY.number() == 236,
        EV_KEY::KEY_BLUETOOTH.number() == 237,
        EV_KEY::KEY_WLAN.number() == 238,
        EV_KEY::KEY_UWB.number() == 239,
        EV_KEY::KEY_UNKNOWN.number() == 240,
        EV_KEY::KEY_VIDEO_NEXT.number() == 241,
        EV_KEY::KEY_VIDEO_PREV.number() == 242,
        EV_KEY::KEY_BRIGHTNESS_CYCLE.number() == 243,
        EV_KEY::KEY_BRIGHTNESS_AUTO.number() == 244,
        EV_KEY::KEY_DISPLAY_OFF.number() == 245,
        EV_KEY::KEY_WWAN.number() == 246,
        EV_KEY::KEY_RFKILL.number() == 247,
        EV_KEY::KEY_MICMUTE.number() == 248,
{
    reveal(<EV_KEY as Numbered>::number);
}

/// A number below `0x100` names only the key that has this number.
proof fn lemma_key_named_0xx(x: EV_KEY, n: u32)
    requires
        key_named_0xx(n) == Some(x),
    ensures
        x.number() == n,
{
    lemma_key_numbers_0xx();
}

proof fn lemma_key_numbers_1xx()
    ensures
        EV_KEY::BTN_0.number() == 0x100,
        EV_KEY::BTN_1.number() == 0x101,
        EV_KEY::BTN_2.number() == 0x102,
        EV_KEY::BTN_3.number() == 0x103,
        EV_KEY::BTN_4.number() == 0x104,
        EV_KEY::BTN_5.number() == 0x105,
        EV_KEY::BTN_6.number() == 0x106,
        EV_KEY::BTN_7.number() == 0x107,
        EV_KEY::BTN_8.number() == 0x108,
        EV_KEY::BTN_9.number() == 0x109,
        EV_KEY::BTN_LEFT.number() == 0x110,
        EV_KEY::BTN_RIGHT.number() == 0x111,
        EV_KEY::BTN_MIDDLE.number() == 0x112,
        EV_KEY::BTN_SIDE.number() == 0x113,
        EV_KEY::BTN_EXTRA.number() == 0x114,
        EV_KEY::BTN_FORWARD.number() == 0x115,
        EV_KEY::BTN_BACK.number() == 0x116,
        EV_KEY::BTN_TASK.number() == 0x117,
        EV_KEY::BTN_TRIGGER.number() == 0x120,
        EV_KEY::BTN_THUMB.number() == 0x121,
        EV_KEY::BTN_THUMB2.number() == 0x122,
        EV_KEY::BTN_TOP.number() == 0x123,
        EV_KEY::BTN_TOP2.number() == 0x124,
        EV_KEY::BTN_PINKIE.number() == 0x125,
        EV_KEY::BTN_BASE.number() == 0x126,
        EV_KEY::BTN_BASE2.number() == 0x127,
        EV_KEY::BTN_BASE3.number() == 0x128,
        EV_KEY::BTN_BASE4.number() == 0x129,
        EV_KEY::BTN_BASE5.number() == 0x12a,
        EV_KEY::BTN_BASE6.number() == 0x12b,
        EV_KEY::BTN_DEAD.number() == 0x12f,
        EV_KEY::BTN_SOUTH.number() == 0x130,
        EV_KEY::BTN_EAST.number() == 0x131,
        EV_KEY::BTN_C.number() == 0x132,
        EV_KEY::BTN_NORTH.number() == 0x133,
        EV_KEY::BTN_WEST.number() == 0x134,
        EV_KEY::BTN_Z.number() == 0x135,
        EV_KEY::BTN_TL.number() == 0x136,
        EV_KEY::BTN_TR.number() == 0x137,
        EV_KEY::BTN_TL2.number() == 0x138,
        EV_KEY::BTN_TR2.number() == 0x139,
        EV_KEY::BTN_SELECT.number() == 0x13a,
        EV_KEY::BTN_START.number() == 0x13b,
        EV_KEY::BTN_MODE.number() == 0x13c,
        EV_KEY::BTN_THUMBL.number() == 0x13d,
        EV_KEY::BTN_THUMBR.number() == 0x13e,
        EV_KEY::BTN_TOOL_PEN.number() == 0x140,
        EV_KEY::BTN_TOOL_RUBBER.number() == 0x141,
        EV_KEY::BTN_TOOL_BRUSH.number() == 0x142,
        EV_KEY::BTN_TOOL_PENCIL.number() == 0x143,
        EV_KEY::BTN_TOOL_AIRBRUSH.number() == 0x144,
        EV_KEY::BTN_TOOL_FINGER.number() == 0x145,
        EV_KEY::BTN_TOOL_MOUSE.number() == 0x146,
        EV_KEY::BTN_TOOL_LENS.number() == 0x147,
        EV_KEY::BTN_TOOL_QUINTTAP.number() == 0x148,
        EV_KEY::BTN_STYLUS3.number() == 0x149,
        EV_KEY::BTN_TOUCH.number() == 0x14a,
        EV_KEY::BTN_STYLUS.number() == 0x14b,
        EV_KEY::BTN_STYLUS2.number() == 0x14c,
        EV_KEY::BTN_TOOL_DOUBLETAP.number() == 0x14d,
        EV_KEY::BTN_TOOL_TRIPLETAP.number() == 0x14e,
        EV_KEY::BTN_TOOL_QUADTAP.number() == 0x14f,
        EV_KEY::BTN_GEAR_DOWN.number() == 0x150,
        EV_KEY::BTN_GEAR_UP.number() == 0x151,
        EV_KEY::KEY_OK.number() == 0x160,
        EV_KEY::KEY_SELECT.number() == 0x161,
        EV_KEY::KEY_GOTO.number() == 0x162,
        EV_KEY::KEY_CLEAR.number() == 0x163,
        EV_KEY::KEY_POWER2.number() == 0x164,
        EV_KEY::KEY_OPTION.number() == 0x165,
        EV_KEY::KEY_INFO.number() == 0x166,
        EV_KEY::KEY_TIME.number() == 0x167,
        EV_KEY::KEY_VENDOR.number() == 0x168,
        EV_KEY::KEY_ARCHIVE.number() == 0x169,
        EV_KEY::KEY_PROGRAM.number() == 0x16a,
        EV_KEY::KEY_CHANNEL.number() == 0x16b,
        EV_KEY::KEY_FAVORITES.number() == 0x16c,
        EV_KEY::KEY_EPG.number() == 0x16d,
        EV_KEY::KEY_PVR.number() == 0x16e,
        EV_KEY::KEY_MHP.number() == 0x16f,
        EV_KEY::KEY_LANGUAGE.number() == 0x170,
        EV_KEY::KEY_TITLE.number() == 0x171,
        EV_KEY::KEY_SUBTITLE.number() == 0x172,
        EV_KEY::KEY_ANGLE.number() == 0x173,
        EV_KEY::KEY_FULL_SCREEN.number() == 0x174,
        EV_KEY::KEY_MODE.number() == 0x175,
        EV_KEY::KEY_KEYBOARD.number() == 0x176,
        EV_KEY::KEY_ASPECT_RATIO.number() == 0x177,
        EV_KEY::KEY_PC.number() == 0x178,
        EV_KEY::KEY_TV.number() == 0x179,
        EV_KEY::KEY_TV2.number() == 0x17a,
        EV_KEY::KEY_VCR.number() == 0x17b,
        EV_KEY::KEY_VCR2.number() == 0x17c,
        EV_KEY::KEY_SAT.number() == 0x17d,
        EV_KEY::KEY_SAT2.number() == 0x17e,
        EV_KEY::KEY_CD.number() == 0x17f,
        EV_KEY::KEY_TAPE.number() == 0x180,
        EV_KEY::KEY_RADIO.number() == 0x181,
        EV_KEY::KEY_TUNER.number() == 0x182,
        EV_KEY::KEY_PLAYER.number() == 0x183,
        EV_KEY::KEY_TEXT.number() == 0x184,
        EV_KEY::KEY_DVD.number() == 0x185,
        EV_KEY::KEY_AUX.number() == 0x186,
        EV_KEY::KEY_MP3.number() == 0x187,
        EV_KEY::KEY_AUDIO.number() == 0x188,
        EV_KEY::KEY_VIDEO.number() == 0x189,
        EV_KEY::KEY_DIRECTORY.number() == 0x18a,
        EV_KEY::KEY_LIST.number() == 0x18b,
        EV_KEY::KEY_MEMO.number() == 0x18c,
        EV_KEY::KEY_CALENDAR.number() == 0x18d,
        EV_KEY::KEY_RED.number() == 0x18e,
        EV_KEY::KEY_GREEN.number() == 0x18f,
        EV_KEY::KEY_YELLOW.number() == 0x190,
        EV_KEY::KEY_BLUE.number() == 0x191,
        EV_KEY::KEY_CHANNELUP.number() == 0x192,
        EV_KEY::KEY_CHANNELDOWN.number() == 0x193,
        EV_KEY::KEY_FIRST.number() == 0x194,
        EV_KEY::KEY_LAST.number() == 0x195,
        EV_KEY::KEY_AB.number() == 0x196,
        EV_KEY::KEY_NEXT.number() == 0x197,
        EV_KEY::KEY_RESTART.number() == 0x198,
        EV_KEY::KEY_SLOW.number() == 0x199,
        EV_KEY::KEY_SHUFFLE.number() == 0x19a,
        EV_KEY::KEY_BREAK.number() == 0x19b,
        EV_KEY::KEY_PREVIOUS.number() == 0x19c,
        EV_KEY::KEY_DIGITS.number() == 0x19d,
        EV_KEY::KEY_TEEN.number() == 0x19e,
        EV_KEY::KEY_TWEN.number() == 0x19f,
        EV_KEY::KEY_VIDEOPHONE.number() == 0x1a0,
        EV_KEY::KEY_GAMES.number() == 0x1a1,
        EV_KEY::KEY_ZOOMIN.number() == 0x1a2,
        EV_KEY::KEY_ZOOMOUT.number() == 0x1a3,
        EV_KEY::KEY_ZOOMRESET.number() == 0x1a4,
        EV_KEY::KEY_WORDPROCESSOR.number() == 0x1a5,
        EV_KEY::KEY_EDITOR.number() == 0x1a6,
        EV_KEY::KEY_SPREADSHEET.number() == 0x1a7,
        EV_KEY::KEY_GRAPHICSEDITOR.number() == 0x1a8,
        EV_KEY::KEY_PRESENTATION.number() == 0x1a9,
        EV_KEY::KEY_DATABASE.number() == 0x1aa,
        EV_KEY::KEY_NEWS.number() == 0x1ab,
        EV_KEY::KEY_VOICEMAIL.number() == 0x1ac,
        EV_KEY::KEY_ADDRESSBOOK.number() == 0x1ad,
        EV_KEY::KEY_MESSENGER.number() == 0x1ae,
        EV_KEY::KEY_DISPLAYTOGGLE.number() == 0x1af,
        EV_KEY::KEY_SPELLCHECK.number() == 0x1b0,
        EV_KEY::KEY_LOGOFF.number() == 0x1b1,
        EV_KEY::KEY_DOLLAR.number() == 0x1b2,
        EV_KEY::KEY_EURO.number() == 0x1b3,
        EV_KEY::KEY_FRAMEBACK.number() == 0x1b4,
        EV_KEY::KEY_FRAMEFORWARD.number() == 0x1b5,
        EV_KEY::KEY_CONTEXT_MENU.number() == 0x1b6,
        EV_KEY::KEY_MEDIA_REPEAT.number() == 0x1b7,
        EV_KEY::KEY_10CHANNELSUP.number() == 0x1b8,
        EV_KEY::KEY_10CHANNELSDOWN.number() == 0x1b9,
        EV_KEY::KEY_IMAGES.number() == 0x1ba,
        EV_KEY::KEY_NOTIFICATION_CENTER.number() == 0x1bc,
        EV_KEY::KEY_PICKUP_PHONE.number() == 0x1bd,
        EV_KEY::KEY_HANGUP_PHONE.number() == 0x1be,
        EV_KEY::KEY_LINK_PHONE.number() == 0x1bf,
        EV_KEY::KEY_DEL_EOL.number() == 0x1c0,
        EV_KEY::KEY_DEL_EOS.number() == 0x1c1,
        EV_KEY::KEY_INS_LINE.number() == 0x1c2,
        EV_KEY::KEY_DEL_LINE.number() == 0x1c3,
        EV_KEY::KEY_FN.number() == 0x1d0,
        EV_KEY::KEY_FN_ESC.number() == 0x1d1,
        EV_KEY::KEY_FN_F1.number() == 0x1d2,
        EV_KEY::KEY_FN_F2.number() == 0x1d3,
        EV_KEY::KEY_FN_F3.number() == 0x1d4,
        EV_KEY::KEY_FN_F4.number() == 0x1d5,
        EV_KEY::KEY_FN_F5.number() == 0x1d6,
        EV_KEY::KEY_FN_F6.number() == 0x1d7,
        EV_KEY::KEY_FN_F7.number() == 0x1d8,
        EV_KEY::KEY_FN_F8.number() == 0x1d9,
        EV_KEY::KEY_FN_F9.number() == 0x1da,
        EV_KEY::KEY_FN_F10.number() == 0x1db,
        EV_KEY::KEY_FN_F11.number() == 0x1dc,
        EV_KEY::KEY_FN_F12.number() == 0x1dd,
        EV_KEY::KEY_FN_1.number() == 0x1de,
        EV_KEY::KEY_FN_2.number() == 0x1df,
        EV_KEY::KEY_FN_D.number() == 0x1e0,
        EV_KEY::KEY_FN_E.number() == 0x1e1,
        EV_KEY::KEY_FN_F.number() == 0x1e2,
        EV_KEY::KEY_FN_S.number() == 0x1e3,
        EV_KEY::KEY_FN_B.number() == 0x1e4,
        EV_KEY::KEY_FN_RIGHT_SHIFT.number() == 0x1e5,
        EV_KEY::KEY_BRL_DOT1.number() == 0x1f1,
        EV_KEY::KEY_BRL_DOT2.number() == 0x1f2,
        EV_KEY::KEY_BRL_DOT3.number() == 0x1f3,
        EV_KEY::KEY_BRL_DOT4.number() == 0x1f4,
        EV_KEY::KEY_BRL_DOT5.number() == 0x1f5,
        EV_KEY::KEY_BRL_DOT6.number() == 0x1f6,
        EV_KEY::KEY_BRL_DOT7.number() == 0x1f7,
        EV_KEY::KEY_BRL_DOT8.number() == 0x1f8,
        EV_KEY::KEY_BRL_DOT9.number() == 0x1f9,
        EV_KEY::KEY_BRL_DOT10.number() == 0x1fa,
{
    reveal(<EV_KEY as Numbered>::number);
}

/// A number from `0x100` to `0x1ff` names only the key that has this number.
proof fn lemma_key_named_1xx(x: EV_KEY, n: u32)
    requires
        key_named_1xx(n) == Some(x),
    ensures
        x.number() == n,
{
    lemma_key_numbers_1xx();
}

proof fn lemma_key_numbers_2xx()
    ensures
        EV_KEY::KEY_NUMERIC_0.number() == 0x200,
        EV_KEY::KEY_NUMERIC_1.number() == 0x201,
        EV_KEY::KEY_NUMERIC_2.number() == 0x202,
        EV_KEY::KEY_NUMERIC_3.number() == 0x203,
        EV_KEY::KEY_NUMERIC_4.number() == 0x204,
        EV_KEY::KEY_NUMERIC_5.number() == 0x205,
        EV_KEY::KEY_NUMERIC_6.number() == 0x206,
        EV_KEY::KEY_NUMERIC_7.number() == 0x207,
        EV_KEY::KEY_NUMERIC_8.number() == 0x208,
        EV_KEY::KEY_NUMERIC_9.number() == 0x209,
        EV_KEY::KEY_NUMERIC_STAR.number() == 0x20a,
        EV_KEY::KEY_NUMERIC_POUND.number() == 0x20b,
        EV_KEY::KEY_NUMERIC_A.number() == 0x20c,
        EV_KEY::KEY_NUMERIC_B.number() == 0x20d,
        EV_KEY::KEY_NUMERIC_C.number() == 0x20e,
        EV_KEY::KEY_NUMERIC_D.number() == 0x20f,
        EV_KEY::KEY_CAMERA_FOCUS.number() == 0x210,
        EV_KEY::KEY_WPS_BUTTON.number() == 0x211,
        EV_KEY::KEY_TOUCHPAD_TOGGLE.number() == 0x212,
        EV_KEY::KEY_TOUCHPAD_ON.number() == 0x213,
        EV_KEY::KEY_TOUCHPAD_OFF.number() == 0x214,
        EV_KEY::KEY_CAMERA_ZOOMIN.number() == 0x215,
        EV_KEY::KEY_CAMERA_ZOOMOUT.number() == 0x216,
        EV_KEY::KEY_CAMERA_UP.number() == 0x217,
        EV_KEY::KEY_CAMERA_DOWN.number() == 0x218,
        EV_KEY::KEY_CAMERA_LEFT.number() == 0x219,
        EV_KEY::KEY_CAMERA_RIGHT.number() == 0x21a,
        EV_KEY::KEY_ATTENDANT_ON.number() == 0x21b,
        EV_KEY::KEY_ATTENDANT_OFF.number() == 0x21c,
        EV_KEY::KEY_ATTENDANT_TOGGLE.number() == 0x21d,
        EV_KEY::KEY_LIGHTS_TOGGLE.number() == 0x21e,
        EV_KEY::BTN_DPAD_UP.number() == 0x220,
        EV_KEY::BTN_DPAD_DOWN.number() == 0x221,
        EV_KEY::BTN_DPAD_LEFT.number() == 0x222,
        EV_KEY::BTN_DPAD_RIGHT.number() == 0x223,
        EV_KEY::KEY_ALS_TOGGLE.number() == 0x230,
        EV_KEY::KEY_ROTATE_LOCK_TOGGLE.number() == 0x231,
        EV_KEY::KEY_REFRESH_RATE_TOGGLE.number() == 0x232,
        EV_KEY::KEY_BUTTONCONFIG.number() == 0x240,
        EV_KEY::KEY_TASKMANAGER.number() == 0x241,
        EV_KEY::KEY_JOURNAL.number() == 0x242,
        EV_KEY::KEY_CONTROLPANEL.number() == 0x243,
        EV_KEY::KEY_APPSELECT.number() == 0x244,
        EV_KEY::KEY_SCREENSAVER.number() == 0x245,
        EV_KEY::KEY_VOICECOMMAND.number() == 0x246,
        EV_KEY::KEY_ASSISTANT.number() == 0x247,
        EV_KEY::KEY_KBD_LAYOUT_NEXT.number() == 0x248,
        EV_KEY::KEY_EMOJI_PICKER.number() == 0x249,
        EV_KEY::KEY_DICTATE.number() == 0x24a,
        EV_KEY::KEY_BRIGHTNESS_MIN.number() == 0x250,
        EV_KEY::KEY_BRIGHTNESS_MAX.number() == 0x251,
        EV_KEY::KEY_KBDINPUTASSIST_PREV.number() == 0x260,
        EV_KEY::KEY_KBDINPUTASSIST_NEXT.number() == 0x261,
        EV_KEY::KEY_KBDINPUTASSIST_PREVGROUP.number() == 0x262,
        EV_KEY::KEY_KBDINPUTASSIST_NEXTGROUP.number() == 0x263,
        EV_KEY::KEY_KBDINPUTASSIST_ACCEPT.number() == 0x264,
        EV_KEY::KEY_KBDINPUTASSIST_CANCEL.number() == 0x265,
        EV_KEY::KEY_RIGHT_UP.number() == 0x266,
        EV_KEY::KEY_RIGHT_DOWN.number() == 0x267,
        EV_KEY::KEY_LEFT_UP.number() == 0x268,
        EV_KEY::KEY_LEFT_DOWN.number() == 0x269,
        EV_KEY::KEY_ROOT_MENU.number() == 0x26a,
        EV_KEY::KEY_MEDIA_TOP_MENU.number() == 0x26b,
        EV_KEY::KEY_NUMERIC_11.number() == 0x26c,
        EV_KEY::KEY_NUMERIC_12.number() == 0x26d,
        EV_KEY::KEY_AUDIO_DESC.number() == 0x26e,
        EV_KEY::KEY_3D_MODE.number() == 0x26f,
        EV_KEY::KEY_NEXT_FAVORITE.number() == 0x270,
        EV_KEY::KEY_STOP_RECORD.number() == 0x271,
        EV_KEY::KEY_PAUSE_RECORD.number() == 0x272,
        EV_KEY::KEY_VOD.number() == 0x273,
        EV_KEY::KEY_UNMUTE.number() == 0x274,
        EV_KEY::KEY_FASTREVERSE.number() == 0x275,
        EV_KEY::KEY_SLOWREVERSE.number() == 0x276,
        EV_KEY::KEY_DATA.number() == 0x277,
        EV_KEY::KEY_ONSCREEN_KEYBOARD.number() == 0x278,
        EV_KEY::KEY_PRIVACY_SCREEN_TOGGLE.number() == 0x279,
        EV_KEY::KEY_SELECTIVE_SCREENSHOT.number() == 0x27a,
        EV_KEY::KEY_NEXT_ELEMENT.number() == 0x27b,
        EV_KEY::KEY_PREVIOUS_ELEMENT.number() == 0x27c,
        EV_KEY::KEY_AUTOPILOT_ENGAGE_TOGGLE.number() == 0x27d,
        EV_KEY::KEY_MARK_WAYPOINT.number() == 0x27e,
        EV_KEY::KEY_SOS.number() == 0x27f,
        EV_KEY::KEY_NAV_CHART.number() == 0x280,
        EV_KEY::KEY_FISHING_CHART.number() == 0x281,
        EV_KEY::KEY_SINGLE_RANGE_RADAR.number() == 0x282,
        EV_KEY::KEY_DUAL_RANGE_RADAR.number() == 0x283,
        EV_KEY::KEY_RADAR_OVERLAY.number() == 0x284,
        EV_KEY::KEY_TRADITIONAL_SONAR.number() == 0x285,
        EV_KEY::KEY_CLEARVU_SONAR.number() == 0x286,
        EV_KEY::KEY_SIDEVU_SONAR.number() == 0x287,
        EV_KEY::KEY_NAV_INFO.number() == 0x288,
        EV_KEY::KEY_BRIGHTNESS_MENU.number() == 0x289,
        EV_KEY::KEY_MACRO1.number() == 0x290,
        EV_KEY::KEY_MACRO2.number() == 0x291,
        EV_KEY::KEY_MACRO3.number() == 0x292,
        EV_KEY::KEY_MACRO4.number() == 0x293,
        EV_KEY::KEY_MACRO5.number() == 0x294,
        EV_KEY::KEY_MACRO6.number() == 0x295,
        EV_KEY::KEY_MACRO7.number() == 0x296,
        EV_KEY::KEY_MACRO8.number() == 0x297,
        EV_KEY::KEY_MACRO9.number() == 0x298,
        EV_KEY::KEY_MACRO10.number() == 0x299,
        EV_KEY::KEY_MACRO11.number() == 0x29a,
        EV_KEY::KEY_MACRO12.number() == 0x29b,
        EV_KEY::KEY_MACRO13.number() == 0x29c,
        EV_KEY::KEY_MACRO14.number() == 0x29d,
        EV_KEY::KEY_MACRO15.number() == 0x29e,
        EV_KEY::KEY_MACRO16.number() == 0x29f,
        EV_KEY::KEY_MACRO17.number() == 0x2a0,
        EV_KEY::KEY_MACRO18.number() == 0x2a1,
        EV_KEY::KEY_MACRO19.number() == 0x2a2,
        EV_KEY::KEY_MACRO20.number() == 0x2a3,
        EV_KEY::KEY_MACRO21.number() == 0x2a4,
        EV_KEY::KEY_MACRO22.number() == 0x2a5,
        EV_KEY::KEY_MACRO23.number() == 0x2a6,
        EV_KEY::KEY_MACRO24.number() == 0x2a7,
        EV_KEY::KEY_MACRO25.number() == 0x2a8,
        EV_KEY::KEY_MACRO26.number() == 0x2a9,
        EV_KEY::KEY_MACRO27.number() == 0x2aa,
        EV_KEY::KEY_MACRO28.number() == 0x2ab,
        EV_KEY::KEY_MACRO29.number() == 0x2ac,
        EV_KEY::KEY_MACRO30.number() == 0x2ad,
        EV_KEY::KEY_MACRO_RECORD_START.number() == 0x2b0,
        EV_KEY::KEY_MACRO_RECORD_STOP.number() == 0x2b1,
        EV_KEY::KEY_MACRO_PRESET_CYCLE.number() == 0x2b2,
        EV_KEY::KEY_MACRO_PRESET1.number() == 0x2b3,
        EV_KEY::KEY_MACRO_PRESET2.number() == 0x2b4,
        EV_KEY::KEY_MACRO_PRESET3.number() == 0x2b5,
        EV_KEY::KEY_KBD_LCD_MENU1.number() == 0x2b8,
        EV_KEY::KEY_KBD_LCD_MENU2.number() == 0x2b9,
        EV_KEY::KEY_KBD_LCD_MENU3.number() == 0x2ba,
        EV_KEY::KEY_KBD_LCD_MENU4.number() == 0x2bb,
        EV_KEY::KEY_KBD_LCD_MENU5.number() == 0x2bc,
        EV_KEY::BTN_TRIGGER_HAPPY1.number() == 0x2c0,
        EV_KEY::BTN_TRIGGER_HAPPY2.number() == 0x2c1,
        EV_KEY::BTN_TRIGGER_HAPPY3.number() == 0x2c2,
        EV_KEY::BTN_TRIGGER_HAPPY4.number() == 0x2c3,
        EV_KEY::BTN_TRIGGER_HAPPY5.number() == 0x2c4,
        EV_KEY::BTN_TRIGGER_HAPPY6.number() == 0x2c5,
        EV_KEY::BTN_TRIGGER_HAPPY7.number() == 0x2c6,
        EV_KEY::BTN_TRIGGER_HAPPY8.number() == 0x2c7,
        EV_KEY::BTN_TRIGGER_HAPPY9.number() == 0x2c8,
        EV_KEY::BTN_TRIGGER_HAPPY10.number() == 0x2c9,
        EV_KEY::BTN_TRIGGER_HAPPY11.number() == 0x2ca,
        EV_KEY::BTN_TRIGGER_HAPPY12.number() == 0x2cb,
        EV_KEY::BTN_TRIGGER_HAPPY13.number() == 0x2cc,
        EV_KEY::BTN_TRIGGER_HAPPY14.number() == 0x2cd,
        EV_KEY::BTN_TRIGGER_HAPPY15.number() == 0x2ce,
        EV_KEY::BTN_TRIGGER_HAPPY16.number() == 0x2cf,
        EV_KEY::BTN_TRIGGER_HAPPY17.number() == 0x2d0,
        EV_KEY::BTN_TRIGGER_HAPPY18.number() == 0x2d1,
        EV_KEY::BTN_TRIGGER_HAPPY19.number() == 0x2d2,
        EV_KEY::BTN_TRIGGER_HAPPY20.number() == 0x2d3,
        EV_KEY::BTN_TRIGGER_HAPPY21.number() == 0x2d4,
        EV_KEY::BTN_TRIGGER_HAPPY22.number() == 0x2d5,
        EV_KEY::BTN_TRIGGER_HAPPY23.number() == 0x2d6,
        EV_KEY::BTN_TRIGGER_HAPPY24.number() == 0x2d7,
        EV_KEY::BTN_TRIGGER_HAPPY25.number() == 0x2d8,
        EV_KEY::BTN_TRIGGER_HAPPY26.number() == 0x2d9,
        EV_KEY::BTN_TRIGGER_HAPPY27.number() == 0x2da,
        EV_KEY::BTN_TRIGGER_HAPPY28.number() == 0x2db,
        EV_KEY::BTN_TRIGGER_HAPPY29.number() == 0x2dc,
        EV_KEY::BTN_TRIGGER_HAPPY30.number() == 0x2dd,
        EV_KEY::BTN_TRIGGER_HAPPY31.number() == 0x2de,
        EV_KEY::BTN_TRIGGER_HAPPY32.number() == 0x2df,
        EV_KEY::BTN_TRIGGER_HAPPY33.number() == 0x2e0,
        EV_KEY::BTN_TRIGGER_HAPPY34.number() == 0x2e1,
        EV_KEY::BTN_TRIGGER_HAPPY35.number() == 0x2e2,
        EV_KEY::BTN_TRIGGER_HAPPY36.number() == 0x2e3,
        EV_KEY::BTN_TRIGGER_HAPPY37.number() == 0x2e4,
        EV_KEY::BTN_TRIGGER_HAPPY38.number() == 0x2e5,
        EV_KEY::BTN_TRIGGER_HAPPY39.number() == 0x2e6,
        EV_KEY::BTN_TRIGGER_HAPPY40.number() == 0x2e7,
        EV_KEY::KEY_MAX.number() == 0x2ff,
{
    reveal(<EV_KEY as Numbered>::number);
}

/// A number from `0x200` names only the key that has this number.
proof fn lemma_key_named_2xx(x: EV_KEY, n: u32)
    requires
        key_named_2xx(n) == Some(x),
    ensures
        x.number() == n,
{
    lemma_key_numbers_2xx();
}

} // verus!
