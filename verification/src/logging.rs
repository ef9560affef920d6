//! The levels of the C library's log.

use crate::raw;
use vstd::prelude::*;

verus! {

/// How much the C library writes to its log: messages of this level and of
/// the more severe ones.
#[derive(Clone, Copy, Debug, PartialEq, Eq, Structural)]
pub enum LogPriority {
    /// critical errors and application bugs
    Error,
    /// informational messages
    Info,
    /// debug information
    Debug,
}

impl LogPriority {
    /// The number the C library knows this level by.
    pub open spec fn number(self) -> i32 {
        match self {
            LogPriority::Error => raw::LIBEVDEV_LOG_ERROR,
            LogPriority::Info => raw::LIBEVDEV_LOG_INFO,
            LogPriority::Debug => raw::LIBEVDEV_LOG_DEBUG,
        }
    }

    /// The number the C library knows this level by.
    pub fn as_raw(&self) -> (n: i32)
        ensures
            n == self.number(),
    {
        match self {
            LogPriority::Error => raw::LIBEVDEV_LOG_ERROR,
            LogPriority::Info => raw::LIBEVDEV_LOG_INFO,
            LogPriority::Debug => raw::LIBEVDEV_LOG_DEBUG,
        }
    }

    /// The level with the given number; `None` where no level has it.
    pub fn from_raw(priority: i32) -> (r: Option<LogPriority>)
        ensures
            r matches Some(p) ==> p.number() == priority,
            r is None ==> forall|p: LogPriority| p.number() != priority,
    {
        if priority == raw::LIBEVDEV_LOG_ERROR {
            Some(LogPriority::Error)
        } else if priority == raw::LIBEVDEV_LOG_INFO {
            Some(LogPriority::Info)
        } else if priority == raw::LIBEVDEV_LOG_DEBUG {
            Some(LogPriority::Debug)
        } else {
            None
        }
    }
}

} // verus!
