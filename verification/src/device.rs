//! What the calls on a device hand to the C library and what they make of
//! its answers.
//!
//! The calls themselves need a handle of the C library and are not made
//! here. Each function below is one reading of an answer: it takes the
//! plain numbers that came back and says what they mean.

use crate::enums::EventType;
use crate::raw;
use crate::{InputEvent, ReadStatus};
use vstd::prelude::*;

verus! {

/// An error of the standard library. It is handed on as it is made: nothing
/// here looks inside.
#[verifier::external_type_specification]
#[verifier::external_body]
pub struct ExIoError(std::io::Error);

/// An error number of the `nix` crate. It is handed on as it is made:
/// nothing here looks inside.
#[verifier::external_type_specification]
#[verifier::external_body]
pub struct ExErrno(nix::errno::Errno);

/// The error that `std::io::Error::from_raw_os_error` makes of the number
/// of an error of the operating system.
pub uninterp spec fn os_error(code: i32) -> std::io::Error;

/// The value that `nix::errno::Errno::from_raw` gives for a number, on the
/// platform that this crate is built for: the error that has this number
/// there, or, where none has it, `Errno::UnknownErrno`.
pub uninterp spec fn errno_of(raw: i32) -> nix::errno::Errno;

/// Calls `std::io::Error::from_raw_os_error`. The contract says only that
/// the error depends on the number alone.
#[verifier::external_body]
fn io_error_from_raw(code: i32) -> (e: std::io::Error)
    ensures
        e == os_error(code),
{
    std::io::Error::from_raw_os_error(code)
}

/// Calls `nix::errno::Errno::from_raw`. The contract says only that the
/// value depends on the number alone.
#[verifier::external_body]
fn errno_from_raw(raw: i32) -> (e: nix::errno::Errno)
    ensures
        e == errno_of(raw),
{
    nix::errno::Errno::from_raw(raw)
}

/// Reads a status: 0 for success, else the negated number of an error.
pub fn status_to_result(status: i32) -> (r: Result<(), std::io::Error>)
    requires
        status != i32::MIN,
    ensures
        status == 0 ==> r == Ok::<(), std::io::Error>(()),
        status != 0 ==> r == Err::<(), std::io::Error>(os_error((-status) as i32)),
{
    match status {
        0 => Ok(()),
        error => Err(io_error_from_raw(-error)),
    }
}

/// What a read of the next event came to.
///
/// A status of `LIBEVDEV_READ_STATUS_SUCCESS` or `LIBEVDEV_READ_STATUS_SYNC`
/// gives the event that was read, with this status; every other status is
/// the negated number of an error.
pub open spec fn read_outcome(status: i32, ev: raw::input_event) -> Result<
    (ReadStatus, InputEvent),
    std::io::Error,
> {
    if status == raw::LIBEVDEV_READ_STATUS_SUCCESS {
        Ok((ReadStatus::Success, InputEvent::of_raw(ev)))
    } else if status == raw::LIBEVDEV_READ_STATUS_SYNC {
        Ok((ReadStatus::Sync, InputEvent::of_raw(ev)))
    } else {
        Err(os_error((-status) as i32))
    }
}

/// Reads the answer to a read of the next event: the status, and the
/// record that the C library filled in (or left as it was, on an error).
pub fn next_event_result(status: i32, ev: &raw::input_event) -> (r: Result<
    (ReadStatus, InputEvent),
    std::io::Error,
>)
    requires
        status != i32::MIN,
        EventType::named(ev.type_ as u32) is Some,
    ensures
        r == read_outcome(status, *ev),
{
    let event = InputEvent::from_raw(ev);
    if status == raw::LIBEVDEV_READ_STATUS_SUCCESS {
        Ok((ReadStatus::Success, event))
    } else if status == raw::LIBEVDEV_READ_STATUS_SYNC {
        Ok((ReadStatus::Sync, event))
    } else {
        Err(io_error_from_raw(-status))
    }
}

/// Reads the answer to a fetch of a value: `valid` is 0 where the device
/// has no such value, and then `value` means nothing.
pub fn fetched_value(valid: i32, value: i32) -> (r: Option<i32>)
    ensures
        valid == 0 ==> r is None,
        valid != 0 ==> r == Some(value),
{
    match valid {
        0 => None,
        _ => Some(value),
    }
}

/// Reads a count or an index that is -1 where there is none: the number of
/// slots, the current slot, the greatest code of an event type.
pub fn some_unless_minus_one(result: i32) -> (r: Option<i32>)
    ensures
        result == -1 ==> r is None,
        result != -1 ==> r == Some(result),
{
    match result {
        -1 => None,
        k => Some(k),
    }
}

/// Reads one field of an absolute axis. The C library gives 0 both for a
/// field that is 0 and for an axis that the device does not have, so 0 is
/// an error here: the one that `nix` has for the number 0.
pub fn abs_field(result: i32) -> (r: Result<i32, nix::errno::Errno>)
    ensures
        result == 0 ==> r == Err::<i32, nix::errno::Errno>(errno_of(0)),
        result != 0 ==> r == Ok::<i32, nix::errno::Errno>(result),
{
    match result {
        0 => Err(errno_from_raw(0)),
        k => Ok(k),
    }
}

} // verus!
