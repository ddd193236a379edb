//! The message queue the backend reports progress on: what the results of
//! the queue calls mean.
use vstd::prelude::*;
use vstd::utf8::valid_utf8;
use vstd::utf8::decode_utf8;
use crate::error::WizardError;
use crate::text;

verus! {

/// The capacity of a queue message's text, in bytes.
pub const MSG_TEXT_LEN: usize = 1024;

/// The project identifier the queue key is derived with, from the backend's
/// path.
pub const PROJECT_ID: i32 = 65;

/// An open message queue.
pub struct Ipc {
    msgid: i32,
}

impl Ipc {
    /// The queue with identifier `msgid`.
    pub fn new(msgid: i32) -> (r: Ipc)
        ensures
            r.id() == msgid,
    {
        Ipc { msgid }
    }

    /// The identifier of the queue.
    pub closed spec fn id(&self) -> i32 {
        self.msgid
    }

    /// The identifier of the queue.
    pub fn get_msgid(&self) -> (r: i32)
        ensures
            r == self.id(),
    {
        self.msgid
    }
}

/// The permission bits the queue is opened with, together with `flags`.
pub fn queue_flags(flags: i32) -> (r: i32)
    ensures
        r == (438i32 | flags),
{
    438i32 | flags
}

/// The outcome of a call that returns an identifier or key: `-1` reports a
/// failure, any other value is the result.
pub fn id_result(ret: i32) -> (r: Result<i32, WizardError>)
    ensures
        ret == -1 ==> r == Err::<i32, WizardError>(WizardError::BackendUnavailable),
        ret != -1 ==> r == Ok::<i32, WizardError>(ret),
{
    if ret == -1 {
        Err(WizardError::BackendUnavailable)
    } else {
        Ok(ret)
    }
}

/// A received message: `ret` is what the receive call returned (`-1` on
/// failure, else the length of the text) and `buf` the message text buffer.
/// The text must be UTF-8.
pub fn decode_message(ret: isize, buf: &[u8]) -> (r: Result<String, WizardError>)
    requires
        -1 <= ret <= buf@.len(),
    ensures
        ret == -1 ==> r == Err::<String, WizardError>(WizardError::ReceiveFailed),
        ret >= 0 && !valid_utf8(buf@.take(ret as int)) ==> r == Err::<String, WizardError>(
            WizardError::InvalidUtf8,
        ),
        ret >= 0 && valid_utf8(buf@.take(ret as int)) ==> (r matches Ok(s) && s@ == decode_utf8(
            buf@.take(ret as int),
        )),
{
    if ret == -1 {
        return Err(WizardError::ReceiveFailed);
    }
    let len = ret as usize;
    let bytes = vstd::slice::slice_subrange(buf, 0, len);
    assert(bytes@ =~= buf@.take(ret as int));
    match text::from_utf8(bytes) {
        Some(s) => Ok(s),
        None => Err(WizardError::InvalidUtf8),
    }
}

} // verus!
