use vstd::prelude::*;

verus! {

/// Every failure a channel consumer can observe.
///
/// `Disconnected` means the session or a stream backing the handle is gone;
/// `ChannelClosed` and `ChannelEof` are terminal channel states;
/// `BadOperation` marks a handle that was already neutered (used after close
/// or cancel); `BadMessage` marks a message variant that the caller could not
/// accept; `ChannelReceiverIsNone` marks a receive attempted after the
/// message stream was detached.
#[derive(Debug, Clone, Copy, PartialEq, Eq)]
pub enum Error {
    Disconnected,
    ChannelClosed,
    ChannelEof,
    BadOperation { detail: &'static str },
    BadMessage { tip: &'static str },
    ChannelReceiverIsNone,
}

pub type Result<T> = core::result::Result<T, Error>;

} // verus!
