//! Types shared by the channel flavours: what a read yields, what a failed
//! send hands back, and the outcome of a poll.
use vstd::prelude::*;

verus! {

/// One message delivered by the receiver, tagged with whether any message
/// was discarded between the previous read and this one.
#[derive(Clone, Copy, PartialEq, PartialOrd, Eq, Ord, Debug, Hash)]
pub enum Item<T> {
    /// No message was lost since the previous read.
    Next(T),
    /// At least one message was discarded since the previous read.
    Overrun(T),
}

impl<T> Item<T> {
    /// The message carried, whatever the tag.
    pub open spec fn value(self) -> T {
        match self {
            Item::Next(x) => x,
            Item::Overrun(x) => x,
        }
    }

    /// Unwraps the message, for callers that do not care about losses.
    pub fn into_inner(self) -> (r: T)
        ensures
            r == self.value(),
    {
        match self {
            Item::Next(x) => x,
            Item::Overrun(x) => x,
        }
    }
}

/// The error of a send on a channel whose receiver is gone; it hands the
/// message back to the caller.
pub struct SendError<T>(pub(crate) T);

impl<T> SendError<T> {
    /// The message that could not be delivered.
    pub closed spec fn value(&self) -> T {
        self.0
    }

    /// The error for a send of `msg` that failed.
    pub(crate) fn new(msg: T) -> (r: Self)
        ensures
            r.value() == msg,
    {
        SendError(msg)
    }

    /// Returns the message that was attempted to be sent but failed.
    pub fn into_inner(self) -> (r: T)
        ensures
            r == self.value(),
    {
        self.0
    }

    /// A short description of the failure.
    pub fn description(&self) -> (r: &'static str)
        ensures
            r@ == "send failed because receiver is gone"@,
    {
        let r = "send failed because receiver is gone";
        proof {
            reveal_strlit("send failed because receiver is gone");
        }
        r
    }
}

/// The outcome of one poll of a stream: a value, or a promise that the
/// caller's task will be woken once one is available.
#[derive(Clone, Copy, PartialEq, Eq, Debug, Hash)]
pub enum Async<T> {
    /// A value is available.
    Ready(T),
    /// Nothing yet; the caller's wake handle was registered.
    NotReady,
}

} // verus!
