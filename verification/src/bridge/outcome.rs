use vstd::prelude::*;

verus! {

/// What a channel answered to an attempt to send without waiting.
#[derive(Debug)]
pub enum SendOutcome<M> {
    /// The message is in the queue.
    Queued,
    /// The queue is full; the message comes back.
    Full(M),
    /// The receiving half is gone or closed; the message comes back.
    Closed(M),
}

/// What a channel answered to an attempt to receive without waiting.
#[derive(Debug)]
pub enum RecvOutcome<M> {
    /// The oldest queued message.
    Message(M),
    /// Nothing is queued, but a sender is still there.
    Empty,
    /// Nothing is queued, and no sender is left.
    Disconnected,
}

impl<M> SendOutcome<M> {
    /// The message that came back, if one did.
    pub open spec fn returned(self) -> Option<M> {
        match self {
            SendOutcome::Queued => None,
            SendOutcome::Full(m) => Some(m),
            SendOutcome::Closed(m) => Some(m),
        }
    }

    /// Whether the message is in the queue.
    pub fn is_queued(&self) -> (queued: bool)
        ensures
            queued == (*self is Queued),
            queued == (self.returned() is None),
    {
        match self {
            SendOutcome::Queued => true,
            _ => false,
        }
    }

    /// The message that came back, if one did.
    pub fn into_returned(self) -> (message: Option<M>)
        ensures
            message == self.returned(),
    {
        match self {
            SendOutcome::Queued => None,
            SendOutcome::Full(m) => Some(m),
            SendOutcome::Closed(m) => Some(m),
        }
    }
}

impl<M> RecvOutcome<M> {
    /// The message, if one was queued. An empty queue and a closed channel
    /// both give none.
    pub fn into_message(self) -> (message: Option<M>)
        ensures
            message == (match self {
                RecvOutcome::Message(m) => Some(m),
                _ => None,
            }),
    {
        match self {
            RecvOutcome::Message(m) => Some(m),
            _ => None,
        }
    }

    /// Whether the channel has ended: nothing is queued and nothing can
    /// come any more.
    pub fn is_closed(&self) -> (closed: bool)
        ensures
            closed == (*self is Disconnected),
    {
        match self {
            RecvOutcome::Disconnected => true,
            _ => false,
        }
    }
}

} // verus!
