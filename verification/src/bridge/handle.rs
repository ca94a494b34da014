use vstd::prelude::*;
use vstd::string::*;
use crate::bridge::channel::{
    bounded_channel,
    send_unbounded,
    try_recv_bounded,
    try_recv_unbounded,
    try_send_bounded,
    unbounded_channel,
};
use crate::bridge::outcome::{RecvOutcome, SendOutcome};
use crate::bridge::message::{MessageToBackend, MessageToFrontend, Notification, NotificationType};

verus! {

/// Number of messages that a bounded direction of the bridge holds.
pub const CHANNEL_CAPACITY: usize = 64;

/// What a bridge does when more is sent than its queue holds. It is chosen
/// once, when the pair is made.
#[derive(Clone, Copy, Debug, PartialEq, Eq, Structural)]
pub enum OverflowPolicy {
    /// The queues hold `CHANNEL_CAPACITY` messages; a send to a full queue
    /// is a defect of the program, which must stop at once.
    Abort,
    /// The queues grow without bound; no send finds one full.
    Grow,
}

/// Sending half of the direction towards the worker.
#[derive(Debug)]
pub enum BackendOutbox {
    Bounded(tokio::sync::mpsc::Sender<MessageToBackend>),
    Unbounded(tokio::sync::mpsc::UnboundedSender<MessageToBackend>),
}

/// Receiving half of the direction towards the worker.
#[derive(Debug)]
pub enum BackendInbox {
    Bounded(tokio::sync::mpsc::Receiver<MessageToBackend>),
    Unbounded(tokio::sync::mpsc::UnboundedReceiver<MessageToBackend>),
}

/// Sending half of the direction towards the user interface.
#[derive(Debug)]
pub enum FrontendOutbox {
    Bounded(tokio::sync::mpsc::Sender<MessageToFrontend>),
    Unbounded(tokio::sync::mpsc::UnboundedSender<MessageToFrontend>),
}

/// Receiving half of the direction towards the user interface.
#[derive(Debug)]
pub enum FrontendInbox {
    Bounded(tokio::sync::mpsc::Receiver<MessageToFrontend>),
    Unbounded(tokio::sync::mpsc::UnboundedReceiver<MessageToFrontend>),
}

/// The worker's end of the bridge: what the user interface has sent.
#[derive(Debug)]
pub struct BackendReceiver {
    pub receiver: BackendInbox,
}

/// The user interface's end of the bridge: what the worker has sent.
#[derive(Debug)]
pub struct FrontendReceiver {
    pub receiver: FrontendInbox,
}

/// A handle that sends to the worker. It can be cloned; all clones feed
/// the same queue.
#[derive(Debug)]
pub struct BackendHandle {
    sender: BackendOutbox,
}

/// A handle that sends to the user interface. It can be cloned; all clones
/// feed the same queue.
#[derive(Debug)]
pub struct FrontendHandle {
    sender: FrontendOutbox,
}

/// Whether a send towards the worker that ended in `outcome` must stop
/// the program: under `Abort` every message that was not queued does,
/// under `Grow` none.
pub open spec fn backend_send_fatal(
    policy: OverflowPolicy,
    outcome: SendOutcome<MessageToBackend>,
) -> bool {
    policy == OverflowPolicy::Abort && !(outcome is Queued)
}

/// Whether a send towards the user interface that ended in `outcome` must
/// stop the program: only a full queue does. A message for a user
/// interface that is gone is dropped.
pub open spec fn frontend_send_fatal(outcome: SendOutcome<MessageToFrontend>) -> bool {
    outcome is Full
}

/// The two directions of a bridge: what the worker reads and the handle
/// that feeds it, what the user interface reads and the handle that feeds
/// it. All four ends follow `policy`.
pub fn create_pair(policy: OverflowPolicy) -> (ends: (
    BackendReceiver,
    BackendHandle,
    FrontendReceiver,
    FrontendHandle,
))
    ensures
        ends.0.policy() == policy,
        ends.1.policy() == policy,
        ends.2.policy() == policy,
        ends.3.policy() == policy,
{
    match policy {
        OverflowPolicy::Abort => {
            let (frontend_send, frontend_recv) = bounded_channel::<MessageToFrontend>(
                CHANNEL_CAPACITY,
            );
            let (backend_send, backend_recv) = bounded_channel::<MessageToBackend>(
                CHANNEL_CAPACITY,
            );
            (
                BackendReceiver { receiver: BackendInbox::Bounded(backend_recv) },
                BackendHandle { sender: BackendOutbox::Bounded(backend_send) },
                FrontendReceiver { receiver: FrontendInbox::Bounded(frontend_recv) },
                FrontendHandle { sender: FrontendOutbox::Bounded(frontend_send) },
            )
        },
        OverflowPolicy::Grow => {
            let (frontend_send, frontend_recv) = unbounded_channel::<MessageToFrontend>();
            let (backend_send, backend_recv) = unbounded_channel::<MessageToBackend>();
            (
                BackendReceiver { receiver: BackendInbox::Unbounded(backend_recv) },
                BackendHandle { sender: BackendOutbox::Unbounded(backend_send) },
                FrontendReceiver { receiver: FrontendInbox::Unbounded(frontend_recv) },
                FrontendHandle { sender: FrontendOutbox::Unbounded(frontend_send) },
            )
        },
    }
}

impl Clone for BackendHandle {
    /// One more handle for the same queue, with the same policy.
    fn clone(&self) -> (copy: Self)
        ensures
            copy.policy() == self.policy(),
    {
        match &self.sender {
            BackendOutbox::Bounded(sender) => BackendHandle {
                sender: BackendOutbox::Bounded(sender.clone()),
            },
            BackendOutbox::Unbounded(sender) => BackendHandle {
                sender: BackendOutbox::Unbounded(sender.clone()),
            },
        }
    }
}

impl Clone for FrontendHandle {
    /// One more handle for the same queue, with the same policy.
    fn clone(&self) -> (copy: Self)
        ensures
            copy.policy() == self.policy(),
    {
        match &self.sender {
            FrontendOutbox::Bounded(sender) => FrontendHandle {
                sender: FrontendOutbox::Bounded(sender.clone()),
            },
            FrontendOutbox::Unbounded(sender) => FrontendHandle {
                sender: FrontendOutbox::Unbounded(sender.clone()),
            },
        }
    }
}

impl BackendReceiver {
    /// The policy that this end was made with.
    pub open spec fn policy(&self) -> OverflowPolicy {
        match self.receiver {
            BackendInbox::Bounded(_) => OverflowPolicy::Abort,
            BackendInbox::Unbounded(_) => OverflowPolicy::Grow,
        }
    }

    /// What the queue holds right now, without waiting: its oldest
    /// message, or word that it is empty, or that it has ended.
    pub fn poll(&mut self) -> (outcome: RecvOutcome<MessageToBackend>)
        ensures
            final(self).policy() == old(self).policy(),
    {
        match &mut self.receiver {
            BackendInbox::Bounded(receiver) => try_recv_bounded(receiver),
            BackendInbox::Unbounded(receiver) => try_recv_unbounded(receiver),
        }
    }
}

impl FrontendReceiver {
    /// The policy that this end was made with.
    pub open spec fn policy(&self) -> OverflowPolicy {
        match self.receiver {
            FrontendInbox::Bounded(_) => OverflowPolicy::Abort,
            FrontendInbox::Unbounded(_) => OverflowPolicy::Grow,
        }
    }

    /// What the queue holds right now, without waiting: its oldest
    /// message, or word that it is empty, or that it has ended.
    pub fn poll(&mut self) -> (outcome: RecvOutcome<MessageToFrontend>)
        ensures
            final(self).policy() == old(self).policy(),
    {
        match &mut self.receiver {
            FrontendInbox::Bounded(receiver) => try_recv_bounded(receiver),
            FrontendInbox::Unbounded(receiver) => try_recv_unbounded(receiver),
        }
    }

    /// Takes at most one message that is already queued, without waiting.
    pub fn try_recv(&mut self) -> (message: Option<MessageToFrontend>)
        ensures
            final(self).policy() == old(self).policy(),
    {
        self.poll().into_message()
    }
}

impl BackendHandle {
    /// The policy that this handle was made with.
    pub closed spec fn policy(&self) -> OverflowPolicy {
        match self.sender {
            BackendOutbox::Bounded(_) => OverflowPolicy::Abort,
            BackendOutbox::Unbounded(_) => OverflowPolicy::Grow,
        }
    }

    /// Hands `message` to the queue without waiting, and says what became
    /// of it. A message that was not queued comes back unchanged, and only
    /// a bounded queue is ever found full.
    pub fn send(&self, message: MessageToBackend) -> (outcome: SendOutcome<MessageToBackend>)
        ensures
            outcome is Full ==> self.policy() == OverflowPolicy::Abort,
            outcome.returned() is Some ==> outcome.returned() == Some(message),
    {
        match &self.sender {
            BackendOutbox::Bounded(sender) => try_send_bounded(sender, message),
            BackendOutbox::Unbounded(sender) => send_unbounded(sender, message),
        }
    }

    /// Whether the program must stop after a send that ended in `outcome`.
    pub fn is_fatal(&self, outcome: &SendOutcome<MessageToBackend>) -> (fatal: bool)
        ensures
            fatal == backend_send_fatal(self.policy(), *outcome),
    {
        match &self.sender {
            BackendOutbox::Bounded(_) => !outcome.is_queued(),
            BackendOutbox::Unbounded(_) => false,
        }
    }
}

impl FrontendHandle {
    /// The policy that this handle was made with.
    pub closed spec fn policy(&self) -> OverflowPolicy {
        match self.sender {
            FrontendOutbox::Bounded(_) => OverflowPolicy::Abort,
            FrontendOutbox::Unbounded(_) => OverflowPolicy::Grow,
        }
    }

    /// Hands `message` to the queue without waiting, and says what became
    /// of it. A message that was not queued comes back unchanged, and only
    /// a bounded queue is ever found full.
    pub fn send(&self, message: MessageToFrontend) -> (outcome: SendOutcome<MessageToFrontend>)
        ensures
            outcome is Full ==> self.policy() == OverflowPolicy::Abort,
            outcome.returned() is Some ==> outcome.returned() == Some(message),
    {
        match &self.sender {
            FrontendOutbox::Bounded(sender) => try_send_bounded(sender, message),
            FrontendOutbox::Unbounded(sender) => send_unbounded(sender, message),
        }
    }

    /// Whether the program must stop after a send that ended in `outcome`.
    pub fn is_fatal(&self, outcome: &SendOutcome<MessageToFrontend>) -> (fatal: bool)
        ensures
            fatal == frontend_send_fatal(*outcome),
            fatal ==> outcome is Full,
    {
        match outcome {
            SendOutcome::Full(_) => true,
            _ => false,
        }
    }

    /// Sends a notification of the given kind.
    pub fn notify(&self, kind: NotificationType, text: String) -> (outcome: SendOutcome<
        MessageToFrontend,
    >)
        ensures
            outcome is Full ==> self.policy() == OverflowPolicy::Abort,
            outcome.returned() matches Some(m) ==> m@ == (Notification { kind, text: text@ }),
    {
        self.send(MessageToFrontend::notification(kind, text))
    }

    pub fn send_info(&self, info: String) -> (outcome: SendOutcome<MessageToFrontend>)
        ensures
            outcome is Full ==> self.policy() == OverflowPolicy::Abort,
            outcome.returned() matches Some(m) ==> m@ == (Notification {
                kind: NotificationType::Info,
                text: info@,
            }),
    {
        self.notify(NotificationType::Info, info)
    }

    pub fn send_success(&self, success: String) -> (outcome: SendOutcome<MessageToFrontend>)
        ensures
            outcome is Full ==> self.policy() == OverflowPolicy::Abort,
            outcome.returned() matches Some(m) ==> m@ == (Notification {
                kind: NotificationType::Success,
                text: success@,
            }),
    {
        self.notify(NotificationType::Success, success)
    }

    pub fn send_warning(&self, warning: String) -> (outcome: SendOutcome<MessageToFrontend>)
        ensures
            outcome is Full ==> self.policy() == OverflowPolicy::Abort,
            outcome.returned() matches Some(m) ==> m@ == (Notification {
                kind: NotificationType::Warning,
                text: warning@,
            }),
    {
        self.notify(NotificationType::Warning, warning)
    }

    pub fn send_error(&self, error: String) -> (outcome: SendOutcome<MessageToFrontend>)
        ensures
            outcome is Full ==> self.policy() == OverflowPolicy::Abort,
            outcome.returned() matches Some(m) ==> m@ == (Notification {
                kind: NotificationType::Error,
                text: error@,
            }),
    {
        self.notify(NotificationType::Error, error)
    }
}

} // verus!
