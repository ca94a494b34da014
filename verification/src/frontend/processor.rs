use vstd::prelude::*;
use vstd::string::*;
use crate::bridge::handle::BackendHandle;
use crate::bridge::message::{MessageToFrontend, Notification, NotificationType};

verus! {

/// What a notification on screen says, as plain values.
pub ghost struct ToastView {
    pub kind: NotificationType,
    pub text: Seq<char>,
    pub autohide: bool,
}

/// A notification as the window shows it.
#[derive(Debug, Clone)]
pub struct Toast {
    pub kind: NotificationType,
    pub message: String,
    /// Whether the notification goes away by itself.
    pub autohide: bool,
}

impl View for Toast {
    type V = ToastView;

    open spec fn view(&self) -> ToastView {
        ToastView { kind: self.kind, text: self.message@, autohide: self.autohide }
    }
}

/// How a notification is shown: with its kind and text, and staying on
/// screen until dismissed if it is an error.
pub open spec fn toast_for(notification: Notification) -> ToastView {
    ToastView {
        kind: notification.kind,
        text: notification.text,
        autohide: notification.kind != NotificationType::Error,
    }
}

/// What a sequence of messages says.
pub open spec fn notifications_of(messages: Seq<MessageToFrontend>) -> Seq<Notification> {
    Seq::new(messages.len(), |i: int| messages[i]@)
}

/// What a sequence of toasts says.
pub open spec fn toasts_of(toasts: Seq<Toast>) -> Seq<ToastView> {
    Seq::new(toasts.len(), |i: int| toasts[i]@)
}

/// The toasts for a sequence of notifications, one for each, in order.
pub open spec fn toasts_for(notifications: Seq<Notification>) -> Seq<ToastView> {
    Seq::new(notifications.len(), |i: int| toast_for(notifications[i]))
}

/// Whether a notification of this kind goes away by itself: all do but
/// errors.
pub fn autohides(kind: NotificationType) -> (autohide: bool)
    ensures
        autohide == (kind != NotificationType::Error),
{
    match kind {
        NotificationType::Error => false,
        _ => true,
    }
}

/// The toast that shows `message`.
pub fn toast_of(message: &MessageToFrontend) -> (toast: Toast)
    ensures
        toast@ == toast_for(message@),
{
    match message {
        MessageToFrontend::AddNotification { notification_type, message } => Toast {
            kind: *notification_type,
            message: message.clone(),
            autohide: autohides(*notification_type),
        },
    }
}

/// Takes in the worker's messages on the side of the user interface.
/// Until the main window is there, messages wait in the order in which
/// they came.
#[derive(Debug)]
pub struct Processor {
    backend_handle: BackendHandle,
    has_main_window: bool,
    waiting_for_window: Vec<MessageToFrontend>,
}

impl Processor {
    /// Whether the main window is there.
    pub closed spec fn has_window(&self) -> bool {
        self.has_main_window
    }

    /// The notifications that wait for the main window, oldest first.
    pub closed spec fn waiting(&self) -> Seq<Notification> {
        notifications_of(self.waiting_for_window@)
    }

    pub fn new(backend_handle: BackendHandle) -> (processor: Self)
        ensures
            !processor.has_window(),
            processor.waiting() == Seq::<Notification>::empty(),
    {
        let processor = Processor {
            backend_handle,
            has_main_window: false,
            waiting_for_window: Vec::new(),
        };
        assert(processor.waiting() =~= Seq::<Notification>::empty());
        processor
    }

    /// Whether the main window is there.
    pub fn window_ready(&self) -> (ready: bool)
        ensures
            ready == self.has_window(),
    {
        self.has_main_window
    }

    /// Number of notifications that wait for the main window.
    pub fn waiting_count(&self) -> (count: usize)
        ensures
            count == self.waiting().len(),
    {
        self.waiting_for_window.len()
    }

    /// Notes that the main window is there, and hands out what has waited
    /// for it, oldest first.
    pub fn set_main_window_handle(&mut self) -> (toasts: Vec<Toast>)
        ensures
            final(self).has_window(),
            final(self).waiting() == Seq::<Notification>::empty(),
            toasts_of(toasts@) == toasts_for(old(self).waiting()),
            toasts@.len() == old(self).waiting().len(),
    {
        self.has_main_window = true;
        self.process_messages_waiting_for_window()
    }

    /// Hands out what waits for the main window, oldest first, if the
    /// window is there; otherwise everything goes on waiting.
    pub fn process_messages_waiting_for_window(&mut self) -> (toasts: Vec<Toast>)
        ensures
            final(self).has_window() == old(self).has_window(),
            old(self).has_window() ==> final(self).waiting() == Seq::<Notification>::empty()
                && toasts_of(toasts@) == toasts_for(old(self).waiting()) && toasts@.len() == old(
                self,
            ).waiting().len(),
            !old(self).has_window() ==> final(self).waiting() == old(self).waiting()
                && toasts@.len() == 0,
    {
        let mut toasts: Vec<Toast> = Vec::new();
        if !self.has_main_window {
            return toasts;
        }
        let mut waiting: Vec<MessageToFrontend> = Vec::new();
        core::mem::swap(&mut self.waiting_for_window, &mut waiting);
        let mut idx: usize = 0;
        while idx < waiting.len()
            invariant
                idx <= waiting.len(),
                toasts@.len() == idx,
                forall|i: int| 0 <= i < idx ==> (#[trigger] toasts@[i])@ == toast_for(
                    waiting@[i]@,
                ),
            decreases waiting.len() - idx,
        {
            toasts.push(toast_of(&waiting[idx]));
            idx += 1;
        }
        assert(self.waiting() =~= Seq::<Notification>::empty());
        assert(toasts_of(toasts@) =~= toasts_for(old(self).waiting()));
        toasts
    }

    /// Hands `message` back if the main window is there to take it;
    /// otherwise the message waits behind those that wait already.
    pub fn with_main_window(&mut self, message: MessageToFrontend) -> (ready: Option<
        MessageToFrontend,
    >)
        ensures
            final(self).has_window() == old(self).has_window(),
            old(self).has_window() ==> ready == Some(message) && final(self).waiting() == old(
                self,
            ).waiting(),
            !old(self).has_window() ==> ready is None && final(self).waiting() == old(
                self,
            ).waiting().push(message@),
    {
        if self.has_main_window {
            Some(message)
        } else {
            self.waiting_for_window.push(message);
            assert(self.waiting() =~= old(self).waiting().push(message@));
            None
        }
    }

    /// Takes in one message: the toast to show now if the main window is
    /// there, none while the message has to wait for it.
    pub fn process(&mut self, message: MessageToFrontend) -> (toast: Option<Toast>)
        ensures
            final(self).has_window() == old(self).has_window(),
            old(self).has_window() ==> final(self).waiting() == old(self).waiting() && (
            toast matches Some(t) && t@ == toast_for(message@)),
            !old(self).has_window() ==> toast is None && final(self).waiting() == old(
                self,
            ).waiting().push(message@),
    {
        match self.with_main_window(message) {
            Some(ready) => Some(toast_of(&ready)),
            None => None,
        }
    }
}

/// Messages that come while the main window is missing are shown, once it
/// is there, in the order in which they came: first those that waited,
/// then the next one.
pub proof fn lemma_waiting_keeps_order(waiting: Seq<Notification>, next: Notification, i: int)
    requires
        0 <= i <= waiting.len(),
    ensures
        toasts_for(waiting.push(next)).len() == waiting.len() + 1,
        i < waiting.len() ==> toasts_for(waiting.push(next))[i] == toast_for(waiting[i]),
        i == waiting.len() ==> toasts_for(waiting.push(next))[i] == toast_for(next),
{
}

/// An error stays on screen until it is dismissed; every other kind of
/// notification goes away by itself.
pub proof fn lemma_errors_stay(notification: Notification)
    ensures
        toast_for(notification).autohide <==> notification.kind != NotificationType::Error,
{
}

} // verus!
