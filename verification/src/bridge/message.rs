use vstd::prelude::*;
use vstd::string::*;
use crate::bridge::card::{card_names, BingoSyncCard, LockoutLiveBoard, LockoutLiveBoardView};

verus! {

/// What an export request asks for, as plain values.
pub ghost enum ExportRequest {
    BingoSync { names: Seq<Seq<char>> },
    LockoutLive { board: LockoutLiveBoardView },
}

/// A request of the user interface to the export worker.
#[derive(Debug)]
#[allow(inconsistent_fields)]
pub enum MessageToBackend {
    CreateBingoSyncFile { data: Vec<BingoSyncCard> },
    CreateLockoutLiveFile { data: LockoutLiveBoard },
}

impl View for MessageToBackend {
    type V = ExportRequest;

    open spec fn view(&self) -> ExportRequest {
        match self {
            MessageToBackend::CreateBingoSyncFile { data } => ExportRequest::BingoSync {
                names: card_names(data@),
            },
            MessageToBackend::CreateLockoutLiveFile { data } => ExportRequest::LockoutLive {
                board: data@,
            },
        }
    }
}

/// How a notification is shown.
#[derive(Clone, Copy, Debug, PartialEq, Eq, Structural)]
pub enum NotificationType {
    Success,
    Info,
    Error,
    Warning,
}

/// What a notification says, as plain values.
pub ghost struct Notification {
    pub kind: NotificationType,
    pub text: Seq<char>,
}

/// A message of the export worker, or of the generator, to the user
/// interface.
#[derive(Debug)]
pub enum MessageToFrontend {
    AddNotification { notification_type: NotificationType, message: String },
}

impl View for MessageToFrontend {
    type V = Notification;

    open spec fn view(&self) -> Notification {
        match self {
            MessageToFrontend::AddNotification { notification_type, message } => Notification {
                kind: *notification_type,
                text: message@,
            },
        }
    }
}

impl MessageToFrontend {
    /// The message that asks for a notification of the given kind and text.
    pub fn notification(kind: NotificationType, text: String) -> (message: Self)
        ensures
            message@ == (Notification { kind, text: text@ }),
    {
        MessageToFrontend::AddNotification { notification_type: kind, message: text }
    }
}

} // verus!
