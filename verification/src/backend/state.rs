use vstd::prelude::*;
use vstd::string::*;
use crate::backend::export::{error_reason, export_now, ExportError, ExportJob};
use crate::bridge::card::{card_names, BingoSyncCard, LockoutLiveBoard};
use crate::bridge::outcome::SendOutcome;
use crate::bridge::handle::{BackendHandle, FrontendHandle, OverflowPolicy};
use crate::bridge::message::{
    ExportRequest,
    MessageToBackend,
    MessageToFrontend,
    Notification,
    NotificationType,
};

verus! {

/// What the user is told when the file `filename` has been written.
pub open spec fn created_text(filename: Seq<char>) -> Seq<char> {
    "Created file '"@ + filename + "'"@
}

/// What the user is told when an export has failed for `reason`.
pub open spec fn failed_text(reason: Seq<char>) -> Seq<char> {
    "Error: '"@ + reason + "'"@
}

/// The notification for an export into `filename` that ended in `written`:
/// a success that names the file if it was written, else an error that
/// gives the reason and does not name the file as created.
pub open spec fn export_notification(filename: Seq<char>, written: Result<(), String>)
    -> Notification {
    match written {
        Ok(()) => Notification { kind: NotificationType::Success, text: created_text(filename) },
        Err(reason) => Notification { kind: NotificationType::Error, text: failed_text(reason@) },
    }
}

/// The notification for an export that failed before anything was written.
pub open spec fn failure_notification(error: ExportError) -> Notification {
    Notification { kind: NotificationType::Error, text: failed_text(error_reason(error)) }
}

/// What the worker does next.
#[derive(Debug)]
pub enum WorkerStep {
    /// Write this job's file, then report how the writing went.
    Write(ExportJob),
    /// The request came to nothing before any file was written; the user
    /// interface has been sent the error, with this outcome. After the
    /// pattern of the file names the clock always gives a time, so `step`
    /// never answers with this; it stands for what `handle_message` hands
    /// on where there is no job.
    Reported(SendOutcome<MessageToFrontend>),
    /// The user interface has dropped all its handles: the worker ends.
    Shutdown,
}

/// The text of the success notification for `filename`.
pub fn created_message(filename: &str) -> (text: String)
    ensures
        text@ == created_text(filename@),
{
    String::from_str("Created file '").concat(filename).concat("'")
}

/// The text of the error notification for `reason`.
pub fn failed_message(reason: &str) -> (text: String)
    ensures
        text@ == failed_text(reason@),
{
    String::from_str("Error: '").concat(reason).concat("'")
}

/// The notification for an export into `filename` that ended in `written`.
pub fn export_report(filename: &str, written: Result<(), String>) -> (message: MessageToFrontend)
    ensures
        message@ == export_notification(filename@, written),
{
    match written {
        Ok(()) => MessageToFrontend::notification(
            NotificationType::Success,
            created_message(filename),
        ),
        Err(reason) => MessageToFrontend::notification(
            NotificationType::Error,
            failed_message(reason.as_str()),
        ),
    }
}

/// The notification for an export that failed before anything was written.
pub fn failure_report(error: ExportError) -> (message: MessageToFrontend)
    ensures
        message@ == failure_notification(error),
{
    let reason = error.reason();
    MessageToFrontend::notification(NotificationType::Error, failed_message(reason.as_str()))
}

/// The worker's state: its handles to both directions of the bridge.
#[derive(Clone, Debug)]
pub struct BackendState {
    pub self_handle: BackendHandle,
    pub send: FrontendHandle,
}

impl BackendState {
    pub fn new(self_handle: BackendHandle, send: FrontendHandle) -> (state: Self)
        ensures
            state.self_handle == self_handle,
            state.send == send,
    {
        BackendState { self_handle, send }
    }

    /// The job that writes `data` as a BingoSync file named after the
    /// local time of this moment.
    pub fn export_bingo_sync(&self, data: Vec<BingoSyncCard>) -> (job: Result<
        ExportJob,
        ExportError,
    >)
        ensures
            job is Ok,
            job matches Ok(j) ==> j.well_named() && j.request@ == (ExportRequest::BingoSync {
                names: card_names(data@),
            }),
    {
        export_now(MessageToBackend::CreateBingoSyncFile { data })
    }

    /// The job that writes `data` as a Lockout Live file named after the
    /// local time of this moment.
    pub fn export_lockout_live(&self, data: LockoutLiveBoard) -> (job: Result<
        ExportJob,
        ExportError,
    >)
        ensures
            job is Ok,
            job matches Ok(j) ==> j.well_named() && j.request@ == (ExportRequest::LockoutLive {
                board: data@,
            }),
    {
        export_now(MessageToBackend::CreateLockoutLiveFile { data })
    }

    /// Tells the user interface that an export failed before anything was
    /// written.
    pub fn report_failure(&self, error: ExportError) -> (outcome: SendOutcome<MessageToFrontend>)
        ensures
            outcome is Full ==> self.send.policy() == OverflowPolicy::Abort,
            outcome.returned() matches Some(m) ==> m@ == failure_notification(error),
    {
        self.send.send(failure_report(error))
    }

    /// Tells the user interface how the writing of `filename` went: a
    /// success that names the file, or an error with the reason.
    pub fn report(&self, filename: &str, written: Result<(), String>) -> (outcome: SendOutcome<
        MessageToFrontend,
    >)
        ensures
            outcome is Full ==> self.send.policy() == OverflowPolicy::Abort,
            outcome.returned() matches Some(m) ==> m@ == export_notification(filename@, written),
    {
        self.send.send(export_report(filename, written))
    }

    /// Turns a request into the job to write: exactly one job for every
    /// request, with the data of the request. Were there no job, the user
    /// interface would be told, and the outcome of telling it would come
    /// back.
    pub fn handle_message(&self, message: MessageToBackend) -> (job: Result<
        ExportJob,
        SendOutcome<MessageToFrontend>,
    >)
        ensures
            job is Ok,
            job matches Ok(j) ==> j.well_named() && j.request@ == message@,
    {
        let planned = match message {
            MessageToBackend::CreateBingoSyncFile { data } => self.export_bingo_sync(data),
            MessageToBackend::CreateLockoutLiveFile { data } => self.export_lockout_live(data),
        };
        match planned {
            Ok(job) => Ok(job),
            Err(error) => Err(self.report_failure(error)),
        }
    }

    /// One turn of the worker's loop, for what its receiving end gave: a
    /// request is turned into the job to write, and the end of the channel
    /// ends the worker.
    pub fn step(&self, event: Option<MessageToBackend>) -> (next: WorkerStep)
        ensures
            next is Shutdown <==> event is None,
            next is Write <==> event is Some,
            next matches WorkerStep::Write(j) ==> j.well_named() && j.request@ == event->0@,
    {
        match event {
            Some(message) => match self.handle_message(message) {
                Ok(job) => WorkerStep::Write(job),
                Err(outcome) => WorkerStep::Reported(outcome),
            },
            None => WorkerStep::Shutdown,
        }
    }
}

} // verus!
