use vstd::prelude::*;
use vstd::string::*;
use crate::backend::clock::{local_time_text, stamp_pattern};
use crate::bridge::message::{ExportRequest, MessageToBackend};

verus! {

/// The two file formats.
#[derive(Clone, Copy, Debug, PartialEq, Eq, Structural)]
pub enum ExportKind {
    BingoSync,
    LockoutLive,
}

/// Why an export came to nothing.
#[derive(Clone, Copy, Debug, PartialEq, Eq, Structural)]
pub enum ExportError {
    /// There was no time to name the file after.
    NoTimestamp,
}

/// The format that a request asks for.
pub open spec fn kind_of(request: ExportRequest) -> ExportKind {
    match request {
        ExportRequest::BingoSync { .. } => ExportKind::BingoSync,
        ExportRequest::LockoutLive { .. } => ExportKind::LockoutLive,
    }
}

/// How the name of a file of the given format ends.
pub open spec fn name_suffix(kind: ExportKind) -> Seq<char> {
    match kind {
        ExportKind::BingoSync => "_bingo_sync.json"@,
        ExportKind::LockoutLive => "_lockout_live.json"@,
    }
}

/// The name of the file written at time `stamp` in the given format.
pub open spec fn export_name(stamp: Seq<char>, kind: ExportKind) -> Seq<char> {
    stamp + name_suffix(kind)
}

/// What the user is told about an export that failed for `error`.
pub open spec fn error_reason(error: ExportError) -> Seq<char> {
    match error {
        ExportError::NoTimestamp => "no local time to name the file after"@,
    }
}

/// A file to be written: its name within the export directory, and the
/// request whose data goes into it.
#[derive(Debug)]
pub struct ExportJob {
    pub stamp: String,
    pub filename: String,
    pub request: MessageToBackend,
}

impl ExportJob {
    /// The file is named after its time and its format.
    pub open spec fn well_named(&self) -> bool {
        self.filename@ == export_name(self.stamp@, kind_of(self.request@))
    }
}

impl ExportKind {
    pub fn of(request: &MessageToBackend) -> (kind: ExportKind)
        ensures
            kind == kind_of(request@),
    {
        match request {
            MessageToBackend::CreateBingoSyncFile { .. } => ExportKind::BingoSync,
            MessageToBackend::CreateLockoutLiveFile { .. } => ExportKind::LockoutLive,
        }
    }

    pub fn suffix(self) -> (suffix: &'static str)
        ensures
            suffix@ == name_suffix(self),
    {
        match self {
            ExportKind::BingoSync => "_bingo_sync.json",
            ExportKind::LockoutLive => "_lockout_live.json",
        }
    }
}

impl ExportError {
    /// What the user is told about the failure.
    pub fn reason(self) -> (text: String)
        ensures
            text@ == error_reason(self),
    {
        match self {
            ExportError::NoTimestamp => String::from_str("no local time to name the file after"),
        }
    }
}

/// The strftime pattern of the time in a file name: year, month, day, hour,
/// minute and second, as in `2024-05-17_09-30-00`.
pub fn timestamp_pattern() -> (pattern: &'static str)
    ensures
        pattern@ == stamp_pattern(),
{
    "%Y-%m-%d_%H-%M-%S"
}

/// The name of the file written at time `stamp` in the given format.
pub fn export_filename(stamp: &str, kind: ExportKind) -> (name: String)
    ensures
        name@ == export_name(stamp@, kind),
{
    String::from_str(stamp).concat(kind.suffix())
}

/// The job for `request`, given what the clock said: with a time, the file
/// named after it that takes the request's data; without one, no job.
pub fn plan_export(stamp: Option<String>, request: MessageToBackend) -> (job: Result<
    ExportJob,
    ExportError,
>)
    ensures
        job is Ok <==> stamp is Some,
        job matches Ok(j) ==> j.stamp == stamp->0 && j.request == request && j.well_named(),
        job matches Err(e) ==> e == ExportError::NoTimestamp,
{
    match stamp {
        Some(stamp) => {
            let filename = export_filename(stamp.as_str(), ExportKind::of(&request));
            Ok(ExportJob { stamp, filename, request })
        },
        None => Err(ExportError::NoTimestamp),
    }
}

/// The job for `request`, named after the local time of this moment.
/// There always is one: the clock writes a time after the pattern of the
/// file names.
pub fn export_now(request: MessageToBackend) -> (job: Result<ExportJob, ExportError>)
    ensures
        job is Ok,
        job matches Ok(j) ==> j.request == request && j.well_named(),
{
    plan_export(local_time_text(timestamp_pattern()), request)
}

} // verus!
