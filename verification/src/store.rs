use vstd::prelude::*;
use crate::ident::{uuid_text_spec, uuid_text, fresh_uuid_bits};
use crate::spool_path::{
    spool_file_name_spec, spool_file_name, joined_path_spec, join_under, path_allowed,
    check_request_path,
};

verus! {

/// How many fresh identifiers a single create is willing to try when the
/// chosen target name is already taken.
pub const DEFAULT_CREATE_ATTEMPTS: u32 = 3;

/// The default ceiling on an inbound body: fifty mebibytes.
pub const DEFAULT_MAX_BODY_BYTES: usize = 50 * 1024 * 1024;

/// Why storing an item failed.
#[derive(Clone, Copy, PartialEq, Eq, Debug)]
pub enum CreateError {
    DirectoryUnavailable,
    CollisionExhausted,
    WriteFailure,
}

/// Why reading an item back failed.
#[derive(Clone, Copy, PartialEq, Eq, Debug)]
pub enum ReadError {
    NotFound,
    TraversalRejected,
    ReadFailure,
}

/// What the filesystem reported for one exclusive-create attempt.
#[derive(Clone, Copy, PartialEq, Eq, Debug)]
pub enum OpenOutcome {
    /// A new file was created at the target path.
    Opened,
    /// A file already exists at the target path; it was left untouched.
    AlreadyExists,
    /// The spool directory itself is missing.
    DirectoryMissing,
    /// Any other failure to create the file.
    OpenFailed,
}

/// A pending attempt to store one item under a fresh identifier.
pub struct CreateAttempt {
    pub identifier: String,
    pub attempts_left: u32,
}

impl CreateAttempt {
    /// A well-formed attempt carries a canonically rendered identifier text.
    pub open spec fn wf(self) -> bool {
        exists|bits: u128| self.identifier@ == uuid_text_spec(bits)
    }

    /// Starts an attempt from a given 128-bit identifier value.
    pub fn from_bits(bits: u128, attempts_left: u32) -> (a: CreateAttempt)
        ensures
            a.wf(),
            a.identifier@ == uuid_text_spec(bits),
            a.attempts_left == attempts_left,
    {
        CreateAttempt { identifier: uuid_text(bits), attempts_left }
    }

    /// Starts an attempt under a freshly drawn random identifier.
    pub fn begin(attempts_left: u32) -> (a: CreateAttempt)
        ensures
            a.wf(),
            a.attempts_left == attempts_left,
    {
        let bits = fresh_uuid_bits();
        Self::from_bits(bits, attempts_left)
    }

    /// The file name this attempt will create below the spool directory.
    pub fn file_name(&self) -> (name: String)
        ensures
            name@ == spool_file_name_spec(self.identifier@),
    {
        spool_file_name(self.identifier.as_str())
    }

    /// The full target path of this attempt.
    pub fn target_path(&self, spool_dir: &str) -> (p: String)
        ensures
            p@ == joined_path_spec(spool_dir@, spool_file_name_spec(self.identifier@)),
    {
        let name = self.file_name();
        join_under(spool_dir, name.as_str())
    }
}

/// What the store decides after one exclusive-create attempt.
pub enum CreateStep {
    /// The file is freshly created; write the payload into it.
    WritePayload(CreateAttempt),
    /// The name was taken; try again under a new identifier.
    Retry(CreateAttempt),
    /// Give up and report the error.
    Fail(CreateError),
}

/// Decides how a create goes on after the filesystem answered one
/// exclusive-create attempt. A name collision never leads to a write: the
/// existing file stays untouched and the store either retries under a fresh
/// identifier or reports exhaustion.
pub fn on_open_result(attempt: CreateAttempt, outcome: OpenOutcome) -> (step: CreateStep)
    ensures
        outcome == OpenOutcome::Opened ==> step == CreateStep::WritePayload(attempt),
        outcome != OpenOutcome::Opened ==> !(step matches CreateStep::WritePayload(_)),
        outcome == OpenOutcome::AlreadyExists && attempt.attempts_left > 0 ==> (step matches
            CreateStep::Retry(a) && a.wf() && a.attempts_left == attempt.attempts_left - 1),
        outcome == OpenOutcome::AlreadyExists && attempt.attempts_left == 0 ==> step
            == CreateStep::Fail(CreateError::CollisionExhausted),
        outcome == OpenOutcome::DirectoryMissing ==> step == CreateStep::Fail(
            CreateError::DirectoryUnavailable,
        ),
        outcome == OpenOutcome::OpenFailed ==> step == CreateStep::Fail(CreateError::WriteFailure),
{
    match outcome {
        OpenOutcome::Opened => CreateStep::WritePayload(attempt),
        OpenOutcome::AlreadyExists => {
            if attempt.attempts_left > 0 {
                CreateStep::Retry(CreateAttempt::begin(attempt.attempts_left - 1))
            } else {
                CreateStep::Fail(CreateError::CollisionExhausted)
            }
        },
        OpenOutcome::DirectoryMissing => CreateStep::Fail(CreateError::DirectoryUnavailable),
        OpenOutcome::OpenFailed => CreateStep::Fail(CreateError::WriteFailure),
    }
}

/// What the store decides after the payload write.
pub enum WriteStep {
    /// The item is durably stored; report its identifier.
    Done { identifier: String },
    /// The write failed part way: the partial file must be removed and the
    /// failure reported, so no partial file is ever presented to readers.
    RemoveAndFail(CreateError),
}

/// Decides how a create ends after the payload write. A failed write never
/// reports success and always asks for the partial file to be removed.
pub fn on_write_result(attempt: CreateAttempt, write_ok: bool) -> (step: WriteStep)
    ensures
        write_ok ==> step == (WriteStep::Done { identifier: attempt.identifier }),
        !write_ok ==> step == WriteStep::RemoveAndFail(CreateError::WriteFailure),
{
    if write_ok {
        WriteStep::Done { identifier: attempt.identifier }
    } else {
        WriteStep::RemoveAndFail(CreateError::WriteFailure)
    }
}

/// How the write side answers an inbound body.
pub enum IngestDecision {
    /// The body exceeds the configured ceiling; nothing will be stored.
    TooLarge,
    /// The body is admitted; store it under this fresh attempt.
    Accept(CreateAttempt),
}

/// Admits or rejects an inbound body by size. An oversized body is turned
/// away here, before any identifier is drawn or any path exists, so no file
/// is ever created for it.
pub fn plan_ingest(body_len: usize, max_len: usize, attempts: u32) -> (d: IngestDecision)
    ensures
        body_len > max_len ==> d == IngestDecision::TooLarge,
        body_len <= max_len ==> (d matches IngestDecision::Accept(a) && a.wf() && a.attempts_left
            == attempts),
{
    if body_len > max_len {
        IngestDecision::TooLarge
    } else {
        IngestDecision::Accept(CreateAttempt::begin(attempts))
    }
}

/// Validates a read request path and resolves it below the spool directory.
/// Exactly the paths [`path_allowed`] admits are resolved; everything else
/// is turned away as a traversal attempt and never reaches the filesystem.
pub fn resolve_read_path(spool_dir: &str, raw: &str) -> (r: Result<String, ReadError>)
    ensures
        path_allowed(raw@) ==> (r matches Ok(p) && p@ == joined_path_spec(spool_dir@, raw@)),
        !path_allowed(raw@) ==> r == Err::<String, ReadError>(ReadError::TraversalRejected),
{
    if check_request_path(raw) {
        Ok(join_under(spool_dir, raw))
    } else {
        Err(ReadError::TraversalRejected)
    }
}

/// What the filesystem reported for a resolved read.
pub enum ReadOutcome {
    /// The file's full contents, verbatim.
    Content(String),
    /// No file exists at the resolved path.
    Missing,
    /// Any other failure to read the file.
    Failed,
}

} // verus!
