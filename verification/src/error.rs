//! Failure categories, the boundary codes they are translated to, and the
//! slot that keeps the detail of the most recent failure.
use vstd::prelude::*;
use vstd::string::StringExecFns;

verus! {

/// The category of an internal failure.
#[derive(Clone, Copy, Debug, PartialEq, Eq, Structural)]
pub enum FailureKind {
    /// The configuration was rejected.
    Config,
    /// An argument was rejected (a missing callback, for instance).
    Input,
    /// A resource handle that names no live resource.
    UnknownResource,
    /// A request handle that names no pending request.
    UnknownRequest,
    /// The operation did not finish in time.
    Timeout,
    /// The resource cannot serve the operation.
    Unavailable,
    /// The transport failed.
    Connection,
    /// The nodes did not agree on a reply.
    NoConsensus,
    /// An internal invariant was violated.
    Invariant,
    /// A file could not be read or written.
    FileSystem,
    /// The peer speaks an incompatible protocol.
    Incompatible,
}

/// The closed set of codes that cross the boundary.
#[derive(Clone, Copy, Debug, PartialEq, Eq, Structural)]
pub enum ErrorCode {
    Success,
    Config,
    Connection,
    Input,
    UnknownResource,
    UnknownRequest,
    Unavailable,
    Unexpected,
    NoConsensus,
    Timeout,
}

/// The code that stands for a failure category. Categories without a code of
/// their own fall to `Unexpected`.
pub open spec fn code_of(kind: FailureKind) -> ErrorCode {
    match kind {
        FailureKind::Config => ErrorCode::Config,
        FailureKind::Input => ErrorCode::Input,
        FailureKind::UnknownResource => ErrorCode::UnknownResource,
        FailureKind::UnknownRequest => ErrorCode::UnknownRequest,
        FailureKind::Timeout => ErrorCode::Timeout,
        FailureKind::Unavailable => ErrorCode::Unavailable,
        FailureKind::Connection => ErrorCode::Connection,
        FailureKind::NoConsensus => ErrorCode::NoConsensus,
        FailureKind::Invariant => ErrorCode::Unexpected,
        FailureKind::FileSystem => ErrorCode::Unexpected,
        FailureKind::Incompatible => ErrorCode::Unexpected,
    }
}

/// The number by which a code is known across the boundary.
pub open spec fn code_number(code: ErrorCode) -> nat {
    match code {
        ErrorCode::Success => 0,
        ErrorCode::Config => 1,
        ErrorCode::Connection => 2,
        ErrorCode::Input => 3,
        ErrorCode::UnknownResource => 4,
        ErrorCode::UnknownRequest => 5,
        ErrorCode::Unavailable => 6,
        ErrorCode::Unexpected => 7,
        ErrorCode::NoConsensus => 8,
        ErrorCode::Timeout => 9,
    }
}

impl ErrorCode {
    /// Translates a failure category. Total: every category has a code, and
    /// none of them is `Success`.
    pub fn from_kind(kind: FailureKind) -> (code: ErrorCode)
        ensures
            code == code_of(kind),
            code != ErrorCode::Success,
    {
        match kind {
            FailureKind::Config => ErrorCode::Config,
            FailureKind::Input => ErrorCode::Input,
            FailureKind::UnknownResource => ErrorCode::UnknownResource,
            FailureKind::UnknownRequest => ErrorCode::UnknownRequest,
            FailureKind::Timeout => ErrorCode::Timeout,
            FailureKind::Unavailable => ErrorCode::Unavailable,
            FailureKind::Connection => ErrorCode::Connection,
            FailureKind::NoConsensus => ErrorCode::NoConsensus,
            FailureKind::Invariant | FailureKind::FileSystem | FailureKind::Incompatible => {
                ErrorCode::Unexpected
            },
        }
    }

    /// The stable number of this code.
    pub fn as_usize(self) -> (n: usize)
        ensures
            n == code_number(self),
    {
        match self {
            ErrorCode::Success => 0,
            ErrorCode::Config => 1,
            ErrorCode::Connection => 2,
            ErrorCode::Input => 3,
            ErrorCode::UnknownResource => 4,
            ErrorCode::UnknownRequest => 5,
            ErrorCode::Unavailable => 6,
            ErrorCode::Unexpected => 7,
            ErrorCode::NoConsensus => 8,
            ErrorCode::Timeout => 9,
        }
    }
}

/// Two codes with the same number are the same code, and only `Success` has
/// the number zero.
pub proof fn lemma_code_numbers_distinct(a: ErrorCode, b: ErrorCode)
    ensures
        code_number(a) == code_number(b) <==> a == b,
        code_number(a) == 0 <==> a == ErrorCode::Success,
{
}

/// What a failure is, as plain values.
pub struct FailureView {
    pub kind: FailureKind,
    pub message: Seq<char>,
}

/// An internal failure with its full detail.
#[derive(Clone, Debug, PartialEq, Eq)]
pub struct Failure {
    kind: FailureKind,
    message: String,
}

impl View for Failure {
    type V = FailureView;

    closed spec fn view(&self) -> FailureView {
        FailureView { kind: self.kind, message: self.message@ }
    }
}

impl Failure {
    pub fn new(kind: FailureKind, message: String) -> (failure: Failure)
        ensures
            failure@ == (FailureView { kind: kind, message: message@ }),
    {
        Failure { kind, message }
    }

    /// A failure whose message is a fixed text.
    pub fn with_text(kind: FailureKind, text: &str) -> (failure: Failure)
        ensures
            failure@ == (FailureView { kind: kind, message: text@ }),
    {
        Failure { kind, message: String::from_str(text) }
    }

    pub fn kind(&self) -> (kind: FailureKind)
        ensures
            kind == self@.kind,
    {
        self.kind
    }

    pub fn message(&self) -> (message: &str)
        ensures
            message@ == self@.message,
    {
        self.message.as_str()
    }

    /// The boundary code of this failure.
    pub fn code(&self) -> (code: ErrorCode)
        ensures
            code == code_of(self@.kind),
            code != ErrorCode::Success,
    {
        ErrorCode::from_kind(self.kind)
    }
}

/// Holds the detail of the most recent failure; empty until the first one.
#[derive(Debug)]
pub struct LastError {
    detail: Option<Failure>,
}

impl View for LastError {
    type V = Option<FailureView>;

    closed spec fn view(&self) -> Option<FailureView> {
        match self.detail {
            Some(failure) => Some(failure@),
            None => None,
        }
    }
}

impl LastError {
    /// The empty slot.
    pub fn new() -> (slot: LastError)
        ensures
            slot@ is None,
    {
        LastError { detail: None }
    }

    /// Overwrites the slot with `failure`.
    pub fn set(&mut self, failure: Failure)
        ensures
            final(self)@ == Some(failure@),
    {
        self.detail = Some(failure);
    }

    /// The detail of the most recent failure, if there was one. Reading leaves
    /// the slot as it is.
    pub fn get(&self) -> (detail: Option<&Failure>)
        ensures
            match detail {
                Some(failure) => self@ == Some(failure@),
                None => self@ is None,
            },
    {
        self.detail.as_ref()
    }
}

/// Translates `failure` to its boundary code and keeps its full detail in the
/// slot, over whatever was there.
pub fn translate(failure: Failure, slot: &mut LastError) -> (code: ErrorCode)
    ensures
        code == code_of(failure@.kind),
        code != ErrorCode::Success,
        final(slot)@ == Some(failure@),
{
    let code = failure.code();
    slot.set(failure);
    code
}

/// What a boundary call reports for `outcome`, and what it leaves in the slot.
pub open spec fn reported(outcome: Result<ErrorCode, FailureView>, before: Option<FailureView>) -> (
    ErrorCode,
    Option<FailureView>,
) {
    match outcome {
        Ok(code) => (code, before),
        Err(failure) => (code_of(failure.kind), Some(failure)),
    }
}

/// After a call that failed, the slot holds the detail of exactly that
/// failure, and the code reported is the one that stands for its category; it
/// is never `Success`. A call that did not fail leaves the slot untouched.
pub proof fn lemma_report_matches_slot(
    outcome: Result<ErrorCode, FailureView>,
    before: Option<FailureView>,
)
    ensures
        ({
            let (code, after) = reported(outcome, before);
            &&& outcome is Ok ==> code == outcome->Ok_0 && after == before
            &&& outcome is Err ==> after == Some(outcome->Err_0) && code == code_of(after->0.kind)
                && code != ErrorCode::Success
        }),
{
}

/// The view of an outcome.
pub open spec fn outcome_view(outcome: Result<ErrorCode, Failure>) -> Result<
    ErrorCode,
    FailureView,
> {
    match outcome {
        Ok(code) => Ok(code),
        Err(failure) => Err(failure@),
    }
}

/// Ends a boundary call: a success passes through and leaves the slot alone;
/// a failure is translated and recorded.
pub fn catch_err(outcome: Result<ErrorCode, Failure>, slot: &mut LastError) -> (code: ErrorCode)
    ensures
        (code, final(slot)@) == reported(outcome_view(outcome), old(slot)@),
{
    match outcome {
        Ok(code) => code,
        Err(failure) => translate(failure, slot),
    }
}

} // verus!
