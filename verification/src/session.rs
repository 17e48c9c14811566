//! How a run ended, and what it left behind.

use crate::error::PipelineError;
use risc0_zkvm::ExitCode as BackendExit;
use vstd::prelude::*;

verus! {

#[verifier::external_type_specification]
pub struct ExBackendExit(BackendExit);

/// Why the executor stopped producing segments.
#[derive(Clone, Copy, Debug, PartialEq, Eq, Structural)]
pub enum ExitCode {
    /// The executor split the trace at a segment boundary; the program goes on.
    SystemSplit,
    /// The session's cycle limit was reached; the program may be resumed.
    SessionLimit,
    /// The guest paused itself with the given code.
    Paused(u32),
    /// The guest halted with the given code.
    Halted(u32),
    /// The guest faulted.
    Fault,
}

impl ExitCode {
    /// The exit code that stands for the backend's exit signal.
    pub fn new(exit_code: BackendExit) -> (code: Self)
        ensures
            code == classify(exit_code),
    {
        match exit_code {
            BackendExit::SystemSplit => ExitCode::SystemSplit,
            BackendExit::SessionLimit => ExitCode::SessionLimit,
            BackendExit::Paused(v) => ExitCode::Paused(v),
            BackendExit::Halted(v) => ExitCode::Halted(v),
            BackendExit::Fault => ExitCode::Fault,
        }
    }

    /// Whether the guest itself chose the stopping point, so that no further
    /// segment of the same program is expected from a resumed run.
    pub open spec fn guest_determined(self) -> bool {
        self is Paused || self is Halted || self is Fault
    }

    pub fn is_system_split(&self) -> (r: bool)
        ensures
            r == (*self is SystemSplit),
    {
        matches!(self, ExitCode::SystemSplit)
    }

    pub fn is_session_limit(&self) -> (r: bool)
        ensures
            r == (*self is SessionLimit),
    {
        matches!(self, ExitCode::SessionLimit)
    }

    pub fn is_paused(&self) -> (r: bool)
        ensures
            r == (*self is Paused),
    {
        matches!(self, ExitCode::Paused(_))
    }

    /// The code with which the guest paused.
    pub fn get_paused_code(&self) -> (r: Result<u32, PipelineError>)
        ensures
            r == paused_code(*self),
    {
        match self {
            ExitCode::Paused(v) => Ok(*v),
            _ => Err(PipelineError::WrongVariant),
        }
    }

    pub fn is_halted(&self) -> (r: bool)
        ensures
            r == (*self is Halted),
    {
        matches!(self, ExitCode::Halted(_))
    }

    /// The code with which the guest halted.
    pub fn get_halted_code(&self) -> (r: Result<u32, PipelineError>)
        ensures
            r == halted_code(*self),
    {
        match self {
            ExitCode::Halted(v) => Ok(*v),
            _ => Err(PipelineError::WrongVariant),
        }
    }

    pub fn is_fault(&self) -> (r: bool)
        ensures
            r == (*self is Fault),
    {
        matches!(self, ExitCode::Fault)
    }
}

/// The exit code that stands for each of the backend's five exit signals.
pub open spec fn classify(signal: BackendExit) -> ExitCode {
    match signal {
        BackendExit::SystemSplit => ExitCode::SystemSplit,
        BackendExit::SessionLimit => ExitCode::SessionLimit,
        BackendExit::Paused(v) => ExitCode::Paused(v),
        BackendExit::Halted(v) => ExitCode::Halted(v),
        BackendExit::Fault => ExitCode::Fault,
    }
}

/// What asking `code` for its pause code yields.
pub open spec fn paused_code(code: ExitCode) -> Result<u32, PipelineError> {
    match code {
        ExitCode::Paused(v) => Ok(v),
        _ => Err(PipelineError::WrongVariant),
    }
}

/// What asking `code` for its halt code yields.
pub open spec fn halted_code(code: ExitCode) -> Result<u32, PipelineError> {
    match code {
        ExitCode::Halted(v) => Ok(v),
        _ => Err(PipelineError::WrongVariant),
    }
}

/// How many of the five variant predicates hold of `code`.
pub open spec fn predicates_holding(code: ExitCode) -> int {
    (if code is SystemSplit { 1int } else { 0 })
        + (if code is SessionLimit { 1int } else { 0 })
        + (if code is Paused { 1int } else { 0 })
        + (if code is Halted { 1int } else { 0 })
        + (if code is Fault { 1int } else { 0 })
}

/// Exactly one of the five variant predicates holds of every exit code, and
/// the guest chose the stopping point exactly where the code is not one of the
/// executor's own two.
pub proof fn lemma_exit_code_predicates(code: ExitCode)
    ensures
        predicates_holding(code) == 1,
        code.guest_determined() <==> !(code is SystemSplit || code is SessionLimit),
{
}

/// Each of the backend's five exit signals is classified as the variant of the
/// same name, which carries the same guest code where there is one.
pub proof fn lemma_classify_keeps_variant_and_code(signal: BackendExit)
    ensures
        match signal {
            BackendExit::SystemSplit => classify(signal) is SystemSplit,
            BackendExit::SessionLimit => classify(signal) is SessionLimit,
            BackendExit::Paused(v) => classify(signal) is Paused && paused_code(classify(signal))
                == Ok::<u32, PipelineError>(v),
            BackendExit::Halted(v) => classify(signal) is Halted && halted_code(classify(signal))
                == Ok::<u32, PipelineError>(v),
            BackendExit::Fault => classify(signal) is Fault,
        },
        predicates_holding(classify(signal)) == 1,
{
}

/// A code accessor succeeds exactly on its own variant, and on every other
/// variant it reports the wrong variant.
pub proof fn lemma_accessors_match_predicates(code: ExitCode)
    ensures
        code is Paused <==> paused_code(code) is Ok,
        code is Halted <==> halted_code(code) is Ok,
        !(code is Paused) ==> paused_code(code) == Err::<u32, PipelineError>(
            PipelineError::WrongVariant,
        ),
        !(code is Halted) ==> halted_code(code) == Err::<u32, PipelineError>(
            PipelineError::WrongVariant,
        ),
{
}

/// What a finished run reports: the guest's journal and the final exit code.
pub struct SessionInfo {
    journal: Vec<u8>,
    exit_code: ExitCode,
}

impl SessionInfo {
    /// The journal bytes, in the order in which the guest wrote them.
    pub closed spec fn journal(&self) -> Seq<u8> {
        self.journal@
    }

    /// The reason for which the whole run stopped.
    pub closed spec fn exit_code(&self) -> ExitCode {
        self.exit_code
    }

    /// The report of a session with the given journal and exit code. A
    /// session without a journal reports an empty one.
    pub fn new(journal: Option<Vec<u8>>, exit_code: ExitCode) -> (info: Self)
        ensures
            info.journal() == (match journal {
                Some(bytes) => bytes@,
                None => Seq::<u8>::empty(),
            }),
            info.exit_code() == exit_code,
    {
        let journal = match journal {
            Some(bytes) => bytes,
            None => Vec::new(),
        };
        SessionInfo { journal, exit_code }
    }

    pub fn get_journal(&self) -> (bytes: Vec<u8>)
        ensures
            bytes@ == self.journal(),
    {
        self.journal.clone()
    }

    pub fn get_exit_code(&self) -> (code: ExitCode)
        ensures
            code == self.exit_code(),
    {
        self.exit_code
    }
}

} // verus!
