//! What came back from starting a process, and how a probe reads it.

use vstd::prelude::*;

verus! {

/// The class of an operating-system error, as far as the pipelines tell
/// classes apart.
#[derive(Clone, Copy, Debug, PartialEq, Eq, Structural)]
pub enum OsErrorKind {
    /// No such file: the program is not installed or not on the search path.
    NotFound,
    /// The file exists but may not be run or written.
    PermissionDenied,
    /// Any other failure.
    Other,
}

/// An operating-system error: its class and the text the system gave.
#[derive(Debug, PartialEq, Eq)]
pub struct OsError {
    pub kind: OsErrorKind,
    pub message: String,
}

/// Mathematical value of an [`OsError`].
pub struct OsErrorModel {
    pub kind: OsErrorKind,
    pub message: Seq<char>,
}

impl DeepView for OsError {
    type V = OsErrorModel;

    open spec fn deep_view(&self) -> OsErrorModel {
        OsErrorModel { kind: self.kind, message: self.message@ }
    }
}

impl OsError {
    /// A second value with the same class and text.
    pub fn duplicate(&self) -> (copy: OsError)
        ensures
            copy.deep_view() == self.deep_view(),
    {
        OsError { kind: self.kind, message: self.message.clone() }
    }
}

/// What a finished child process left behind.
#[derive(Debug, PartialEq, Eq)]
pub struct ProcessOutput {
    /// Whether the exit status reported success.
    pub success: bool,
    pub stdout: Vec<u8>,
    pub stderr: Vec<u8>,
}

/// Mathematical value of a [`ProcessOutput`].
pub struct ProcessOutputModel {
    pub success: bool,
    pub stdout: Seq<u8>,
    pub stderr: Seq<u8>,
}

impl DeepView for ProcessOutput {
    type V = ProcessOutputModel;

    open spec fn deep_view(&self) -> ProcessOutputModel {
        ProcessOutputModel { success: self.success, stdout: self.stdout@, stderr: self.stderr@ }
    }
}

/// The result of trying to run a command to completion.
#[derive(Debug, PartialEq, Eq)]
pub enum SpawnOutcome {
    /// The process started and has exited.
    Ran(ProcessOutput),
    /// The process could not be started.
    Failed(OsError),
}

/// Mathematical value of a [`SpawnOutcome`].
pub enum SpawnOutcomeModel {
    Ran(ProcessOutputModel),
    Failed(OsErrorModel),
}

impl DeepView for SpawnOutcome {
    type V = SpawnOutcomeModel;

    open spec fn deep_view(&self) -> SpawnOutcomeModel {
        match self {
            SpawnOutcome::Ran(output) => SpawnOutcomeModel::Ran(output.deep_view()),
            SpawnOutcome::Failed(error) => SpawnOutcomeModel::Failed(error.deep_view()),
        }
    }
}

/// Whether a tool can be reached.
#[derive(Debug, PartialEq, Eq)]
pub enum ProbeResult {
    Present,
    /// The tool is not installed; installing it may be offered.
    Absent,
    /// The probe itself went wrong, which says nothing about the tool.
    Error(OsError),
}

/// Mathematical value of a [`ProbeResult`].
pub enum ProbeResultModel {
    Present,
    Absent,
    Error(OsErrorModel),
}

impl DeepView for ProbeResult {
    type V = ProbeResultModel;

    open spec fn deep_view(&self) -> ProbeResultModel {
        match self {
            ProbeResult::Present => ProbeResultModel::Present,
            ProbeResult::Absent => ProbeResultModel::Absent,
            ProbeResult::Error(error) => ProbeResultModel::Error(error.deep_view()),
        }
    }
}

/// How a probe reads the outcome of running a tool with its version flag.
///
/// Only a failure to start the process for want of the file means that the
/// tool is absent. A process that started counts as present whatever its exit
/// status, and every other failure is an error of the probe.
pub open spec fn classify_probe(outcome: SpawnOutcomeModel) -> ProbeResultModel {
    match outcome {
        SpawnOutcomeModel::Ran(_) => ProbeResultModel::Present,
        SpawnOutcomeModel::Failed(error) => if error.kind is NotFound {
            ProbeResultModel::Absent
        } else {
            ProbeResultModel::Error(error)
        },
    }
}

/// Classifies the outcome of a probe.
///
/// A missing file is never reported as an error, and no other failure is ever
/// reported as a missing tool.
pub fn probe(outcome: &SpawnOutcome) -> (result: ProbeResult)
    ensures
        result.deep_view() == classify_probe(outcome.deep_view()),
        result is Present <==> outcome is Ran,
        result is Absent <==> outcome is Failed && outcome->Failed_0.kind is NotFound,
        result is Error <==> outcome is Failed && !(outcome->Failed_0.kind is NotFound),
        result is Error ==> result->Error_0.deep_view() == outcome->Failed_0.deep_view(),
{
    match outcome {
        SpawnOutcome::Ran(_) => ProbeResult::Present,
        SpawnOutcome::Failed(error) => match error.kind {
            OsErrorKind::NotFound => ProbeResult::Absent,
            _ => ProbeResult::Error(error.duplicate()),
        },
    }
}

} // verus!
