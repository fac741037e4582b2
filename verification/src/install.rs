//! Making sure the bundler is installed.
//!
//! The package manager is looked for first, because nothing can be installed
//! without it. Then the bundler is looked for. Where it is missing it is
//! installed, after the user agreed or without asking.

use vstd::prelude::*;
use crate::error::{Error, ErrorModel, PromptFailure, PromptFailureModel};
use crate::platform::{
    probe_command, probe_invocation, tool_invocation, yarn_command, Invocation, InvocationModel,
    Platform, Tool,
};
use crate::process::{
    classify_probe, probe, ProbeResult, ProbeResultModel, SpawnOutcome, SpawnOutcomeModel,
};
use crate::progress::{Progress, ProgressModel};

verus! {

/// What the user is told when the package manager is missing.
pub const YARN_MISSING: &'static str =
    "No installation of yarn found. yarn is required to install webpack. https://yarnpkg.com/";

/// What the user is asked when the bundler is missing.
pub const WEBPACK_INSTALL_PROMPT: &'static str =
    "No installation of webpack found. Do you want to install webpack? (y/n)";

/// What came of asking the user a yes-or-no question.
#[derive(Debug, PartialEq, Eq)]
pub enum Confirmation {
    Answered(bool),
    Failed(PromptFailure),
}

/// Mathematical value of a [`Confirmation`].
pub enum ConfirmationModel {
    Answered(bool),
    Failed(PromptFailureModel),
}

impl DeepView for Confirmation {
    type V = ConfirmationModel;

    open spec fn deep_view(&self) -> ConfirmationModel {
        match self {
            Confirmation::Answered(yes) => ConfirmationModel::Answered(*yes),
            Confirmation::Failed(cause) => ConfirmationModel::Failed(cause.deep_view()),
        }
    }
}

/// What has been observed so far while making sure the bundler is installed.
/// Each field is `None` (or `false`) until the matching [`InstallEffect`] has
/// been performed and its answer recorded.
#[derive(Debug, PartialEq, Eq)]
pub struct InstallObservations {
    /// What came of looking for the package manager.
    pub package_manager: Option<SpawnOutcome>,
    /// What came of looking for the bundler.
    pub bundler: Option<SpawnOutcome>,
    /// What the user answered.
    pub confirmation: Option<Confirmation>,
    /// What came of running the installation.
    pub installation: Option<SpawnOutcome>,
    /// Whether the output of a failed installation has been shown.
    pub failure_reported: bool,
}

/// Mathematical value of [`InstallObservations`].
pub struct InstallObservationsModel {
    pub package_manager: Option<SpawnOutcomeModel>,
    pub bundler: Option<SpawnOutcomeModel>,
    pub confirmation: Option<ConfirmationModel>,
    pub installation: Option<SpawnOutcomeModel>,
    pub failure_reported: bool,
}

impl DeepView for InstallObservations {
    type V = InstallObservationsModel;

    open spec fn deep_view(&self) -> InstallObservationsModel {
        InstallObservationsModel {
            package_manager: self.package_manager.deep_view(),
            bundler: self.bundler.deep_view(),
            confirmation: self.confirmation.deep_view(),
            installation: self.installation.deep_view(),
            failure_reported: self.failure_reported,
        }
    }
}

impl InstallObservationsModel {
    /// The observations before anything has been done.
    pub open spec fn nothing() -> InstallObservationsModel {
        InstallObservationsModel {
            package_manager: None,
            bundler: None,
            confirmation: None,
            installation: None,
            failure_reported: false,
        }
    }
}

impl InstallObservations {
    /// The observations before anything has been done.
    pub fn new() -> (seen: InstallObservations)
        ensures
            seen.deep_view() == InstallObservationsModel::nothing(),
    {
        InstallObservations {
            package_manager: None,
            bundler: None,
            confirmation: None,
            installation: None,
            failure_reported: false,
        }
    }
}

/// What the caller may be asked to do while the bundler is being installed.
#[derive(Debug, PartialEq, Eq)]
pub enum InstallEffect {
    /// Run this command, which looks for the package manager, and answer
    /// with its outcome.
    ProbePackageManager(Invocation),
    /// Run this command, which looks for the bundler, and answer with its
    /// outcome.
    ProbeBundler(Invocation),
    /// Ask the user this question, once, and answer with what came of it.
    Confirm(String),
    /// Run this command, which installs the bundler, and answer with its
    /// outcome.
    Install(Invocation),
    /// Show these bytes, the error output of the failed installation, and
    /// answer that they were shown.
    ReportFailure(Vec<u8>),
}

/// Mathematical value of an [`InstallEffect`].
pub enum InstallEffectModel {
    ProbePackageManager(InvocationModel),
    ProbeBundler(InvocationModel),
    Confirm(Seq<char>),
    Install(InvocationModel),
    ReportFailure(Seq<u8>),
}

impl DeepView for InstallEffect {
    type V = InstallEffectModel;

    open spec fn deep_view(&self) -> InstallEffectModel {
        match self {
            InstallEffect::ProbePackageManager(command) => InstallEffectModel::ProbePackageManager(
                command.deep_view(),
            ),
            InstallEffect::ProbeBundler(command) => InstallEffectModel::ProbeBundler(
                command.deep_view(),
            ),
            InstallEffect::Confirm(question) => InstallEffectModel::Confirm(question@),
            InstallEffect::Install(command) => InstallEffectModel::Install(command.deep_view()),
            InstallEffect::ReportFailure(output) => InstallEffectModel::ReportFailure(output@),
        }
    }
}

/// What the installation pipeline says when asked how to go on.
#[derive(Debug, PartialEq, Eq)]
pub enum InstallProgress {
    /// The caller is to perform this, record what came of it, and ask again.
    Need(InstallEffect),
    /// Nothing the caller could do with an error would help: the whole
    /// process is to stop with this message for the user.
    Abort(String),
    /// The pipeline is over.
    Done(Result<(), Error>),
}

/// Mathematical value of an [`InstallProgress`].
pub enum InstallProgressModel {
    Need(InstallEffectModel),
    Abort(Seq<char>),
    Done(Result<(), ErrorModel>),
}

impl DeepView for InstallProgress {
    type V = InstallProgressModel;

    open spec fn deep_view(&self) -> InstallProgressModel {
        match self {
            InstallProgress::Need(effect) => InstallProgressModel::Need(effect.deep_view()),
            InstallProgress::Abort(message) => InstallProgressModel::Abort(message@),
            InstallProgress::Done(Ok(_)) => InstallProgressModel::Done(Ok(())),
            InstallProgress::Done(Err(error)) => InstallProgressModel::Done(
                Err(error.deep_view()),
            ),
        }
    }
}

/// What came of performing an [`InstallEffect`].
#[derive(Debug, PartialEq, Eq)]
pub enum InstallAnswer {
    /// What came of running a command.
    Outcome(SpawnOutcome),
    /// What came of asking the user.
    Confirmation(Confirmation),
    /// The output has been shown.
    Shown,
}

/// Mathematical value of an [`InstallAnswer`].
pub enum InstallAnswerModel {
    Outcome(SpawnOutcomeModel),
    Confirmation(ConfirmationModel),
    Shown,
}

impl DeepView for InstallAnswer {
    type V = InstallAnswerModel;

    open spec fn deep_view(&self) -> InstallAnswerModel {
        match self {
            InstallAnswer::Outcome(outcome) => InstallAnswerModel::Outcome(outcome.deep_view()),
            InstallAnswer::Confirmation(answer) => InstallAnswerModel::Confirmation(
                answer.deep_view(),
            ),
            InstallAnswer::Shown => InstallAnswerModel::Shown,
        }
    }
}

impl InstallObservationsModel {
    /// The observations after `effect` has been performed and `answer` came
    /// of it. An answer of another kind than the effect asks for is not
    /// recorded.
    pub open spec fn record(
        self,
        effect: InstallEffectModel,
        answer: InstallAnswerModel,
    ) -> InstallObservationsModel {
        match (effect, answer) {
            (
                InstallEffectModel::ProbePackageManager(_),
                InstallAnswerModel::Outcome(outcome),
            ) => InstallObservationsModel { package_manager: Some(outcome), ..self },
            (
                InstallEffectModel::ProbeBundler(_),
                InstallAnswerModel::Outcome(outcome),
            ) => InstallObservationsModel { bundler: Some(outcome), ..self },
            (
                InstallEffectModel::Confirm(_),
                InstallAnswerModel::Confirmation(answer),
            ) => InstallObservationsModel { confirmation: Some(answer), ..self },
            (
                InstallEffectModel::Install(_),
                InstallAnswerModel::Outcome(outcome),
            ) => InstallObservationsModel { installation: Some(outcome), ..self },
            (
                InstallEffectModel::ReportFailure(_),
                InstallAnswerModel::Shown,
            ) => InstallObservationsModel { failure_reported: true, ..self },
            _ => self,
        }
    }
}

impl InstallObservations {
    /// Records what came of performing `effect`.
    pub fn record(&mut self, effect: &InstallEffect, answer: InstallAnswer)
        ensures
            final(self).deep_view() == old(self).deep_view().record(
                effect.deep_view(),
                answer.deep_view(),
            ),
    {
        match (effect, answer) {
            (InstallEffect::ProbePackageManager(_), InstallAnswer::Outcome(outcome)) => {
                self.package_manager = Some(outcome);
            },
            (InstallEffect::ProbeBundler(_), InstallAnswer::Outcome(outcome)) => {
                self.bundler = Some(outcome);
            },
            (InstallEffect::Confirm(_), InstallAnswer::Confirmation(answer)) => {
                self.confirmation = Some(answer);
            },
            (InstallEffect::Install(_), InstallAnswer::Outcome(outcome)) => {
                self.installation = Some(outcome);
            },
            (InstallEffect::ReportFailure(_), InstallAnswer::Shown) => {
                self.failure_reported = true;
            },
            _ => {},
        }
    }
}

/// The command line that installs the bundler and its command-line companion
/// for all projects of the user.
pub open spec fn install_invocation(platform: Platform) -> InvocationModel {
    tool_invocation(Tool::PackageManager, platform).with_text("global"@).with_text(
        "add"@,
    ).with_text("webpack"@).with_text("webpack-cli"@)
}

/// How the installation itself goes on, given what came of running it so far.
pub open spec fn installation_progress(
    platform: Platform,
    installation: Option<SpawnOutcomeModel>,
    failure_reported: bool,
) -> ProgressModel<InstallEffectModel, ()> {
    match installation {
        None => ProgressModel::Need(InstallEffectModel::Install(install_invocation(platform))),
        Some(SpawnOutcomeModel::Failed(cause)) => ProgressModel::Done(
            Err(ErrorModel::InstallCommandError(cause)),
        ),
        Some(SpawnOutcomeModel::Ran(output)) => if output.success {
            ProgressModel::Done(Ok(()))
        } else if !failure_reported {
            ProgressModel::Need(InstallEffectModel::ReportFailure(output.stderr))
        } else {
            ProgressModel::Done(Err(ErrorModel::InstallFailed))
        },
    }
}

/// How the pipeline goes on once the installation is decided.
pub open spec fn installing_progress(
    platform: Platform,
    seen: InstallObservationsModel,
) -> InstallProgressModel {
    match installation_progress(platform, seen.installation, seen.failure_reported) {
        ProgressModel::Need(effect) => InstallProgressModel::Need(effect),
        ProgressModel::Done(result) => InstallProgressModel::Done(result),
    }
}

/// How to go on once the bundler is known to be missing.
pub open spec fn missing_bundler_progress(
    skip_prompt: bool,
    platform: Platform,
    seen: InstallObservationsModel,
) -> InstallProgressModel {
    if skip_prompt {
        installing_progress(platform, seen)
    } else {
        match seen.confirmation {
            None => InstallProgressModel::Need(InstallEffectModel::Confirm(WEBPACK_INSTALL_PROMPT@)),
            Some(ConfirmationModel::Failed(cause)) => InstallProgressModel::Done(
                Err(ErrorModel::PromptError(cause)),
            ),
            Some(ConfirmationModel::Answered(false)) => InstallProgressModel::Done(
                Err(ErrorModel::WebpackMissing),
            ),
            Some(ConfirmationModel::Answered(true)) => installing_progress(platform, seen),
        }
    }
}

/// How to go on once the package manager is known to be there.
pub open spec fn bundler_progress(
    skip_prompt: bool,
    platform: Platform,
    seen: InstallObservationsModel,
) -> InstallProgressModel {
    match seen.bundler {
        None => InstallProgressModel::Need(
            InstallEffectModel::ProbeBundler(probe_invocation(Tool::Bundler, platform)),
        ),
        Some(outcome) => match classify_probe(outcome) {
            ProbeResultModel::Present => InstallProgressModel::Done(Ok(())),
            ProbeResultModel::Error(cause) => InstallProgressModel::Done(
                Err(ErrorModel::WebpackCommandError(cause)),
            ),
            ProbeResultModel::Absent => missing_bundler_progress(skip_prompt, platform, seen),
        },
    }
}

/// How making sure that the bundler is installed goes on after `seen`.
pub open spec fn install_progress(
    skip_prompt: bool,
    platform: Platform,
    seen: InstallObservationsModel,
) -> InstallProgressModel {
    match seen.package_manager {
        None => InstallProgressModel::Need(
            InstallEffectModel::ProbePackageManager(
                probe_invocation(Tool::PackageManager, platform),
            ),
        ),
        Some(outcome) => match classify_probe(outcome) {
            ProbeResultModel::Absent => InstallProgressModel::Abort(YARN_MISSING@),
            ProbeResultModel::Error(cause) => InstallProgressModel::Done(
                Err(ErrorModel::YarnCommandError(cause)),
            ),
            ProbeResultModel::Present => bundler_progress(skip_prompt, platform, seen),
        },
    }
}

/// Whether the pipeline wants the user to be asked.
pub open spec fn asks_user(next: InstallProgressModel) -> bool {
    next matches InstallProgressModel::Need(InstallEffectModel::Confirm(_))
}

/// Whether the package manager was found and the bundler was then found
/// missing.
pub open spec fn found_bundler_missing(seen: InstallObservationsModel) -> bool {
    &&& seen.package_manager matches Some(outcome) && classify_probe(outcome) is Present
    &&& seen.bundler matches Some(outcome) && classify_probe(outcome) is Absent
}

/// Installs the bundler: says what to run, and reads what came of it.
pub fn install(platform: Platform, installation: &Option<SpawnOutcome>, failure_reported: bool) -> (next:
    Progress<InstallEffect, ()>)
    ensures
        next.deep_view() == installation_progress(
            platform,
            installation.deep_view(),
            failure_reported,
        ),
{
    match installation {
        None => {
            let command = yarn_command(platform).with_text("global").with_text("add").with_text(
                "webpack",
            ).with_text("webpack-cli");
            Progress::Need(InstallEffect::Install(command))
        },
        Some(SpawnOutcome::Failed(cause)) => Progress::Done(
            Err(Error::InstallCommandError(cause.duplicate())),
        ),
        Some(SpawnOutcome::Ran(output)) => {
            if output.success {
                Progress::Done(Ok(()))
            } else if !failure_reported {
                Progress::Need(InstallEffect::ReportFailure(output.stderr.clone()))
            } else {
                Progress::Done(Err(Error::InstallFailed))
            }
        },
    }
}

/// Makes sure that the bundler is installed.
///
/// With `skip_prompt` the bundler is installed without asking. The result
/// says what the caller is to do next after `seen`, or how the pipeline ended.
///
/// The user is never asked with `skip_prompt`. Without it the user is asked
/// exactly when the bundler was found missing and no answer is recorded yet,
/// so a caller that records the answer is not asked again.
pub fn install_if_required(
    skip_prompt: bool,
    platform: Platform,
    seen: &InstallObservations,
) -> (next: InstallProgress)
    ensures
        next.deep_view() == install_progress(skip_prompt, platform, seen.deep_view()),
        skip_prompt ==> !asks_user(next.deep_view()),
        asks_user(next.deep_view()) <==> !skip_prompt && found_bundler_missing(seen.deep_view())
            && seen.confirmation is None,
{
    let package_manager = match &seen.package_manager {
        None => {
            return InstallProgress::Need(
                InstallEffect::ProbePackageManager(probe_command(Tool::PackageManager, platform)),
            );
        },
        Some(outcome) => probe(outcome),
    };
    match package_manager {
        ProbeResult::Absent => { return InstallProgress::Abort(String::from_str(YARN_MISSING)); },
        ProbeResult::Error(cause) => { return InstallProgress::Done(Err(Error::YarnCommandError(cause))); },
        ProbeResult::Present => {},
    }
    let bundler = match &seen.bundler {
        None => {
            return InstallProgress::Need(
                InstallEffect::ProbeBundler(probe_command(Tool::Bundler, platform)),
            );
        },
        Some(outcome) => probe(outcome),
    };
    match bundler {
        ProbeResult::Present => { return InstallProgress::Done(Ok(())); },
        ProbeResult::Error(cause) => {
            return InstallProgress::Done(Err(Error::WebpackCommandError(cause)));
        },
        ProbeResult::Absent => {},
    }
    if !skip_prompt {
        match &seen.confirmation {
            None => {
                return InstallProgress::Need(
                    InstallEffect::Confirm(String::from_str(WEBPACK_INSTALL_PROMPT)),
                );
            },
            Some(Confirmation::Failed(cause)) => {
                return InstallProgress::Done(Err(Error::PromptError(cause.duplicate())));
            },
            Some(Confirmation::Answered(false)) => {
                return InstallProgress::Done(Err(Error::WebpackMissing));
            },
            Some(Confirmation::Answered(true)) => {},
        }
    }
    match install(platform, &seen.installation, seen.failure_reported) {
        Progress::Need(effect) => InstallProgress::Need(effect),
        Progress::Done(result) => InstallProgress::Done(result),
    }
}

} // verus!
