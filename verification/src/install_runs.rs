//! Whole runs of the installation pipeline.
//!
//! The surroundings are fixed in advance as the answers they would give. A
//! run starts with nothing observed, performs what the pipeline asks for,
//! records each answer, and asks again until the pipeline is over.

use vstd::prelude::*;
use crate::error::ErrorModel;
use crate::install::{
    install_invocation, install_progress, ConfirmationModel, InstallAnswerModel,
    InstallEffectModel, InstallObservationsModel, InstallProgressModel, WEBPACK_INSTALL_PROMPT,
    YARN_MISSING,
};
use crate::platform::{probe_invocation, Platform, Tool};
use crate::process::{classify_probe, ProbeResultModel, SpawnOutcomeModel};

verus! {

/// What the surroundings answer to each effect of the installation pipeline.
pub struct InstallWorld {
    /// What comes of looking for the package manager.
    pub package_manager: SpawnOutcomeModel,
    /// What comes of looking for the bundler.
    pub bundler: SpawnOutcomeModel,
    /// What the user answers when asked.
    pub confirmation: ConfirmationModel,
    /// What comes of running the installation.
    pub installation: SpawnOutcomeModel,
}

/// What comes of performing `effect` in `world`.
pub open spec fn answer_to(effect: InstallEffectModel, world: InstallWorld) -> InstallAnswerModel {
    match effect {
        InstallEffectModel::ProbePackageManager(_) => InstallAnswerModel::Outcome(
            world.package_manager,
        ),
        InstallEffectModel::ProbeBundler(_) => InstallAnswerModel::Outcome(world.bundler),
        InstallEffectModel::Confirm(_) => InstallAnswerModel::Confirmation(world.confirmation),
        InstallEffectModel::Install(_) => InstallAnswerModel::Outcome(world.installation),
        InstallEffectModel::ReportFailure(_) => InstallAnswerModel::Shown,
    }
}

/// The effects performed from `seen` on, in order, up to `limit` of them.
pub open spec fn effects_from(
    skip_prompt: bool,
    platform: Platform,
    seen: InstallObservationsModel,
    world: InstallWorld,
    limit: nat,
) -> Seq<InstallEffectModel>
    decreases limit,
{
    match install_progress(skip_prompt, platform, seen) {
        InstallProgressModel::Need(effect) => if limit == 0 {
            Seq::empty()
        } else {
            seq![effect] + effects_from(
                skip_prompt,
                platform,
                seen.record(effect, answer_to(effect, world)),
                world,
                (limit - 1) as nat,
            )
        },
        _ => Seq::empty(),
    }
}

/// What the pipeline says after up to `limit` effects have been performed
/// from `seen` on.
pub open spec fn end_from(
    skip_prompt: bool,
    platform: Platform,
    seen: InstallObservationsModel,
    world: InstallWorld,
    limit: nat,
) -> InstallProgressModel
    decreases limit,
{
    match install_progress(skip_prompt, platform, seen) {
        InstallProgressModel::Need(effect) => if limit == 0 {
            InstallProgressModel::Need(effect)
        } else {
            end_from(
                skip_prompt,
                platform,
                seen.record(effect, answer_to(effect, world)),
                world,
                (limit - 1) as nat,
            )
        },
        over => over,
    }
}

/// No run performs more effects than this.
pub open spec fn longest_run() -> nat {
    5
}

/// The effects a run in `world` performs, in order.
pub open spec fn run_effects(skip_prompt: bool, platform: Platform, world: InstallWorld) -> Seq<
    InstallEffectModel,
> {
    effects_from(skip_prompt, platform, InstallObservationsModel::nothing(), world, longest_run())
}

/// What the pipeline says at the end of a run in `world`.
pub open spec fn run_end(
    skip_prompt: bool,
    platform: Platform,
    world: InstallWorld,
) -> InstallProgressModel {
    end_from(skip_prompt, platform, InstallObservationsModel::nothing(), world, longest_run())
}

/// How often the user is asked in a list of effects.
pub open spec fn times_asked(effects: Seq<InstallEffectModel>) -> nat
    decreases effects.len(),
{
    if effects.len() == 0 {
        0
    } else {
        times_asked(effects.drop_first()) + if effects.first() is Confirm {
            1nat
        } else {
            0nat
        }
    }
}

/// What comes of running the installation in `world`.
pub open spec fn installation_outcome(world: InstallWorld) -> Result<(), ErrorModel> {
    match world.installation {
        SpawnOutcomeModel::Failed(cause) => Err(ErrorModel::InstallCommandError(cause)),
        SpawnOutcomeModel::Ran(output) => if output.success {
            Ok(())
        } else {
            Err(ErrorModel::InstallFailed)
        },
    }
}

/// How the pipeline is to end in `world`: the package manager has to be
/// there; a bundler that is there needs nothing; a missing one is installed
/// if the user need not be asked or agrees.
pub open spec fn install_outcome(skip_prompt: bool, world: InstallWorld) -> InstallProgressModel {
    match classify_probe(world.package_manager) {
        ProbeResultModel::Absent => InstallProgressModel::Abort(YARN_MISSING@),
        ProbeResultModel::Error(cause) => InstallProgressModel::Done(
            Err(ErrorModel::YarnCommandError(cause)),
        ),
        ProbeResultModel::Present => match classify_probe(world.bundler) {
            ProbeResultModel::Present => InstallProgressModel::Done(Ok(())),
            ProbeResultModel::Error(cause) => InstallProgressModel::Done(
                Err(ErrorModel::WebpackCommandError(cause)),
            ),
            ProbeResultModel::Absent => if skip_prompt {
                InstallProgressModel::Done(installation_outcome(world))
            } else {
                match world.confirmation {
                    ConfirmationModel::Failed(cause) => InstallProgressModel::Done(
                        Err(ErrorModel::PromptError(cause)),
                    ),
                    ConfirmationModel::Answered(false) => InstallProgressModel::Done(
                        Err(ErrorModel::WebpackMissing),
                    ),
                    ConfirmationModel::Answered(true) => InstallProgressModel::Done(
                        installation_outcome(world),
                    ),
                }
            },
        },
    }
}

/// Whether a run in `world` finds the package manager and then finds the
/// bundler missing.
pub open spec fn finds_bundler_missing(world: InstallWorld) -> bool {
    classify_probe(world.package_manager) is Present && classify_probe(world.bundler) is Absent
}

/// What running the installation in `world` takes.
pub open spec fn installation_steps(platform: Platform, world: InstallWorld) -> Seq<
    InstallEffectModel,
> {
    seq![InstallEffectModel::Install(install_invocation(platform))] + match world.installation {
        SpawnOutcomeModel::Ran(output) if !output.success => seq![
            InstallEffectModel::ReportFailure(output.stderr),
        ],
        _ => Seq::empty(),
    }
}

/// What a run takes once the bundler is found missing.
pub open spec fn missing_bundler_steps(
    skip_prompt: bool,
    platform: Platform,
    world: InstallWorld,
) -> Seq<InstallEffectModel> {
    if skip_prompt {
        installation_steps(platform, world)
    } else {
        seq![InstallEffectModel::Confirm(WEBPACK_INSTALL_PROMPT@)] + if world.confirmation
            == ConfirmationModel::Answered(true) {
            installation_steps(platform, world)
        } else {
            Seq::empty()
        }
    }
}

/// What a run takes once the package manager is found.
pub open spec fn bundler_steps(skip_prompt: bool, platform: Platform, world: InstallWorld) -> Seq<
    InstallEffectModel,
> {
    seq![InstallEffectModel::ProbeBundler(probe_invocation(Tool::Bundler, platform))] + if classify_probe(
        world.bundler,
    ) is Absent {
        missing_bundler_steps(skip_prompt, platform, world)
    } else {
        Seq::empty()
    }
}

/// What a whole run in `world` is to take, in order: each step is taken only
/// if the steps before it call for it.
pub open spec fn install_steps(skip_prompt: bool, platform: Platform, world: InstallWorld) -> Seq<
    InstallEffectModel,
> {
    seq![
        InstallEffectModel::ProbePackageManager(probe_invocation(Tool::PackageManager, platform)),
    ] + if classify_probe(world.package_manager) is Present {
        bundler_steps(skip_prompt, platform, world)
    } else {
        Seq::empty()
    }
}

/// Every run is over within [`longest_run`] effects, and it ends as
/// [`install_outcome`] says.
pub proof fn lemma_run_ends(skip_prompt: bool, platform: Platform, world: InstallWorld)
    ensures
        run_end(skip_prompt, platform, world) == install_outcome(skip_prompt, world),
        !(run_end(skip_prompt, platform, world) is Need),
        run_effects(skip_prompt, platform, world).len() <= longest_run(),
{
    reveal_with_fuel(end_from, 6);
    reveal_with_fuel(effects_from, 6);
}

/// Every run performs exactly the effects of [`install_steps`].
pub proof fn lemma_run_effects(skip_prompt: bool, platform: Platform, world: InstallWorld)
    ensures
        run_effects(skip_prompt, platform, world) == install_steps(skip_prompt, platform, world),
{
    reveal_with_fuel(effects_from, 6);
    assert(run_effects(skip_prompt, platform, world) =~= install_steps(
        skip_prompt,
        platform,
        world,
    ));
}

proof fn lemma_times_asked_first(effect: InstallEffectModel, rest: Seq<InstallEffectModel>)
    ensures
        times_asked(seq![effect] + rest) == times_asked(rest) + if effect is Confirm {
            1nat
        } else {
            0nat
        },
{
    assert((seq![effect] + rest).drop_first() =~= rest);
}

proof fn lemma_times_asked_in_steps(skip_prompt: bool, platform: Platform, world: InstallWorld)
    ensures
        times_asked(install_steps(skip_prompt, platform, world)) == if !skip_prompt
            && finds_bundler_missing(world) {
            1nat
        } else {
            0nat
        },
{
    let install = installation_steps(platform, world);
    assert(times_asked(install) == 0) by {
        let first = InstallEffectModel::Install(install_invocation(platform));
        match world.installation {
            SpawnOutcomeModel::Ran(output) if !output.success => {
                let second = InstallEffectModel::ReportFailure(output.stderr);
                lemma_times_asked_first(second, Seq::empty());
                assert(seq![second] + Seq::<InstallEffectModel>::empty() =~= seq![second]);
                lemma_times_asked_first(first, seq![second]);
            },
            _ => {
                lemma_times_asked_first(first, Seq::empty());
            },
        }
    }
    let missing = missing_bundler_steps(skip_prompt, platform, world);
    assert(times_asked(missing) == if skip_prompt { 0nat } else { 1nat }) by {
        if !skip_prompt {
            let ask = InstallEffectModel::Confirm(WEBPACK_INSTALL_PROMPT@);
            if world.confirmation == ConfirmationModel::Answered(true) {
                lemma_times_asked_first(ask, install);
            } else {
                lemma_times_asked_first(ask, Seq::empty());
            }
        }
    }
    let look = InstallEffectModel::ProbeBundler(probe_invocation(Tool::Bundler, platform));
    if classify_probe(world.bundler) is Absent {
        lemma_times_asked_first(look, missing);
    } else {
        lemma_times_asked_first(look, Seq::empty());
    }
    let first = InstallEffectModel::ProbePackageManager(
        probe_invocation(Tool::PackageManager, platform),
    );
    if classify_probe(world.package_manager) is Present {
        lemma_times_asked_first(first, bundler_steps(skip_prompt, platform, world));
    } else {
        lemma_times_asked_first(first, Seq::empty());
    }
}

/// With `skip_prompt` no run ever asks the user.
pub proof fn lemma_skip_prompt_never_asks(platform: Platform, world: InstallWorld)
    ensures
        times_asked(run_effects(true, platform, world)) == 0,
{
    lemma_run_effects(true, platform, world);
    lemma_times_asked_in_steps(true, platform, world);
}

/// Without `skip_prompt` a run asks the user exactly once if it finds the
/// package manager and then finds the bundler missing, and not at all
/// otherwise.
pub proof fn lemma_asks_once_for_missing_bundler(platform: Platform, world: InstallWorld)
    ensures
        times_asked(run_effects(false, platform, world)) == if finds_bundler_missing(world) {
            1nat
        } else {
            0nat
        },
{
    lemma_run_effects(false, platform, world);
    lemma_times_asked_in_steps(false, platform, world);
}

} // verus!
