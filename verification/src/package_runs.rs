//! Whole runs of the packaging pipeline.
//!
//! The surroundings are fixed in advance as the answers they would give. A
//! run starts with nothing observed, performs what the pipeline asks for,
//! records each answer, and asks again until the pipeline is over.

use vstd::prelude::*;
use crate::error::ErrorModel;
use crate::package::{
    bundle_invocation, package_progress, PackageAnswerModel, PackageEffectModel,
    PackageObservationsModel, PackagingRequestModel,
};
use crate::path::PathPartModel;
use crate::platform::Platform;
use crate::process::SpawnOutcomeModel;
use crate::progress::ProgressModel;
use crate::scaffold::{html_index_artifact, js_index_artifact, WriteOutcomeModel};

verus! {

/// What the surroundings answer to each effect of the packaging pipeline.
pub struct PackageWorld {
    /// What comes of writing the bootstrap module.
    pub js_index: WriteOutcomeModel,
    /// What comes of running the bundler.
    pub bundle: SpawnOutcomeModel,
    /// What comes of writing the host page.
    pub html_index: WriteOutcomeModel,
}

/// What comes of performing `effect` in `world`.
pub open spec fn answer_to(effect: PackageEffectModel, world: PackageWorld) -> PackageAnswerModel {
    match effect {
        PackageEffectModel::WriteJsIndex(_) => PackageAnswerModel::Write(world.js_index),
        PackageEffectModel::Bundle(_) => PackageAnswerModel::Outcome(world.bundle),
        PackageEffectModel::ShowOutput(_) => PackageAnswerModel::Shown,
        PackageEffectModel::WriteHtmlIndex(_) => PackageAnswerModel::Write(world.html_index),
    }
}

/// The effects performed from `seen` on, in order, up to `limit` of them.
pub open spec fn effects_from(
    platform: Platform,
    request: PackagingRequestModel,
    seen: PackageObservationsModel,
    world: PackageWorld,
    limit: nat,
) -> Seq<PackageEffectModel>
    decreases limit,
{
    match package_progress(platform, request, seen) {
        ProgressModel::Need(effect) => if limit == 0 {
            Seq::empty()
        } else {
            seq![effect] + effects_from(
                platform,
                request,
                seen.record(effect, answer_to(effect, world)),
                world,
                (limit - 1) as nat,
            )
        },
        _ => Seq::empty(),
    }
}

/// What the pipeline says after up to `limit` effects have been performed
/// from `seen` on.
pub open spec fn end_from(
    platform: Platform,
    request: PackagingRequestModel,
    seen: PackageObservationsModel,
    world: PackageWorld,
    limit: nat,
) -> ProgressModel<PackageEffectModel, Seq<PathPartModel>>
    decreases limit,
{
    match package_progress(platform, request, seen) {
        ProgressModel::Need(effect) => if limit == 0 {
            ProgressModel::Need(effect)
        } else {
            end_from(
                platform,
                request,
                seen.record(effect, answer_to(effect, world)),
                world,
                (limit - 1) as nat,
            )
        },
        over => over,
    }
}

/// No run performs more effects than this.
pub open spec fn longest_run() -> nat {
    4
}

/// The effects a run in `world` performs, in order.
pub open spec fn run_effects(
    platform: Platform,
    request: PackagingRequestModel,
    world: PackageWorld,
) -> Seq<PackageEffectModel> {
    effects_from(platform, request, PackageObservationsModel::nothing(), world, longest_run())
}

/// What the pipeline says at the end of a run in `world`.
pub open spec fn run_end(
    platform: Platform,
    request: PackagingRequestModel,
    world: PackageWorld,
) -> ProgressModel<PackageEffectModel, Seq<PathPartModel>> {
    end_from(platform, request, PackageObservationsModel::nothing(), world, longest_run())
}

/// How packaging `request` is to end in `world`: with the path of the bundled
/// script if both files were written and the bundler reported success, and
/// else with the error of the first step that failed.
pub open spec fn package_outcome(request: PackagingRequestModel, world: PackageWorld) -> Result<
    Seq<PathPartModel>,
    ErrorModel,
> {
    match world.js_index {
        WriteOutcomeModel::Failed(cause) => Err(ErrorModel::WriteJsIndexError(cause)),
        WriteOutcomeModel::Written => match world.bundle {
            SpawnOutcomeModel::Failed(cause) => Err(ErrorModel::PackageCommandError(cause)),
            SpawnOutcomeModel::Ran(output) => if !output.success {
                Err(ErrorModel::PackageFailed)
            } else {
                match world.html_index {
                    WriteOutcomeModel::Failed(cause) => Err(ErrorModel::WriteHtmlIndexError(cause)),
                    WriteOutcomeModel::Written => Ok(request.out_file()),
                }
            },
        },
    }
}

/// What a run takes once the bootstrap module is written.
pub open spec fn bundle_steps(
    platform: Platform,
    request: PackagingRequestModel,
    world: PackageWorld,
) -> Seq<PackageEffectModel> {
    seq![PackageEffectModel::Bundle(bundle_invocation(platform, request))] + match world.bundle {
        SpawnOutcomeModel::Ran(output) if output.success => seq![
            PackageEffectModel::ShowOutput(output.stdout),
            PackageEffectModel::WriteHtmlIndex(
                html_index_artifact(request.target_name, request.out_dir()),
            ),
        ],
        _ => Seq::empty(),
    }
}

/// What a whole run in `world` is to take, in order: each step is taken only
/// if the steps before it went well.
pub open spec fn package_steps(
    platform: Platform,
    request: PackagingRequestModel,
    world: PackageWorld,
) -> Seq<PackageEffectModel> {
    seq![
        PackageEffectModel::WriteJsIndex(
            js_index_artifact(request.target_name, request.build_dir()),
        ),
    ] + if world.js_index is Written {
        bundle_steps(platform, request, world)
    } else {
        Seq::empty()
    }
}

/// Every run is over within [`longest_run`] effects, and it ends as
/// [`package_outcome`] says.
pub proof fn lemma_run_ends(platform: Platform, request: PackagingRequestModel, world: PackageWorld)
    ensures
        run_end(platform, request, world) == ProgressModel::<
            PackageEffectModel,
            Seq<PathPartModel>,
        >::Done(package_outcome(request, world)),
        run_effects(platform, request, world).len() <= longest_run(),
{
    reveal_with_fuel(end_from, 5);
    reveal_with_fuel(effects_from, 5);
}

/// Every run performs exactly the effects of [`package_steps`].
pub proof fn lemma_run_effects(
    platform: Platform,
    request: PackagingRequestModel,
    world: PackageWorld,
)
    ensures
        run_effects(platform, request, world) == package_steps(platform, request, world),
{
    reveal_with_fuel(effects_from, 5);
    assert(run_effects(platform, request, world) =~= package_steps(platform, request, world));
}

/// Where the bundler ran and reported failure, the run ends with
/// `PackageFailed` and never asks for the host page to be written.
pub proof fn lemma_failed_bundle_writes_no_page(
    platform: Platform,
    request: PackagingRequestModel,
    world: PackageWorld,
)
    requires
        world.js_index is Written,
        world.bundle matches SpawnOutcomeModel::Ran(output) && !output.success,
    ensures
        run_end(platform, request, world) == ProgressModel::<
            PackageEffectModel,
            Seq<PathPartModel>,
        >::Done(Err(ErrorModel::PackageFailed)),
        forall|i: int|
            0 <= i < run_effects(platform, request, world).len() ==> !(#[trigger] run_effects(
                platform,
                request,
                world,
            )[i] is WriteHtmlIndex),
{
    lemma_run_ends(platform, request, world);
    lemma_run_effects(platform, request, world);
}

/// Where both files can be written and the bundler reports success, the run
/// yields the path of the bundled script, and the last thing it asks for is
/// the host page beside that script.
pub proof fn lemma_success_writes_page_last(
    platform: Platform,
    request: PackagingRequestModel,
    world: PackageWorld,
)
    requires
        world.js_index is Written,
        world.bundle matches SpawnOutcomeModel::Ran(output) && output.success,
        world.html_index is Written,
    ensures
        run_end(platform, request, world) == ProgressModel::<
            PackageEffectModel,
            Seq<PathPartModel>,
        >::Done(Ok(request.out_file())),
        run_effects(platform, request, world).last() == PackageEffectModel::WriteHtmlIndex(
            html_index_artifact(request.target_name, request.out_dir()),
        ),
{
    lemma_run_ends(platform, request, world);
    lemma_run_effects(platform, request, world);
}

} // verus!
