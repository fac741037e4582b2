//! Packaging a compiled module: the bootstrap module is written beside it,
//! the bundler turns that into one script in the directory above, and the
//! host page is written next to the script.

use vstd::prelude::*;
use crate::error::{Error, ErrorModel};
use crate::path::{
    check_file_stem, directory_of, entry_of, is_file_stem, lemma_entry_lies_in_its_directory,
    parent_of, FsPath, PathPartModel,
};
use crate::platform::{
    tool_invocation, webpack_command, Invocation, InvocationModel, Platform, Tool,
};
use crate::process::{SpawnOutcome, SpawnOutcomeModel};
use crate::progress::{Progress, ProgressModel};
use crate::scaffold::{
    bundle_file_name, bundle_name, create_html_index, create_js_index, html_index_progress,
    js_index_progress, Artifact, ArtifactModel, WriteOutcome, WriteOutcomeModel, JS_INDEX_NAME,
};

verus! {

/// Mathematical value of a [`PackagingRequest`].
pub struct PackagingRequestModel {
    pub target_name: Seq<char>,
    pub path: Seq<PathPartModel>,
}

impl PackagingRequestModel {
    /// The directory that holds the compiled module.
    pub open spec fn build_dir(self) -> Seq<PathPartModel> {
        directory_of(self.path)
    }

    /// Whether the request can be served: the target's name is the stem of a
    /// file name, and the directory of the compiled module has a parent.
    pub open spec fn valid(self) -> bool {
        is_file_stem(self.target_name) && parent_of(self.build_dir()) is Some
    }

    /// The directory above the one that holds the compiled module.
    pub open spec fn out_dir(self) -> Seq<PathPartModel> {
        parent_of(self.build_dir()).unwrap()
    }

    /// Where the bundled script goes.
    pub open spec fn out_file(self) -> Seq<PathPartModel> {
        entry_of(self.out_dir(), bundle_name(self.target_name))
    }

    /// The bootstrap module, from which the bundler starts.
    pub open spec fn entry_file(self) -> Seq<PathPartModel> {
        entry_of(self.build_dir(), JS_INDEX_NAME@)
    }
}

/// Where the files of a valid request lie: the bootstrap module beside the
/// compiled module, and the bundled script in the directory above.
pub proof fn lemma_layout(request: PackagingRequestModel)
    requires
        request.valid(),
    ensures
        parent_of(request.entry_file()) == Some(request.build_dir()),
        parent_of(request.build_dir()) == Some(request.out_dir()),
        parent_of(request.out_file()) == Some(request.out_dir()),
{
    lemma_entry_lies_in_its_directory(request.build_dir(), JS_INDEX_NAME@);
    lemma_entry_lies_in_its_directory(request.out_dir(), bundle_name(request.target_name));
}

/// What is to be packaged: the name of the target, which is the base name of
/// the compiled module, and where the compiled module lies. The two
/// directories the pipeline works in are kept beside them.
#[derive(Debug, PartialEq, Eq)]
pub struct PackagingRequest {
    target_name: String,
    path: FsPath,
    build_dir: FsPath,
    out_dir: FsPath,
}

impl DeepView for PackagingRequest {
    type V = PackagingRequestModel;

    closed spec fn deep_view(&self) -> PackagingRequestModel {
        PackagingRequestModel { target_name: self.target_name@, path: self.path.deep_view() }
    }
}

impl PackagingRequest {
    #[verifier::type_invariant]
    spec fn well_formed(self) -> bool {
        &&& self.deep_view().valid()
        &&& self.build_dir.deep_view() == self.deep_view().build_dir()
        &&& self.out_dir.deep_view() == self.deep_view().out_dir()
    }

    /// Checks a target name and the path of its compiled module. There is a
    /// request exactly where the two are valid together.
    pub fn new(target_name: &str, path: FsPath) -> (request: Option<PackagingRequest>)
        ensures
            request is Some <==> (PackagingRequestModel {
                target_name: target_name@,
                path: path.deep_view(),
            }).valid(),
            request matches Some(made) ==> made.deep_view() == (PackagingRequestModel {
                target_name: target_name@,
                path: path.deep_view(),
            }),
    {
        if !check_file_stem(target_name) {
            return None;
        }
        let build_dir = path.directory();
        match build_dir.parent() {
            None => None,
            Some(out_dir) => Some(
                PackagingRequest {
                    target_name: String::from_str(target_name),
                    path,
                    build_dir,
                    out_dir,
                },
            ),
        }
    }

    /// The name of the target.
    pub fn target_name(&self) -> (name: &str)
        ensures
            name@ == self.deep_view().target_name,
    {
        self.target_name.as_str()
    }

    /// Where the compiled module lies.
    pub fn path(&self) -> (path: &FsPath)
        ensures
            path.deep_view() == self.deep_view().path,
    {
        &self.path
    }

    /// The directory that holds the compiled module.
    pub fn build_dir(&self) -> (dir: &FsPath)
        ensures
            self.deep_view().valid(),
            dir.deep_view() == self.deep_view().build_dir(),
    {
        proof {
            use_type_invariant(self);
        }
        &self.build_dir
    }

    /// The directory above the one that holds the compiled module.
    pub fn out_dir(&self) -> (dir: &FsPath)
        ensures
            self.deep_view().valid(),
            dir.deep_view() == self.deep_view().out_dir(),
    {
        proof {
            use_type_invariant(self);
        }
        &self.out_dir
    }

    /// Where the bundled script goes.
    pub fn out_file(&self) -> (file: FsPath)
        ensures
            self.deep_view().valid(),
            file.deep_view() == self.deep_view().out_file(),
    {
        let name = bundle_file_name(self.target_name.as_str());
        self.out_dir().join(name.as_str())
    }
}

/// What has been observed so far while packaging. Each field is `None` (or
/// `false`) until the matching [`PackageEffect`] has been performed and its
/// answer recorded.
#[derive(Debug, PartialEq, Eq)]
pub struct PackageObservations {
    /// What came of writing the bootstrap module.
    pub js_index: Option<WriteOutcome>,
    /// What came of running the bundler.
    pub bundle: Option<SpawnOutcome>,
    /// Whether the output of the bundler has been shown.
    pub output_shown: bool,
    /// What came of writing the host page.
    pub html_index: Option<WriteOutcome>,
}

/// Mathematical value of [`PackageObservations`].
pub struct PackageObservationsModel {
    pub js_index: Option<WriteOutcomeModel>,
    pub bundle: Option<SpawnOutcomeModel>,
    pub output_shown: bool,
    pub html_index: Option<WriteOutcomeModel>,
}

impl DeepView for PackageObservations {
    type V = PackageObservationsModel;

    open spec fn deep_view(&self) -> PackageObservationsModel {
        PackageObservationsModel {
            js_index: self.js_index.deep_view(),
            bundle: self.bundle.deep_view(),
            output_shown: self.output_shown,
            html_index: self.html_index.deep_view(),
        }
    }
}

impl PackageObservationsModel {
    /// The observations before anything has been done.
    pub open spec fn nothing() -> PackageObservationsModel {
        PackageObservationsModel {
            js_index: None,
            bundle: None,
            output_shown: false,
            html_index: None,
        }
    }
}

impl PackageObservations {
    /// The observations before anything has been done.
    pub fn new() -> (seen: PackageObservations)
        ensures
            seen.deep_view() == PackageObservationsModel::nothing(),
    {
        PackageObservations { js_index: None, bundle: None, output_shown: false, html_index: None }
    }
}

/// What the caller may be asked to do while a module is packaged.
#[derive(Debug, PartialEq, Eq)]
pub enum PackageEffect {
    /// Write this file, the bootstrap module, replacing what is there, and
    /// answer with what came of writing.
    WriteJsIndex(Artifact),
    /// Run this command, which bundles, and answer with its outcome.
    Bundle(Invocation),
    /// Show these bytes, the output of the bundler, and answer that they
    /// were shown.
    ShowOutput(Vec<u8>),
    /// Write this file, the host page, replacing what is there, and answer
    /// with what came of writing.
    WriteHtmlIndex(Artifact),
}

/// Mathematical value of a [`PackageEffect`].
pub enum PackageEffectModel {
    WriteJsIndex(ArtifactModel),
    Bundle(InvocationModel),
    ShowOutput(Seq<u8>),
    WriteHtmlIndex(ArtifactModel),
}

impl DeepView for PackageEffect {
    type V = PackageEffectModel;

    open spec fn deep_view(&self) -> PackageEffectModel {
        match self {
            PackageEffect::WriteJsIndex(file) => PackageEffectModel::WriteJsIndex(file.deep_view()),
            PackageEffect::Bundle(command) => PackageEffectModel::Bundle(command.deep_view()),
            PackageEffect::ShowOutput(output) => PackageEffectModel::ShowOutput(output@),
            PackageEffect::WriteHtmlIndex(file) => PackageEffectModel::WriteHtmlIndex(
                file.deep_view(),
            ),
        }
    }
}

/// What came of performing a [`PackageEffect`].
#[derive(Debug, PartialEq, Eq)]
pub enum PackageAnswer {
    /// What came of writing a file.
    Write(WriteOutcome),
    /// What came of running a command.
    Outcome(SpawnOutcome),
    /// The output has been shown.
    Shown,
}

/// Mathematical value of a [`PackageAnswer`].
pub enum PackageAnswerModel {
    Write(WriteOutcomeModel),
    Outcome(SpawnOutcomeModel),
    Shown,
}

impl DeepView for PackageAnswer {
    type V = PackageAnswerModel;

    open spec fn deep_view(&self) -> PackageAnswerModel {
        match self {
            PackageAnswer::Write(outcome) => PackageAnswerModel::Write(outcome.deep_view()),
            PackageAnswer::Outcome(outcome) => PackageAnswerModel::Outcome(outcome.deep_view()),
            PackageAnswer::Shown => PackageAnswerModel::Shown,
        }
    }
}

impl PackageObservationsModel {
    /// The observations after `effect` has been performed and `answer` came
    /// of it. An answer of another kind than the effect asks for is not
    /// recorded.
    pub open spec fn record(
        self,
        effect: PackageEffectModel,
        answer: PackageAnswerModel,
    ) -> PackageObservationsModel {
        match (effect, answer) {
            (
                PackageEffectModel::WriteJsIndex(_),
                PackageAnswerModel::Write(outcome),
            ) => PackageObservationsModel { js_index: Some(outcome), ..self },
            (
                PackageEffectModel::Bundle(_),
                PackageAnswerModel::Outcome(outcome),
            ) => PackageObservationsModel { bundle: Some(outcome), ..self },
            (
                PackageEffectModel::ShowOutput(_),
                PackageAnswerModel::Shown,
            ) => PackageObservationsModel { output_shown: true, ..self },
            (
                PackageEffectModel::WriteHtmlIndex(_),
                PackageAnswerModel::Write(outcome),
            ) => PackageObservationsModel { html_index: Some(outcome), ..self },
            _ => self,
        }
    }
}

impl PackageObservations {
    /// Records what came of performing `effect`.
    pub fn record(&mut self, effect: &PackageEffect, answer: PackageAnswer)
        ensures
            final(self).deep_view() == old(self).deep_view().record(
                effect.deep_view(),
                answer.deep_view(),
            ),
    {
        match (effect, answer) {
            (PackageEffect::WriteJsIndex(_), PackageAnswer::Write(outcome)) => {
                self.js_index = Some(outcome);
            },
            (PackageEffect::Bundle(_), PackageAnswer::Outcome(outcome)) => {
                self.bundle = Some(outcome);
            },
            (PackageEffect::ShowOutput(_), PackageAnswer::Shown) => {
                self.output_shown = true;
            },
            (PackageEffect::WriteHtmlIndex(_), PackageAnswer::Write(outcome)) => {
                self.html_index = Some(outcome);
            },
            _ => {},
        }
    }
}

/// The command line that bundles: the bootstrap module goes in, the bundled
/// script comes out, and the bundler works in development mode.
pub open spec fn bundle_invocation(
    platform: Platform,
    request: PackagingRequestModel,
) -> InvocationModel {
    tool_invocation(Tool::Bundler, platform).with_path(request.entry_file()).with_text(
        "--output"@,
    ).with_path(request.out_file()).with_text("--mode"@).with_text("development"@)
}

/// How packaging goes on once the bundler has run with success.
pub open spec fn host_page_progress(
    request: PackagingRequestModel,
    seen: PackageObservationsModel,
) -> ProgressModel<PackageEffectModel, Seq<PathPartModel>> {
    match html_index_progress(request.target_name, request.out_dir(), seen.html_index) {
        ProgressModel::Need(file) => ProgressModel::Need(PackageEffectModel::WriteHtmlIndex(file)),
        ProgressModel::Done(Err(error)) => ProgressModel::Done(Err(error)),
        ProgressModel::Done(Ok(_)) => ProgressModel::Done(Ok(request.out_file())),
    }
}

/// How packaging goes on once the bootstrap module is written.
pub open spec fn bundle_progress(
    platform: Platform,
    request: PackagingRequestModel,
    seen: PackageObservationsModel,
) -> ProgressModel<PackageEffectModel, Seq<PathPartModel>> {
    match seen.bundle {
        None => ProgressModel::Need(PackageEffectModel::Bundle(bundle_invocation(platform, request))),
        Some(SpawnOutcomeModel::Failed(cause)) => ProgressModel::Done(
            Err(ErrorModel::PackageCommandError(cause)),
        ),
        Some(SpawnOutcomeModel::Ran(output)) => if !output.success {
            ProgressModel::Done(Err(ErrorModel::PackageFailed))
        } else if !seen.output_shown {
            ProgressModel::Need(PackageEffectModel::ShowOutput(output.stdout))
        } else {
            host_page_progress(request, seen)
        },
    }
}

/// How packaging `request` goes on after `seen`.
pub open spec fn package_progress(
    platform: Platform,
    request: PackagingRequestModel,
    seen: PackageObservationsModel,
) -> ProgressModel<PackageEffectModel, Seq<PathPartModel>> {
    match js_index_progress(request.target_name, request.build_dir(), seen.js_index) {
        ProgressModel::Need(file) => ProgressModel::Need(PackageEffectModel::WriteJsIndex(file)),
        ProgressModel::Done(Err(error)) => ProgressModel::Done(Err(error)),
        ProgressModel::Done(Ok(_)) => bundle_progress(platform, request, seen),
    }
}

/// Whether the bootstrap module was written and the bundler then ran and
/// reported failure.
pub open spec fn bundler_reported_failure(seen: PackageObservationsModel) -> bool {
    &&& seen.js_index == Some(WriteOutcomeModel::Written)
    &&& seen.bundle matches Some(SpawnOutcomeModel::Ran(output)) && !output.success
}

/// Whether the bundler ran and reported success.
pub open spec fn bundler_reported_success(seen: PackageObservationsModel) -> bool {
    seen.bundle matches Some(SpawnOutcomeModel::Ran(output)) && output.success
}

/// Packages a compiled module.
///
/// The result says what the caller is to do next after `seen`, or how the
/// pipeline ended: with the path of the bundled script, or with an error.
///
/// After the bundler reported failure the pipeline is over; the host page is
/// asked for only after the bundler reported success.
pub fn package_bin(platform: Platform, request: &PackagingRequest, seen: &PackageObservations) -> (next:
    Progress<PackageEffect, FsPath>)
    ensures
        request.deep_view().valid(),
        next.deep_view() == package_progress(platform, request.deep_view(), seen.deep_view()),
        bundler_reported_failure(seen.deep_view()) ==> next.deep_view() == ProgressModel::<
            PackageEffectModel,
            Seq<PathPartModel>,
        >::Done(Err(ErrorModel::PackageFailed)),
        next.deep_view() matches ProgressModel::Need(PackageEffectModel::WriteHtmlIndex(_))
            ==> bundler_reported_success(seen.deep_view()),
{
    let build_dir = request.build_dir();
    match create_js_index(request.target_name(), build_dir, &seen.js_index) {
        Progress::Need(file) => { return Progress::Need(PackageEffect::WriteJsIndex(file)); },
        Progress::Done(Err(error)) => { return Progress::Done(Err(error)); },
        Progress::Done(Ok(_)) => {},
    }
    let out_file = request.out_file();
    match &seen.bundle {
        None => {
            let command = webpack_command(platform).with_path(
                build_dir.join(JS_INDEX_NAME),
            ).with_text("--output").with_path(out_file).with_text("--mode").with_text(
                "development",
            );
            return Progress::Need(PackageEffect::Bundle(command));
        },
        Some(SpawnOutcome::Failed(cause)) => {
            return Progress::Done(Err(Error::PackageCommandError(cause.duplicate())));
        },
        Some(SpawnOutcome::Ran(output)) => {
            if !output.success {
                return Progress::Done(Err(Error::PackageFailed));
            }
            if !seen.output_shown {
                return Progress::Need(PackageEffect::ShowOutput(output.stdout.clone()));
            }
        },
    }
    match create_html_index(request.target_name(), request.out_dir(), &seen.html_index) {
        Progress::Need(file) => Progress::Need(PackageEffect::WriteHtmlIndex(file)),
        Progress::Done(Err(error)) => Progress::Done(Err(error)),
        Progress::Done(Ok(_)) => Progress::Done(Ok(out_file)),
    }
}

} // verus!
