//! The errors a pipeline can end with.

use vstd::prelude::*;
use crate::process::{OsError, OsErrorModel};

verus! {

/// Why the question to the user could not be asked or answered.
#[derive(Debug, PartialEq, Eq)]
pub struct PromptFailure {
    pub message: String,
}

/// Mathematical value of a [`PromptFailure`].
pub struct PromptFailureModel {
    pub message: Seq<char>,
}

impl DeepView for PromptFailure {
    type V = PromptFailureModel;

    open spec fn deep_view(&self) -> PromptFailureModel {
        PromptFailureModel { message: self.message@ }
    }
}

impl PromptFailure {
    /// A second value with the same text.
    pub fn duplicate(&self) -> (copy: PromptFailure)
        ensures
            copy.deep_view() == self.deep_view(),
    {
        PromptFailure { message: self.message.clone() }
    }
}

/// How a pipeline failed.
#[derive(Debug, PartialEq, Eq)]
pub enum Error {
    /// The package manager is not installed. No pipeline ends with this
    /// error: it stops the whole run instead. The name is there for callers
    /// that would rather hand an error on than stop.
    YarnMissing,
    /// Looking for the package manager failed.
    YarnCommandError(OsError),
    /// The question whether to install the bundler could not be asked.
    PromptError(PromptFailure),
    /// The bundler is not installed and the user declined to install it.
    WebpackMissing,
    /// Looking for the bundler failed.
    WebpackCommandError(OsError),
    /// The package manager ran and reported that the installation failed.
    InstallFailed,
    /// The package manager could not be started to install the bundler.
    InstallCommandError(OsError),
    /// The bundler ran and reported failure.
    PackageFailed,
    /// The bundler could not be started.
    PackageCommandError(OsError),
    /// The bootstrap module could not be written.
    WriteJsIndexError(OsError),
    /// The host page could not be written.
    WriteHtmlIndexError(OsError),
}

/// Mathematical value of an [`Error`].
pub enum ErrorModel {
    YarnMissing,
    YarnCommandError(OsErrorModel),
    PromptError(PromptFailureModel),
    WebpackMissing,
    WebpackCommandError(OsErrorModel),
    InstallFailed,
    InstallCommandError(OsErrorModel),
    PackageFailed,
    PackageCommandError(OsErrorModel),
    WriteJsIndexError(OsErrorModel),
    WriteHtmlIndexError(OsErrorModel),
}

impl DeepView for Error {
    type V = ErrorModel;

    open spec fn deep_view(&self) -> ErrorModel {
        match self {
            Error::YarnMissing => ErrorModel::YarnMissing,
            Error::YarnCommandError(cause) => ErrorModel::YarnCommandError(cause.deep_view()),
            Error::PromptError(cause) => ErrorModel::PromptError(cause.deep_view()),
            Error::WebpackMissing => ErrorModel::WebpackMissing,
            Error::WebpackCommandError(cause) => ErrorModel::WebpackCommandError(cause.deep_view()),
            Error::InstallFailed => ErrorModel::InstallFailed,
            Error::InstallCommandError(cause) => ErrorModel::InstallCommandError(cause.deep_view()),
            Error::PackageFailed => ErrorModel::PackageFailed,
            Error::PackageCommandError(cause) => ErrorModel::PackageCommandError(cause.deep_view()),
            Error::WriteJsIndexError(cause) => ErrorModel::WriteJsIndexError(cause.deep_view()),
            Error::WriteHtmlIndexError(cause) => ErrorModel::WriteHtmlIndexError(cause.deep_view()),
        }
    }
}

} // verus!
