//! How far a pipeline has come.

use vstd::prelude::*;
use crate::error::{Error, ErrorModel};

verus! {

/// What a pipeline says when asked how to go on.
///
/// `E` is what the caller may be asked to do, `T` what the pipeline yields
/// when it succeeds.
#[derive(Debug, PartialEq, Eq)]
pub enum Progress<E, T> {
    /// The caller is to perform this, record what came of it, and ask again.
    Need(E),
    /// The pipeline is over.
    Done(Result<T, Error>),
}

/// Mathematical value of a [`Progress`].
pub enum ProgressModel<E, T> {
    Need(E),
    Done(Result<T, ErrorModel>),
}

impl<E: DeepView, T: DeepView> DeepView for Progress<E, T> {
    type V = ProgressModel<E::V, T::V>;

    open spec fn deep_view(&self) -> ProgressModel<E::V, T::V> {
        match self {
            Progress::Need(effect) => ProgressModel::Need(effect.deep_view()),
            Progress::Done(Ok(value)) => ProgressModel::Done(Ok(value.deep_view())),
            Progress::Done(Err(error)) => ProgressModel::Done(Err(error.deep_view())),
        }
    }
}

} // verus!
