//! The outside work that the OTA flows ask for, and what comes back of it.
//!
//! The flows in `ota` decide; whoever drives them performs each `Effect` on
//! the database and the uploads directory and hands the `Outcome` back.

use vstd::prelude::*;

use crate::domain::ota::{PendingUpdate, PendingUpdateView};
use crate::error::{Failure, FailureView};

verus! {

/// One piece of outside work requested by a flow.
#[derive(Debug)]
pub enum Effect {
    /// Create the database's parent directory and the pending-record table.
    InitializeRepository,
    /// Create the uploads directory.
    InitializeStorage,
    /// Write `bytes` into the uploads directory under `name`; yields the path written.
    StoreFile { name: String, bytes: Vec<u8> },
    /// Replace the pending record by `pending`; yields the stored path of the record replaced.
    ReplaceRecord { pending: PendingUpdate },
    /// Load the pending record, if any.
    LoadRecord,
    /// Read the image file at `path`.
    ReadFile { path: String },
    /// Delete the pending record if its stored path is `path`.
    ClearRecord { path: String },
    /// Delete the image file at `path`.
    RemoveFile { path: String },
}

/// What came back of an `Effect`.
#[derive(Debug)]
pub enum Outcome {
    Initialized(Result<(), Failure>),
    Stored(Result<String, Failure>),
    Replaced(Result<Option<String>, Failure>),
    Loaded(Result<Option<PendingUpdate>, Failure>),
    Read(Result<Vec<u8>, Failure>),
    Cleared(Result<(), Failure>),
    Removed(Result<(), Failure>),
}

pub enum EffectView {
    InitializeRepository,
    InitializeStorage,
    StoreFile { name: Seq<char>, bytes: Seq<u8> },
    ReplaceRecord { pending: PendingUpdateView },
    LoadRecord,
    ReadFile { path: Seq<char> },
    ClearRecord { path: Seq<char> },
    RemoveFile { path: Seq<char> },
}

pub enum OutcomeView {
    Initialized(Result<(), FailureView>),
    Stored(Result<Seq<char>, FailureView>),
    Replaced(Result<Option<Seq<char>>, FailureView>),
    Loaded(Result<Option<PendingUpdateView>, FailureView>),
    Read(Result<Seq<u8>, FailureView>),
    Cleared(Result<(), FailureView>),
    Removed(Result<(), FailureView>),
}

/// The view of a result that is empty or a failure.
pub open spec fn unit_result_view(r: Result<(), Failure>) -> Result<(), FailureView> {
    match r {
        Ok(()) => Ok(()),
        Err(e) => Err(e@),
    }
}

impl View for Effect {
    type V = EffectView;

    open spec fn view(&self) -> EffectView {
        match self {
            Effect::InitializeRepository => EffectView::InitializeRepository,
            Effect::InitializeStorage => EffectView::InitializeStorage,
            Effect::StoreFile { name, bytes } => EffectView::StoreFile { name: name@, bytes: bytes@ },
            Effect::ReplaceRecord { pending } => EffectView::ReplaceRecord { pending: pending@ },
            Effect::LoadRecord => EffectView::LoadRecord,
            Effect::ReadFile { path } => EffectView::ReadFile { path: path@ },
            Effect::ClearRecord { path } => EffectView::ClearRecord { path: path@ },
            Effect::RemoveFile { path } => EffectView::RemoveFile { path: path@ },
        }
    }
}

impl View for Outcome {
    type V = OutcomeView;

    open spec fn view(&self) -> OutcomeView {
        match self {
            Outcome::Initialized(r) => OutcomeView::Initialized(unit_result_view(*r)),
            Outcome::Stored(r) => OutcomeView::Stored(
                match r {
                    Ok(path) => Ok(path@),
                    Err(e) => Err(e@),
                },
            ),
            Outcome::Replaced(r) => OutcomeView::Replaced(
                match r {
                    Ok(Some(path)) => Ok(Some(path@)),
                    Ok(None) => Ok(None),
                    Err(e) => Err(e@),
                },
            ),
            Outcome::Loaded(r) => OutcomeView::Loaded(
                match r {
                    Ok(Some(pending)) => Ok(Some(pending@)),
                    Ok(None) => Ok(None),
                    Err(e) => Err(e@),
                },
            ),
            Outcome::Read(r) => OutcomeView::Read(
                match r {
                    Ok(bytes) => Ok(bytes@),
                    Err(e) => Err(e@),
                },
            ),
            Outcome::Cleared(r) => OutcomeView::Cleared(unit_result_view(*r)),
            Outcome::Removed(r) => OutcomeView::Removed(unit_result_view(*r)),
        }
    }
}

} // verus!
