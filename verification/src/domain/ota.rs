//! The OTA flow. At most one image is pending at a time: an upload stores the
//! image and replaces the pending record, a download serves the pending image
//! once and deletes it.
//!
//! Each operation is a small state machine. `begin` gives the first step;
//! the driver performs the requested `Effect` and hands its `Outcome` to
//! `resume`, until a step finishes with the operation's result.

use vstd::prelude::*;

use crate::digest::{sha256, sha256_hex};
use crate::domain::effects::{Effect, EffectView, Outcome, OutcomeView};
use crate::error::{in_context, Failure, FailureView};
use crate::infra::{PendingUpdateRepository, UpdateStorage};
use crate::text::{decimal, decimal_string, hex_lower, push_decimal};
use vstd::pervasive::unreached;

verus! {

/// The image waiting to be served, as its record describes it.
#[derive(Debug, Clone)]
pub struct PendingUpdate {
    pub filename: String,
    pub stored_path: String,
    pub size_bytes: u64,
    pub sha256_hex: String,
    pub created_at: String,
}

pub struct PendingUpdateView {
    pub filename: Seq<char>,
    pub stored_path: Seq<char>,
    pub size_bytes: u64,
    pub sha256_hex: Seq<char>,
    pub created_at: Seq<char>,
}

impl View for PendingUpdate {
    type V = PendingUpdateView;

    open spec fn view(&self) -> PendingUpdateView {
        PendingUpdateView {
            filename: self.filename@,
            stored_path: self.stored_path@,
            size_bytes: self.size_bytes,
            sha256_hex: self.sha256_hex@,
            created_at: self.created_at@,
        }
    }
}

impl PendingUpdate {
    /// A copy with the same contents.
    pub fn duplicate(&self) -> (copy: PendingUpdate)
        ensures
            copy@ == self@,
    {
        PendingUpdate {
            filename: self.filename.clone(),
            stored_path: self.stored_path.clone(),
            size_bytes: self.size_bytes,
            sha256_hex: self.sha256_hex.clone(),
            created_at: self.created_at.clone(),
        }
    }
}

/// A pending image taken for serving: its record and its bytes.
#[derive(Debug)]
pub struct ServedUpdate {
    pub pending: PendingUpdate,
    pub bytes: Vec<u8>,
}

pub struct ServedUpdateView {
    pub pending: PendingUpdateView,
    pub bytes: Seq<u8>,
}

impl View for ServedUpdate {
    type V = ServedUpdateView;

    open spec fn view(&self) -> ServedUpdateView {
        ServedUpdateView { pending: self.pending@, bytes: self.bytes@ }
    }
}

/// Why an upload failed.
#[derive(Debug)]
pub enum UploadUpdateError {
    /// The uploaded body held no bytes.
    EmptyFile,
    /// Outside work failed.
    Unknown(Failure),
}

pub enum UploadUpdateErrorView {
    EmptyFile,
    Unknown(FailureView),
}

impl View for UploadUpdateError {
    type V = UploadUpdateErrorView;

    open spec fn view(&self) -> UploadUpdateErrorView {
        match self {
            UploadUpdateError::EmptyFile => UploadUpdateErrorView::EmptyFile,
            UploadUpdateError::Unknown(failure) => UploadUpdateErrorView::Unknown(failure@),
        }
    }
}

/// The file name under which an image uploaded at `timestamp` is stored.
pub open spec fn stored_name(timestamp: u64) -> Seq<char> {
    "update-"@ + decimal(timestamp as nat) + ".bin"@
}

/// Uploads at distinct timestamps are stored under distinct file names.
pub proof fn lemma_stored_name_injective(t1: u64, t2: u64)
    ensures
        stored_name(t1) == stored_name(t2) ==> t1 == t2,
{
    if stored_name(t1) == stored_name(t2) {
        reveal_strlit("update-");
        reveal_strlit(".bin");
        let d1 = decimal(t1 as nat);
        let d2 = decimal(t2 as nat);
        assert(stored_name(t1).len() == 7 + d1.len() + 4);
        assert(d1.len() == d2.len());
        assert(d1 =~= stored_name(t1).subrange(7, 7 + d1.len() as int));
        assert(d2 =~= stored_name(t2).subrange(7, 7 + d2.len() as int));
        crate::text::lemma_decimal_injective(t1 as nat, t2 as nat);
    }
}

/// Builds `update-<timestamp>.bin`.
pub fn stored_name_for(timestamp: u64) -> (name: String)
    ensures
        name@ == stored_name(timestamp),
{
    let mut name = String::from_str("update-");
    push_decimal(&mut name, timestamp);
    name.append(".bin");
    name
}

/// The OTA service: where the pending record and the images are kept.
#[derive(Clone, Debug)]
pub struct OtaService {
    repository: PendingUpdateRepository,
    storage: UpdateStorage,
}

impl OtaService {
    pub closed spec fn spec_repository(&self) -> PendingUpdateRepository {
        self.repository
    }

    pub closed spec fn spec_storage(&self) -> UpdateStorage {
        self.storage
    }

    /// A service over `repository` and `storage`.
    pub fn new(repository: PendingUpdateRepository, storage: UpdateStorage) -> (service: Self)
        ensures
            service.spec_repository() == repository,
            service.spec_storage() == storage,
    {
        OtaService { repository, storage }
    }

    /// Where the pending record is kept.
    pub fn repository(&self) -> (repository: &PendingUpdateRepository)
        ensures
            *repository == self.spec_repository(),
    {
        &self.repository
    }

    /// Where the images are kept.
    pub fn storage(&self) -> (storage: &UpdateStorage)
        ensures
            *storage == self.spec_storage(),
    {
        &self.storage
    }
}


// ---------------------------------------------------------------------------
// Upload: store the image, replace the pending record, drop what it replaced.
// ---------------------------------------------------------------------------

/// Where an upload stands while it waits for an outcome.
#[derive(Debug)]
pub enum UploadFlow {
    /// The image is being written; the record's other fields are ready.
    Storing { filename: String, size_bytes: u64, sha256_hex: String, created_at: String },
    /// The image is written; the pending record is being replaced by `pending`.
    Recording { pending: PendingUpdate },
    /// The record is replaced; the image it described is being removed.
    DroppingSuperseded { pending: PendingUpdate },
    /// The record could not be replaced; the new image is being removed.
    RollingBack { cause: Failure },
}

pub enum UploadFlowView {
    Storing { filename: Seq<char>, size_bytes: u64, sha256_hex: Seq<char>, created_at: Seq<char> },
    Recording { pending: PendingUpdateView },
    DroppingSuperseded { pending: PendingUpdateView },
    RollingBack { cause: FailureView },
}

impl View for UploadFlow {
    type V = UploadFlowView;

    open spec fn view(&self) -> UploadFlowView {
        match self {
            UploadFlow::Storing { filename, size_bytes, sha256_hex, created_at } => UploadFlowView::Storing {
                filename: filename@,
                size_bytes: *size_bytes,
                sha256_hex: sha256_hex@,
                created_at: created_at@,
            },
            UploadFlow::Recording { pending } => UploadFlowView::Recording { pending: pending@ },
            UploadFlow::DroppingSuperseded { pending } => UploadFlowView::DroppingSuperseded { pending: pending@ },
            UploadFlow::RollingBack { cause } => UploadFlowView::RollingBack { cause: cause@ },
        }
    }
}

/// The next step of an upload: outside work to perform, or the result.
#[derive(Debug)]
pub enum UploadStep {
    Perform(UploadFlow, Effect),
    Finish(Result<PendingUpdate, UploadUpdateError>),
}

pub enum UploadStepView {
    Perform(UploadFlowView, EffectView),
    Finish(Result<PendingUpdateView, UploadUpdateErrorView>),
}

impl View for UploadStep {
    type V = UploadStepView;

    open spec fn view(&self) -> UploadStepView {
        match self {
            UploadStep::Perform(flow, effect) => UploadStepView::Perform(flow@, effect@),
            UploadStep::Finish(Ok(pending)) => UploadStepView::Finish(Ok(pending@)),
            UploadStep::Finish(Err(e)) => UploadStepView::Finish(Err(e@)),
        }
    }
}

/// The record of an image of `bytes` uploaded at `timestamp` and stored at `stored_path`.
pub open spec fn uploaded_record(bytes: Seq<u8>, timestamp: u64, stored_path: Seq<char>) -> PendingUpdateView {
    PendingUpdateView {
        filename: stored_name(timestamp),
        stored_path,
        size_bytes: bytes.len() as u64,
        sha256_hex: hex_lower(sha256(bytes)),
        created_at: decimal(timestamp as nat),
    }
}

/// The first step of an upload of `bytes` at `timestamp`: an empty body is
/// refused; otherwise the image is written under `update-<timestamp>.bin`.
pub open spec fn upload_begin(bytes: Seq<u8>, timestamp: u64) -> UploadStepView {
    if bytes.len() == 0 {
        UploadStepView::Finish(Err(UploadUpdateErrorView::EmptyFile))
    } else {
        UploadStepView::Perform(
            UploadFlowView::Storing {
                filename: stored_name(timestamp),
                size_bytes: bytes.len() as u64,
                sha256_hex: hex_lower(sha256(bytes)),
                created_at: decimal(timestamp as nat),
            },
            EffectView::StoreFile { name: stored_name(timestamp), bytes },
        )
    }
}

impl UploadFlowView {
    /// The kind of outcome this state waits for.
    pub open spec fn expects(self, outcome: OutcomeView) -> bool {
        match self {
            UploadFlowView::Storing { .. } => outcome is Stored,
            UploadFlowView::Recording { .. } => outcome is Replaced,
            UploadFlowView::DroppingSuperseded { .. } => outcome is Removed,
            UploadFlowView::RollingBack { .. } => outcome is Removed,
        }
    }

    /// The step that follows `outcome` in this state.
    pub open spec fn resume(self, outcome: OutcomeView) -> UploadStepView {
        match (self, outcome) {
            (UploadFlowView::Storing { filename, size_bytes, sha256_hex, created_at }, OutcomeView::Stored(Ok(path))) => {
                let pending = PendingUpdateView { filename, stored_path: path, size_bytes, sha256_hex, created_at };
                UploadStepView::Perform(
                    UploadFlowView::Recording { pending },
                    EffectView::ReplaceRecord { pending },
                )
            },
            (UploadFlowView::Storing { .. }, OutcomeView::Stored(Err(cause))) => UploadStepView::Finish(
                Err(UploadUpdateErrorView::Unknown(in_context("failed to persist uploaded OTA image"@, cause))),
            ),
            (UploadFlowView::Recording { pending }, OutcomeView::Replaced(Ok(previous))) => {
                match previous {
                    Some(previous_path) if previous_path != pending.stored_path => UploadStepView::Perform(
                        UploadFlowView::DroppingSuperseded { pending },
                        EffectView::RemoveFile { path: previous_path },
                    ),
                    _ => UploadStepView::Finish(Ok(pending)),
                }
            },
            (UploadFlowView::Recording { pending }, OutcomeView::Replaced(Err(cause))) => UploadStepView::Perform(
                UploadFlowView::RollingBack { cause: in_context("failed to replace pending OTA record"@, cause) },
                EffectView::RemoveFile { path: pending.stored_path },
            ),
            (UploadFlowView::DroppingSuperseded { pending }, OutcomeView::Removed(_)) => UploadStepView::Finish(Ok(pending)),
            (UploadFlowView::RollingBack { cause }, OutcomeView::Removed(_)) => UploadStepView::Finish(
                Err(UploadUpdateErrorView::Unknown(cause)),
            ),
            _ => arbitrary(),
        }
    }
}

impl UploadFlow {
    /// Starts the upload of `bytes`, received at `timestamp` (seconds since the Unix epoch).
    pub fn begin(bytes: Vec<u8>, timestamp: u64) -> (step: UploadStep)
        ensures
            step@ == upload_begin(bytes@, timestamp),
    {
        if bytes.len() == 0 {
            return UploadStep::Finish(Err(UploadUpdateError::EmptyFile));
        }
        let name = stored_name_for(timestamp);
        let filename = name.clone();
        let sha256_hex = sha256_hex(bytes.as_slice());
        let created_at = decimal_string(timestamp);
        let size_bytes = bytes.len() as u64;
        UploadStep::Perform(
            UploadFlow::Storing { filename, size_bytes, sha256_hex, created_at },
            Effect::StoreFile { name, bytes },
        )
    }

    /// Whether `outcome` is of the kind this state waits for.
    pub fn expects(&self, outcome: &Outcome) -> (answer: bool)
        ensures
            answer == self@.expects(outcome@),
    {
        match self {
            UploadFlow::Storing { .. } => matches!(outcome, Outcome::Stored(_)),
            UploadFlow::Recording { .. } => matches!(outcome, Outcome::Replaced(_)),
            UploadFlow::DroppingSuperseded { .. } => matches!(outcome, Outcome::Removed(_)),
            UploadFlow::RollingBack { .. } => matches!(outcome, Outcome::Removed(_)),
        }
    }

    /// The step that follows `outcome`.
    pub fn resume(self, outcome: Outcome) -> (step: UploadStep)
        requires
            self@.expects(outcome@),
        ensures
            step@ == self@.resume(outcome@),
    {
        match self {
            UploadFlow::Storing { filename, size_bytes, sha256_hex, created_at } => match outcome {
                Outcome::Stored(Ok(stored_path)) => {
                    let pending = PendingUpdate { filename, stored_path, size_bytes, sha256_hex, created_at };
                    let record = pending.duplicate();
                    UploadStep::Perform(UploadFlow::Recording { pending }, Effect::ReplaceRecord { pending: record })
                },
                Outcome::Stored(Err(cause)) => UploadStep::Finish(
                    Err(UploadUpdateError::Unknown(cause.context("failed to persist uploaded OTA image"))),
                ),
                _ => unreached(),
            },
            UploadFlow::Recording { pending } => match outcome {
                Outcome::Replaced(Ok(Some(previous_path))) => {
                    if previous_path == pending.stored_path {
                        UploadStep::Finish(Ok(pending))
                    } else {
                        UploadStep::Perform(
                            UploadFlow::DroppingSuperseded { pending },
                            Effect::RemoveFile { path: previous_path },
                        )
                    }
                },
                Outcome::Replaced(Ok(None)) => UploadStep::Finish(Ok(pending)),
                Outcome::Replaced(Err(cause)) => {
                    let path = pending.stored_path;
                    UploadStep::Perform(
                        UploadFlow::RollingBack {
                            cause: cause.context("failed to replace pending OTA record"),
                        },
                        Effect::RemoveFile { path },
                    )
                },
                _ => unreached(),
            },
            UploadFlow::DroppingSuperseded { pending } => match outcome {
                Outcome::Removed(_) => UploadStep::Finish(Ok(pending)),
                _ => unreached(),
            },
            UploadFlow::RollingBack { cause } => match outcome {
                Outcome::Removed(_) => UploadStep::Finish(Err(UploadUpdateError::Unknown(cause))),
                _ => unreached(),
            },
        }
    }
}


// ---------------------------------------------------------------------------
// Take: load the pending record, read its image, clear the record, remove the file.
// ---------------------------------------------------------------------------

/// Where taking the pending image stands while it waits for an outcome.
#[derive(Debug)]
pub enum TakeFlow {
    /// The pending record is being loaded.
    Loading,
    /// The image of `pending` is being read.
    Reading { pending: PendingUpdate },
    /// The image is read; the record is being cleared.
    Clearing { pending: PendingUpdate, bytes: Vec<u8> },
    /// The record is cleared; the served image's file is being removed.
    Removing { served: ServedUpdate },
}

pub enum TakeFlowView {
    Loading,
    Reading { pending: PendingUpdateView },
    Clearing { pending: PendingUpdateView, bytes: Seq<u8> },
    Removing { served: ServedUpdateView },
}

impl View for TakeFlow {
    type V = TakeFlowView;

    open spec fn view(&self) -> TakeFlowView {
        match self {
            TakeFlow::Loading => TakeFlowView::Loading,
            TakeFlow::Reading { pending } => TakeFlowView::Reading { pending: pending@ },
            TakeFlow::Clearing { pending, bytes } => TakeFlowView::Clearing { pending: pending@, bytes: bytes@ },
            TakeFlow::Removing { served } => TakeFlowView::Removing { served: served@ },
        }
    }
}

/// The next step of taking the pending image: outside work, or the result
/// (no image pending, the image served, or the error text).
#[derive(Debug)]
pub enum TakeStep {
    Perform(TakeFlow, Effect),
    Finish(Result<Option<ServedUpdate>, Failure>),
}

pub enum TakeStepView {
    Perform(TakeFlowView, EffectView),
    Finish(Result<Option<ServedUpdateView>, FailureView>),
}

impl View for TakeStep {
    type V = TakeStepView;

    open spec fn view(&self) -> TakeStepView {
        match self {
            TakeStep::Perform(flow, effect) => TakeStepView::Perform(flow@, effect@),
            TakeStep::Finish(Ok(Some(served))) => TakeStepView::Finish(Ok(Some(served@))),
            TakeStep::Finish(Ok(None)) => TakeStepView::Finish(Ok(None)),
            TakeStep::Finish(Err(e)) => TakeStepView::Finish(Err(e@)),
        }
    }
}

/// Taking the pending image starts by loading the pending record.
pub open spec fn take_begin() -> TakeStepView {
    TakeStepView::Perform(TakeFlowView::Loading, EffectView::LoadRecord)
}

/// The context of a failed read of the image at `path`.
pub open spec fn read_failure_context(path: Seq<char>) -> Seq<char> {
    "failed to read pending OTA image at "@ + path
}

impl TakeFlowView {
    /// The kind of outcome this state waits for.
    pub open spec fn expects(self, outcome: OutcomeView) -> bool {
        match self {
            TakeFlowView::Loading => outcome is Loaded,
            TakeFlowView::Reading { .. } => outcome is Read,
            TakeFlowView::Clearing { .. } => outcome is Cleared,
            TakeFlowView::Removing { .. } => outcome is Removed,
        }
    }

    /// The step that follows `outcome` in this state.
    pub open spec fn resume(self, outcome: OutcomeView) -> TakeStepView {
        match (self, outcome) {
            (TakeFlowView::Loading, OutcomeView::Loaded(Ok(None))) => TakeStepView::Finish(Ok(None)),
            (TakeFlowView::Loading, OutcomeView::Loaded(Ok(Some(pending)))) => TakeStepView::Perform(
                TakeFlowView::Reading { pending },
                EffectView::ReadFile { path: pending.stored_path },
            ),
            (TakeFlowView::Loading, OutcomeView::Loaded(Err(cause))) => TakeStepView::Finish(Err(cause)),
            (TakeFlowView::Reading { pending }, OutcomeView::Read(Ok(bytes))) => TakeStepView::Perform(
                TakeFlowView::Clearing { pending, bytes },
                EffectView::ClearRecord { path: pending.stored_path },
            ),
            (TakeFlowView::Reading { pending }, OutcomeView::Read(Err(cause))) => TakeStepView::Finish(
                Err(in_context(read_failure_context(pending.stored_path), cause)),
            ),
            (TakeFlowView::Clearing { pending, bytes }, OutcomeView::Cleared(Ok(()))) => TakeStepView::Perform(
                TakeFlowView::Removing { served: ServedUpdateView { pending, bytes } },
                EffectView::RemoveFile { path: pending.stored_path },
            ),
            (TakeFlowView::Clearing { .. }, OutcomeView::Cleared(Err(cause))) => TakeStepView::Finish(
                Err(in_context("failed to clear pending OTA record"@, cause)),
            ),
            (TakeFlowView::Removing { served }, OutcomeView::Removed(_)) => TakeStepView::Finish(Ok(Some(served))),
            _ => arbitrary(),
        }
    }
}

impl TakeFlow {
    /// Starts taking the pending image.
    pub fn begin() -> (step: TakeStep)
        ensures
            step@ == take_begin(),
    {
        TakeStep::Perform(TakeFlow::Loading, Effect::LoadRecord)
    }

    /// Whether `outcome` is of the kind this state waits for.
    pub fn expects(&self, outcome: &Outcome) -> (answer: bool)
        ensures
            answer == self@.expects(outcome@),
    {
        match self {
            TakeFlow::Loading => matches!(outcome, Outcome::Loaded(_)),
            TakeFlow::Reading { .. } => matches!(outcome, Outcome::Read(_)),
            TakeFlow::Clearing { .. } => matches!(outcome, Outcome::Cleared(_)),
            TakeFlow::Removing { .. } => matches!(outcome, Outcome::Removed(_)),
        }
    }

    /// The step that follows `outcome`.
    pub fn resume(self, outcome: Outcome) -> (step: TakeStep)
        requires
            self@.expects(outcome@),
        ensures
            step@ == self@.resume(outcome@),
    {
        match self {
            TakeFlow::Loading => match outcome {
                Outcome::Loaded(Ok(None)) => TakeStep::Finish(Ok(None)),
                Outcome::Loaded(Ok(Some(pending))) => {
                    let path = pending.stored_path.clone();
                    TakeStep::Perform(TakeFlow::Reading { pending }, Effect::ReadFile { path })
                },
                Outcome::Loaded(Err(cause)) => TakeStep::Finish(Err(cause)),
                _ => unreached(),
            },
            TakeFlow::Reading { pending } => match outcome {
                Outcome::Read(Ok(bytes)) => {
                    let path = pending.stored_path.clone();
                    TakeStep::Perform(TakeFlow::Clearing { pending, bytes }, Effect::ClearRecord { path })
                },
                Outcome::Read(Err(cause)) => {
                    let mut context = String::from_str("failed to read pending OTA image at ");
                    context.append(pending.stored_path.as_str());
                    TakeStep::Finish(Err(cause.context(context.as_str())))
                },
                _ => unreached(),
            },
            TakeFlow::Clearing { pending, bytes } => match outcome {
                Outcome::Cleared(Ok(())) => {
                    let path = pending.stored_path.clone();
                    TakeStep::Perform(
                        TakeFlow::Removing { served: ServedUpdate { pending, bytes } },
                        Effect::RemoveFile { path },
                    )
                },
                Outcome::Cleared(Err(cause)) => TakeStep::Finish(
                    Err(cause.context("failed to clear pending OTA record")),
                ),
                _ => unreached(),
            },
            TakeFlow::Removing { served } => match outcome {
                Outcome::Removed(_) => TakeStep::Finish(Ok(Some(served))),
                _ => unreached(),
            },
        }
    }
}

// ---------------------------------------------------------------------------
// Initialize: prepare the repository, then the storage.
// ---------------------------------------------------------------------------

/// Where initialization stands while it waits for an outcome.
#[derive(Debug)]
pub enum InitializeFlow {
    /// The repository is being initialized.
    Repository,
    /// The storage is being initialized.
    Storage,
}

pub enum InitializeFlowView {
    Repository,
    Storage,
}

impl View for InitializeFlow {
    type V = InitializeFlowView;

    open spec fn view(&self) -> InitializeFlowView {
        match self {
            InitializeFlow::Repository => InitializeFlowView::Repository,
            InitializeFlow::Storage => InitializeFlowView::Storage,
        }
    }
}

/// The next step of initialization: outside work, or the result.
#[derive(Debug)]
pub enum InitializeStep {
    Perform(InitializeFlow, Effect),
    Finish(Result<(), Failure>),
}

pub enum InitializeStepView {
    Perform(InitializeFlowView, EffectView),
    Finish(Result<(), FailureView>),
}

impl View for InitializeStep {
    type V = InitializeStepView;

    open spec fn view(&self) -> InitializeStepView {
        match self {
            InitializeStep::Perform(flow, effect) => InitializeStepView::Perform(flow@, effect@),
            InitializeStep::Finish(Ok(())) => InitializeStepView::Finish(Ok(())),
            InitializeStep::Finish(Err(e)) => InitializeStepView::Finish(Err(e@)),
        }
    }
}

/// Initialization starts with the repository.
pub open spec fn initialize_begin() -> InitializeStepView {
    InitializeStepView::Perform(InitializeFlowView::Repository, EffectView::InitializeRepository)
}

impl InitializeFlowView {
    /// The kind of outcome this state waits for.
    pub open spec fn expects(self, outcome: OutcomeView) -> bool {
        outcome is Initialized
    }

    /// The step that follows `outcome` in this state.
    pub open spec fn resume(self, outcome: OutcomeView) -> InitializeStepView {
        match (self, outcome) {
            (InitializeFlowView::Repository, OutcomeView::Initialized(Ok(()))) => InitializeStepView::Perform(
                InitializeFlowView::Storage,
                EffectView::InitializeStorage,
            ),
            (InitializeFlowView::Repository, OutcomeView::Initialized(Err(cause))) => InitializeStepView::Finish(
                Err(in_context("failed to initialize pending update repository"@, cause)),
            ),
            (InitializeFlowView::Storage, OutcomeView::Initialized(Ok(()))) => InitializeStepView::Finish(Ok(())),
            (InitializeFlowView::Storage, OutcomeView::Initialized(Err(cause))) => InitializeStepView::Finish(
                Err(in_context("failed to initialize update storage"@, cause)),
            ),
            _ => arbitrary(),
        }
    }
}

impl InitializeFlow {
    /// Starts initialization.
    pub fn begin() -> (step: InitializeStep)
        ensures
            step@ == initialize_begin(),
    {
        InitializeStep::Perform(InitializeFlow::Repository, Effect::InitializeRepository)
    }

    /// Whether `outcome` is of the kind this state waits for.
    pub fn expects(&self, outcome: &Outcome) -> (answer: bool)
        ensures
            answer == self@.expects(outcome@),
    {
        matches!(outcome, Outcome::Initialized(_))
    }

    /// The step that follows `outcome`.
    pub fn resume(self, outcome: Outcome) -> (step: InitializeStep)
        requires
            self@.expects(outcome@),
        ensures
            step@ == self@.resume(outcome@),
    {
        match outcome {
            Outcome::Initialized(Ok(())) => match self {
                InitializeFlow::Repository => InitializeStep::Perform(InitializeFlow::Storage, Effect::InitializeStorage),
                InitializeFlow::Storage => InitializeStep::Finish(Ok(())),
            },
            Outcome::Initialized(Err(cause)) => match self {
                InitializeFlow::Repository => InitializeStep::Finish(
                    Err(cause.context("failed to initialize pending update repository")),
                ),
                InitializeFlow::Storage => InitializeStep::Finish(
                    Err(cause.context("failed to initialize update storage")),
                ),
            },
            _ => unreached(),
        }
    }
}

impl OtaService {
    /// Starts preparing the repository and the storage for use.
    pub fn initialize(&self) -> (step: InitializeStep)
        ensures
            step@ == initialize_begin(),
    {
        InitializeFlow::begin()
    }

    /// Starts recording `bytes`, received at `timestamp`, as the pending image.
    pub fn upload(&self, bytes: Vec<u8>, timestamp: u64) -> (step: UploadStep)
        ensures
            step@ == upload_begin(bytes@, timestamp),
    {
        UploadFlow::begin(bytes, timestamp)
    }

    /// Starts taking the pending image for serving.
    pub fn take_pending_update(&self) -> (step: TakeStep)
        ensures
            step@ == take_begin(),
    {
        TakeFlow::begin()
    }
}

} // verus!
