//! A model of the outside world the OTA flows act on: the single pending
//! record of the database and the files of the uploads directory, with the
//! meaning each `Effect` has on them (as the repository's SQL statements and
//! the storage's file operations give it). The laws of the OTA service are
//! stated by driving the flows against this model.

use vstd::prelude::*;

use crate::domain::effects::{EffectView, OutcomeView};
use crate::error::{in_context, plain_failure, FailureView};
use crate::domain::ota::{
    lemma_stored_name_injective, stored_name, take_begin, upload_begin, uploaded_record, PendingUpdateView, ServedUpdateView,
    TakeFlowView, TakeStepView, UploadFlowView, UploadStepView, UploadUpdateErrorView,
    read_failure_context,
};

verus! {

/// The pending record and the stored images.
pub struct StoreModel {
    pub uploads_dir: Seq<char>,
    pub record: Option<PendingUpdateView>,
    pub files: Map<Seq<char>, Seq<u8>>,
}

/// The path of the file `name` in the directory `dir`, as `Path::join`
/// forms it for a directory without a trailing separator.
pub open spec fn path_in(dir: Seq<char>, name: Seq<char>) -> Seq<char> {
    dir + seq!['/'] + name
}

/// The failure of an operation on a file that does not exist.
pub open spec fn missing_file() -> FailureView {
    plain_failure("no such file"@)
}

impl StoreModel {
    /// What performing `effect` does to the store, and what it answers.
    pub open spec fn perform(self, effect: EffectView) -> (StoreModel, OutcomeView) {
        match effect {
            EffectView::InitializeRepository => (self, OutcomeView::Initialized(Ok(()))),
            EffectView::InitializeStorage => (self, OutcomeView::Initialized(Ok(()))),
            EffectView::StoreFile { name, bytes } => {
                let path = path_in(self.uploads_dir, name);
                (StoreModel { files: self.files.insert(path, bytes), ..self }, OutcomeView::Stored(Ok(path)))
            },
            EffectView::ReplaceRecord { pending } => {
                let previous = match self.record {
                    Some(r) => Some(r.stored_path),
                    None => None,
                };
                (StoreModel { record: Some(pending), ..self }, OutcomeView::Replaced(Ok(previous)))
            },
            EffectView::LoadRecord => (self, OutcomeView::Loaded(Ok(self.record))),
            EffectView::ReadFile { path } => {
                if self.files.contains_key(path) {
                    (self, OutcomeView::Read(Ok(self.files[path])))
                } else {
                    (self, OutcomeView::Read(Err(missing_file())))
                }
            },
            EffectView::ClearRecord { path } => {
                match self.record {
                    Some(r) if r.stored_path == path => (
                        StoreModel { record: None, ..self },
                        OutcomeView::Cleared(Ok(())),
                    ),
                    _ => (self, OutcomeView::Cleared(Ok(()))),
                }
            },
            EffectView::RemoveFile { path } => {
                if self.files.contains_key(path) {
                    (StoreModel { files: self.files.remove(path), ..self }, OutcomeView::Removed(Ok(())))
                } else {
                    (self, OutcomeView::Removed(Err(missing_file())))
                }
            },
        }
    }
}

/// Drives an upload against the store for at most `fuel` effects.
pub open spec fn drive_upload(m: StoreModel, step: UploadStepView, fuel: nat) -> (StoreModel, Option<Result<PendingUpdateView, UploadUpdateErrorView>>)
    decreases fuel,
{
    match step {
        UploadStepView::Finish(result) => (m, Some(result)),
        UploadStepView::Perform(flow, effect) => {
            if fuel == 0 {
                (m, None)
            } else {
                let next = m.perform(effect);
                drive_upload(next.0, flow.resume(next.1), (fuel - 1) as nat)
            }
        },
    }
}

/// Drives taking the pending image against the store for at most `fuel` effects.
pub open spec fn drive_take(m: StoreModel, step: TakeStepView, fuel: nat) -> (StoreModel, Option<Result<Option<ServedUpdateView>, FailureView>>)
    decreases fuel,
{
    match step {
        TakeStepView::Finish(result) => (m, Some(result)),
        TakeStepView::Perform(flow, effect) => {
            if fuel == 0 {
                (m, None)
            } else {
                let next = m.perform(effect);
                drive_take(next.0, flow.resume(next.1), (fuel - 1) as nat)
            }
        },
    }
}

/// An upload of `bytes` at `timestamp`, run to its end (it performs at most three effects).
pub open spec fn run_upload(m: StoreModel, bytes: Seq<u8>, timestamp: u64) -> (StoreModel, Option<Result<PendingUpdateView, UploadUpdateErrorView>>) {
    drive_upload(m, upload_begin(bytes, timestamp), 3)
}

/// Taking the pending image, run to its end (it performs at most four effects).
pub open spec fn run_take(m: StoreModel) -> (StoreModel, Option<Result<Option<ServedUpdateView>, FailureView>>) {
    drive_take(m, take_begin(), 4)
}

/// When nothing is pending, taking the pending image answers that there is
/// none and changes nothing.
pub proof fn take_with_nothing_pending(m: StoreModel)
    requires
        m.record is None,
    ensures
        run_take(m) == (m, Some(Ok::<Option<ServedUpdateView>, FailureView>(None))),
{
    reveal_with_fuel(drive_take, 2);
}

/// A pending image whose file exists is served with the file's bytes, its
/// record is cleared and its file deleted; taking again finds nothing:
/// each pending image is served once.
pub proof fn take_serves_pending_once(m: StoreModel)
    requires
        m.record is Some,
        m.files.contains_key(m.record->0.stored_path),
    ensures
        ({
            let pending = m.record->0;
            let first = run_take(m);
            let second = run_take(first.0);
            &&& first.1 == Some(Ok::<Option<ServedUpdateView>, FailureView>(
                Some(ServedUpdateView { pending, bytes: m.files[pending.stored_path] }),
            ))
            &&& first.0.record is None
            &&& !first.0.files.contains_key(pending.stored_path)
            &&& second == (first.0, Some(Ok::<Option<ServedUpdateView>, FailureView>(None)))
        }),
{
    reveal_with_fuel(drive_take, 5);
    let first = run_take(m);
    take_with_nothing_pending(first.0);
}

/// An empty upload is refused and changes nothing.
pub proof fn empty_upload_changes_nothing(m: StoreModel, bytes: Seq<u8>, timestamp: u64)
    requires
        bytes.len() == 0,
    ensures
        run_upload(m, bytes, timestamp) == (m, Some(Err::<PendingUpdateView, UploadUpdateErrorView>(UploadUpdateErrorView::EmptyFile))),
{
}

/// A non-empty upload writes the image under `update-<timestamp>.bin`,
/// makes its record the pending one, and deletes the image of the record it
/// replaces unless that is the same file.
pub proof fn upload_becomes_pending(m: StoreModel, bytes: Seq<u8>, timestamp: u64)
    requires
        bytes.len() > 0,
    ensures
        ({
            let path = path_in(m.uploads_dir, stored_name(timestamp));
            let pending = uploaded_record(bytes, timestamp, path);
            let after = run_upload(m, bytes, timestamp);
            &&& after.1 == Some(Ok::<PendingUpdateView, UploadUpdateErrorView>(pending))
            &&& after.0.record == Some(pending)
            &&& after.0.files.contains_key(path)
            &&& after.0.files[path] == bytes
            &&& after.0.uploads_dir == m.uploads_dir
            &&& (m.record matches Some(replaced) ==> (replaced.stored_path != path ==> !after.0.files.contains_key(replaced.stored_path)))
        }),
{
    reveal_with_fuel(drive_upload, 4);
}

/// An upload followed by a download serves exactly the uploaded image, once:
/// a second download finds nothing pending.
pub proof fn upload_then_take_serves_once(m: StoreModel, bytes: Seq<u8>, timestamp: u64)
    requires
        bytes.len() > 0,
    ensures
        ({
            let path = path_in(m.uploads_dir, stored_name(timestamp));
            let pending = uploaded_record(bytes, timestamp, path);
            let uploaded = run_upload(m, bytes, timestamp);
            let first = run_take(uploaded.0);
            let second = run_take(first.0);
            &&& uploaded.1 == Some(Ok::<PendingUpdateView, UploadUpdateErrorView>(pending))
            &&& first.1 == Some(Ok::<Option<ServedUpdateView>, FailureView>(Some(ServedUpdateView { pending, bytes })))
            &&& first.0.record is None
            &&& !first.0.files.contains_key(path)
            &&& second == (first.0, Some(Ok::<Option<ServedUpdateView>, FailureView>(None)))
        }),
{
    upload_becomes_pending(m, bytes, timestamp);
    let uploaded = run_upload(m, bytes, timestamp);
    take_serves_pending_once(uploaded.0);
}

/// Distinct names in one directory give distinct paths.
pub proof fn lemma_path_in_injective(dir: Seq<char>, n1: Seq<char>, n2: Seq<char>)
    ensures
        path_in(dir, n1) == path_in(dir, n2) ==> n1 == n2,
{
    if path_in(dir, n1) == path_in(dir, n2) {
        let k = dir.len() + 1;
        assert(n1 =~= path_in(dir, n1).subrange(k as int, path_in(dir, n1).len() as int));
        assert(n2 =~= path_in(dir, n2).subrange(k as int, path_in(dir, n2).len() as int));
    }
}

/// Of two uploads at distinct timestamps, the later one replaces the earlier:
/// the earlier image's file is deleted, and a download serves the later image
/// once.
pub proof fn later_upload_supersedes_earlier(
    m: StoreModel,
    first_bytes: Seq<u8>,
    first_timestamp: u64,
    second_bytes: Seq<u8>,
    second_timestamp: u64,
)
    requires
        first_bytes.len() > 0,
        second_bytes.len() > 0,
        first_timestamp != second_timestamp,
    ensures
        ({
            let first_path = path_in(m.uploads_dir, stored_name(first_timestamp));
            let second_path = path_in(m.uploads_dir, stored_name(second_timestamp));
            let second = uploaded_record(second_bytes, second_timestamp, second_path);
            let after_first = run_upload(m, first_bytes, first_timestamp);
            let after_second = run_upload(after_first.0, second_bytes, second_timestamp);
            let served = run_take(after_second.0);
            &&& after_second.1 == Some(Ok::<PendingUpdateView, UploadUpdateErrorView>(second))
            &&& after_second.0.record == Some(second)
            &&& !after_second.0.files.contains_key(first_path)
            &&& served.1 == Some(Ok::<Option<ServedUpdateView>, FailureView>(
                Some(ServedUpdateView { pending: second, bytes: second_bytes }),
            ))
            &&& run_take(served.0).1 == Some(Ok::<Option<ServedUpdateView>, FailureView>(None))
        }),
{
    let first_path = path_in(m.uploads_dir, stored_name(first_timestamp));
    let second_path = path_in(m.uploads_dir, stored_name(second_timestamp));
    lemma_stored_name_injective(first_timestamp, second_timestamp);
    lemma_path_in_injective(m.uploads_dir, stored_name(first_timestamp), stored_name(second_timestamp));
    assert(first_path != second_path);
    upload_becomes_pending(m, first_bytes, first_timestamp);
    let after_first = run_upload(m, first_bytes, first_timestamp);
    upload_becomes_pending(after_first.0, second_bytes, second_timestamp);
    let after_second = run_upload(after_first.0, second_bytes, second_timestamp);
    take_serves_pending_once(after_second.0);
}

/// When the record of an upload cannot be written, the image just stored is
/// removed and the upload fails with the record's error, whatever the
/// removal answers.
pub proof fn failed_record_rolls_back(pending: PendingUpdateView, cause: FailureView, removal: Result<(), FailureView>)
    ensures
        ({
            let message = in_context("failed to replace pending OTA record"@, cause);
            &&& (UploadFlowView::Recording { pending }).resume(OutcomeView::Replaced(Err(cause)))
                == UploadStepView::Perform(
                    UploadFlowView::RollingBack { cause: message },
                    EffectView::RemoveFile { path: pending.stored_path },
                )
            &&& (UploadFlowView::RollingBack { cause: message }).resume(OutcomeView::Removed(removal))
                == UploadStepView::Finish(Err(UploadUpdateErrorView::Unknown(message)))
        }),
{
}

/// A file that cannot be deleted never changes the result of an upload or
/// of serving an image.
pub proof fn removal_failures_are_ignored(
    pending: PendingUpdateView,
    served: ServedUpdateView,
    removal: Result<(), FailureView>,
)
    ensures
        (UploadFlowView::DroppingSuperseded { pending }).resume(OutcomeView::Removed(removal))
            == UploadStepView::Finish(Ok(pending)),
        (TakeFlowView::Removing { served }).resume(OutcomeView::Removed(removal))
            == TakeStepView::Finish(Ok(Some(served))),
{
}

/// A pending image whose file cannot be read is not served and stays
/// pending: the download fails and the store is unchanged.
pub proof fn unreadable_image_stays_pending(m: StoreModel)
    requires
        m.record is Some,
        !m.files.contains_key(m.record->0.stored_path),
    ensures
        run_take(m) == (m, Some(Err::<Option<ServedUpdateView>, FailureView>(
            in_context(read_failure_context(m.record->0.stored_path), missing_file()),
        ))),
{
    reveal_with_fuel(drive_take, 3);
}

} // verus!
