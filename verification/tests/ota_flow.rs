use std::collections::HashMap;

use ull_fleet_server::api::handlers::{download_update, upload_update, UpdateReply};
use ull_fleet_server::domain::effects::{Effect, Outcome};
use ull_fleet_server::domain::ota::{
    InitializeFlow, InitializeStep, OtaService, PendingUpdate, ServedUpdate, TakeFlow, TakeStep,
    UploadFlow, UploadStep, UploadUpdateError,
};
use ull_fleet_server::digest::sha256_hex;
use ull_fleet_server::error::{AppError, Failure};
use ull_fleet_server::infra::{PendingUpdateRepository, UpdateStorage};

/// An in-memory database record and uploads directory, with switches to make
/// single operations fail.
struct World {
    dir: String,
    record: Option<PendingUpdate>,
    files: HashMap<String, Vec<u8>>,
    fail_store: bool,
    fail_replace: bool,
    fail_clear: bool,
    fail_remove: bool,
    fail_init_storage: bool,
    performed: Vec<String>,
}

impl World {
    fn new() -> Self {
        World {
            dir: "uploads".to_string(),
            record: None,
            files: HashMap::new(),
            fail_store: false,
            fail_replace: false,
            fail_clear: false,
            fail_remove: false,
            fail_init_storage: false,
            performed: Vec::new(),
        }
    }

    fn perform(&mut self, effect: Effect) -> Outcome {
        match effect {
            Effect::InitializeRepository => {
                self.performed.push("init-repository".to_string());
                Outcome::Initialized(Ok(()))
            }
            Effect::InitializeStorage => {
                self.performed.push("init-storage".to_string());
                if self.fail_init_storage {
                    Outcome::Initialized(Err(Failure::plain("permission denied")))
                } else {
                    Outcome::Initialized(Ok(()))
                }
            }
            Effect::StoreFile { name, bytes } => {
                self.performed.push(format!("store {name}"));
                if self.fail_store {
                    return Outcome::Stored(Err(Failure::plain("disk full")));
                }
                let path = format!("{}/{}", self.dir, name);
                self.files.insert(path.clone(), bytes);
                Outcome::Stored(Ok(path))
            }
            Effect::ReplaceRecord { pending } => {
                self.performed.push(format!("replace {}", pending.stored_path));
                if self.fail_replace {
                    return Outcome::Replaced(Err(Failure::plain("database is locked")));
                }
                let previous = self.record.as_ref().map(|r| r.stored_path.clone());
                self.record = Some(pending);
                Outcome::Replaced(Ok(previous))
            }
            Effect::LoadRecord => {
                self.performed.push("load".to_string());
                Outcome::Loaded(Ok(self.record.clone()))
            }
            Effect::ReadFile { path } => {
                self.performed.push(format!("read {path}"));
                match self.files.get(&path) {
                    Some(bytes) => Outcome::Read(Ok(bytes.clone())),
                    None => Outcome::Read(Err(Failure::plain("no such file"))),
                }
            }
            Effect::ClearRecord { path } => {
                self.performed.push(format!("clear {path}"));
                if self.fail_clear {
                    return Outcome::Cleared(Err(Failure::plain("database is locked")));
                }
                if self.record.as_ref().map(|r| r.stored_path == path).unwrap_or(false) {
                    self.record = None;
                }
                Outcome::Cleared(Ok(()))
            }
            Effect::RemoveFile { path } => {
                self.performed.push(format!("remove {path}"));
                if self.fail_remove {
                    return Outcome::Removed(Err(Failure::plain("busy")));
                }
                match self.files.remove(&path) {
                    Some(_) => Outcome::Removed(Ok(())),
                    None => Outcome::Removed(Err(Failure::plain("no such file"))),
                }
            }
        }
    }

    fn upload(&mut self, bytes: &[u8], timestamp: u64) -> Result<PendingUpdate, UploadUpdateError> {
        let mut step = UploadFlow::begin(bytes.to_vec(), timestamp);
        loop {
            match step {
                UploadStep::Finish(result) => return result,
                UploadStep::Perform(flow, effect) => {
                    let outcome = self.perform(effect);
                    assert!(flow.expects(&outcome));
                    step = flow.resume(outcome);
                }
            }
        }
    }

    fn take(&mut self) -> Result<Option<ServedUpdate>, Failure> {
        let mut step = TakeFlow::begin();
        loop {
            match step {
                TakeStep::Finish(result) => return result,
                TakeStep::Perform(flow, effect) => {
                    let outcome = self.perform(effect);
                    assert!(flow.expects(&outcome));
                    step = flow.resume(outcome);
                }
            }
        }
    }

    fn initialize(&mut self) -> Result<(), Failure> {
        let mut step = InitializeFlow::begin();
        loop {
            match step {
                InitializeStep::Finish(result) => return result,
                InitializeStep::Perform(flow, effect) => {
                    let outcome = self.perform(effect);
                    assert!(flow.expects(&outcome));
                    step = flow.resume(outcome);
                }
            }
        }
    }
}

#[test]
fn upload_then_download_serves_the_update_once() {
    let mut world = World::new();
    let payload = b"ota-image".to_vec();

    let upload = upload_update(world.upload(&payload, 1_700_000_000)).expect("upload should succeed");
    assert_eq!(upload.status, 201);
    assert_eq!(
        upload.body,
        "stored pending OTA image update-1700000000.bin (9 bytes)"
    );

    let download = download_update(world.take()).expect("download should succeed");
    let image = match download {
        UpdateReply::Image(image) => image,
        UpdateReply::NoContent => panic!("an image should be pending"),
    };
    assert_eq!(image.status, 200);
    assert_eq!(image.body, payload);
    assert_eq!(image.content_type, "application/octet-stream");
    assert_eq!(image.content_length, payload.len().to_string());
    assert_eq!(image.image_sha256, sha256_hex(&payload));

    let again = download_update(world.take()).expect("second download should succeed");
    assert!(matches!(again, UpdateReply::NoContent));
    assert!(world.files.is_empty());
    assert!(world.record.is_none());
}

#[test]
fn upload_rejects_empty_bodies() {
    let mut world = World::new();
    let err = match upload_update(world.upload(b"", 1)) {
        Err(err) => err,
        Ok(_) => panic!("empty upload should fail"),
    };
    let reply = err.into_reply();
    assert_eq!(reply.status, 400);
    assert_eq!(reply.body, "uploaded file is empty");
    assert!(world.performed.is_empty());
}

#[test]
fn upload_records_name_size_fingerprint_and_time() {
    let mut world = World::new();
    let pending = world.upload(b"abc", 42).expect("upload should succeed");
    assert_eq!(pending.filename, "update-42.bin");
    assert_eq!(pending.stored_path, "uploads/update-42.bin");
    assert_eq!(pending.size_bytes, 3);
    assert_eq!(
        pending.sha256_hex,
        "ba7816bf8f01cfea414140de5dae2223b00361a396177a9cb410ff61f20015ad"
    );
    assert_eq!(pending.created_at, "42");
    assert_eq!(
        world.performed,
        vec![
            "store update-42.bin".to_string(),
            "replace uploads/update-42.bin".to_string()
        ]
    );
}

#[test]
fn later_upload_replaces_earlier_and_deletes_its_file() {
    let mut world = World::new();
    world.upload(b"first", 10).expect("first upload should succeed");
    let second = world.upload(b"second", 11).expect("second upload should succeed");
    assert!(!world.files.contains_key("uploads/update-10.bin"));
    assert_eq!(world.record.as_ref().map(|r| r.stored_path.clone()), Some(second.stored_path.clone()));

    let served = world.take().expect("take should succeed").expect("an image should be pending");
    assert_eq!(served.bytes, b"second".to_vec());
    assert_eq!(served.pending.filename, "update-11.bin");
}

#[test]
fn reupload_at_same_time_keeps_the_file() {
    let mut world = World::new();
    world.upload(b"one", 7).expect("first upload should succeed");
    world.upload(b"two", 7).expect("second upload should succeed");
    assert_eq!(world.files.get("uploads/update-7.bin"), Some(&b"two".to_vec()));
    assert!(!world.performed.iter().any(|p| p.starts_with("remove")));
}

#[test]
fn failed_store_fails_the_upload() {
    let mut world = World::new();
    world.fail_store = true;
    match world.upload(b"data", 3) {
        Err(UploadUpdateError::Unknown(failure)) => {
            assert_eq!(failure.message, "failed to persist uploaded OTA image");
            assert_eq!(failure.detail, "failed to persist uploaded OTA image: disk full");
        }
        other => panic!("unexpected result {other:?}"),
    }
    assert!(world.record.is_none());
}

#[test]
fn failed_record_removes_the_new_file() {
    let mut world = World::new();
    world.fail_replace = true;
    match world.upload(b"data", 3) {
        Err(UploadUpdateError::Unknown(failure)) => {
            assert_eq!(failure.message, "failed to replace pending OTA record");
            assert_eq!(
                failure.detail,
                "failed to replace pending OTA record: database is locked"
            );
        }
        other => panic!("unexpected result {other:?}"),
    }
    assert!(world.files.is_empty());
    let reply = AppError::from_upload_error(UploadUpdateError::Unknown(Failure::plain("x"))).into_reply();
    assert_eq!(reply.status, 500);
    assert_eq!(reply.body, "an internal error occurred");
}

#[test]
fn failed_removal_of_superseded_file_is_ignored() {
    let mut world = World::new();
    world.upload(b"first", 1).expect("first upload should succeed");
    world.fail_remove = true;
    let second = world.upload(b"second", 2).expect("second upload should still succeed");
    assert_eq!(second.filename, "update-2.bin");
}

#[test]
fn download_with_nothing_pending_is_no_content() {
    let mut world = World::new();
    let reply = download_update(world.take()).expect("download should succeed");
    assert!(matches!(reply, UpdateReply::NoContent));
    assert_eq!(world.performed, vec!["load".to_string()]);
}

#[test]
fn unreadable_image_stays_pending() {
    let mut world = World::new();
    world.upload(b"image", 5).expect("upload should succeed");
    world.files.clear();
    let err = world.take().expect_err("reading should fail");
    assert_eq!(err.message, "failed to read pending OTA image at uploads/update-5.bin");
    assert_eq!(
        err.detail,
        "failed to read pending OTA image at uploads/update-5.bin: no such file"
    );
    assert!(world.record.is_some());
    let reply = match download_update(Err(err)) {
        Err(e) => e.into_reply(),
        Ok(_) => panic!("download should fail"),
    };
    assert_eq!(reply.status, 500);
}

#[test]
fn failed_clear_fails_the_download() {
    let mut world = World::new();
    world.upload(b"image", 5).expect("upload should succeed");
    world.fail_clear = true;
    let err = world.take().expect_err("clearing should fail");
    assert_eq!(err.message, "failed to clear pending OTA record");
    assert_eq!(err.detail, "failed to clear pending OTA record: database is locked");
    assert!(world.files.contains_key("uploads/update-5.bin"));
}

#[test]
fn failed_removal_of_served_file_still_serves() {
    let mut world = World::new();
    world.upload(b"image", 5).expect("upload should succeed");
    world.fail_remove = true;
    let served = world.take().expect("take should succeed").expect("image should be served");
    assert_eq!(served.bytes, b"image".to_vec());
    assert!(world.record.is_none());
}

#[test]
fn initialization_stops_at_first_failure() {
    let mut world = World::new();
    assert_eq!(world.initialize(), Ok(()));
    world.fail_init_storage = true;
    world.performed.clear();
    let failure = world.initialize().expect_err("storage initialization should fail");
    assert_eq!(failure.message, "failed to initialize update storage");
    assert_eq!(failure.detail, "failed to initialize update storage: permission denied");
    assert_eq!(
        world.performed,
        vec!["init-repository".to_string(), "init-storage".to_string()]
    );
}

#[test]
fn service_starts_its_flows() {
    let service = OtaService::new(
        PendingUpdateRepository::new("db/fleet.sqlite3".to_string()),
        UpdateStorage::new("uploads".to_string()),
    );
    assert_eq!(service.repository().database_path(), "db/fleet.sqlite3");
    assert_eq!(service.storage().uploads_dir(), "uploads");
    assert!(matches!(
        service.initialize(),
        InitializeStep::Perform(InitializeFlow::Repository, Effect::InitializeRepository)
    ));
    assert!(matches!(
        service.take_pending_update(),
        TakeStep::Perform(TakeFlow::Loading, Effect::LoadRecord)
    ));
    match service.upload(b"x".to_vec(), 9) {
        UploadStep::Perform(UploadFlow::Storing { filename, size_bytes, .. }, Effect::StoreFile { name, bytes }) => {
            assert_eq!(filename, "update-9.bin");
            assert_eq!(name, "update-9.bin");
            assert_eq!(size_bytes, 1);
            assert_eq!(bytes, b"x".to_vec());
        }
        other => panic!("unexpected step {other:?}"),
    }
}
