//! Request extractors.

pub mod ota_upload;
