//! The OTA business flow: what a pending update is, and the steps by which
//! an upload is recorded and a pending image is served.

pub mod ota;
pub mod effects;
pub mod store_model;
