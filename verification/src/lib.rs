//! Verified core of a small fleet-management backend that accepts one
//! over-the-air (OTA) firmware image at a time and serves it exactly once.

pub mod text;
pub mod digest;
pub mod domain;
pub mod infra;
pub mod error;
pub mod api;
pub mod config;
