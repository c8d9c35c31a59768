//! The documentation cache.

pub mod docgen;
pub mod downloader;
pub mod error;
pub mod run;
pub mod service;
pub mod storage;
pub mod tools;
pub mod transaction;
pub mod utils;
pub mod workspace;
