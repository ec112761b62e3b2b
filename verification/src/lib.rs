//! A build-cache engine for CI pipelines: a commutative content fingerprint
//! over watched files, a compression layer for packed artifacts, the object
//! store's request and response rules, and the fail-soft orchestration of
//! restore-or-build-and-publish.

pub mod archive;
pub mod cli;
pub mod hash;
pub mod lang;
pub mod orchestrator;
pub mod s3;
