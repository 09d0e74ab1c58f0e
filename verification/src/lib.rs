//! Read-only report of the access policies attached to the IAM role in effect.
//!
//! The library holds the decisions of the report: how a role name is taken
//! from a caller identity, how paginated listings are gathered, how a policy
//! document is looked up, decoded and normalized, and how the three output
//! modes lay the result out. The calls to the identity and policy services
//! themselves are made by the program around the library, which hands each
//! answer to [`pipeline::Pipeline::step`].
//!
//! - [`mode`]: the three output modes and the switches that choose one.
//! - [`identity`]: the role name in a caller identity.
//! - [`exchange`]: the calls a report asks for and the answers it takes.
//! - [`percent`]: percent-decoding of fetched documents.
//! - [`json`]: JSON documents, parsed and written by `serde_json`.
//! - [`document`]: normalizing a fetched document.
//! - [`report`]: the gathered policies and their documents.
//! - [`render`]: the lines of each output mode.
//! - [`pipeline`]: the report as a state machine, one call at a time.
//! - [`service`]: what a whole run ends with against a given service.
//! - [`error`]: why a document is missing, and why a report failed.

pub mod document;
pub mod error;
pub mod exchange;
pub mod identity;
pub mod json;
pub mod mode;
pub mod percent;
pub mod pipeline;
pub mod render;
pub mod report;
pub mod service;
