//! Ingestion data plane of a DICOM storage receiver.
//!
//! A connection hands the receiver a stream of fragments. Every payload
//! fragment is written to a per-sender directory under the storage root and,
//! once it is safely on disk, announced to a downstream service. This crate
//! holds the decisions of that pipeline, their models and the proofs about
//! them; reading sockets, touching the file system and sending requests is
//! left to the caller, who is told step by step what to do.
//!
//! - [`orchestrator`]: what is done about each event of a connection.
//! - [`ingest`]: one payload on its way to the disk and downstream.
//! - [`persist`]: where a dataset goes and the steps that store it.
//! - [`forward`]: the announcement of a stored dataset and its outcome.
//! - [`config`]: start-up settings and their defaults.
//! - [`metadata`]: the identifying attributes of a stored dataset.
//! - [`json`] and [`text`]: what the others share.

pub mod config;
pub mod forward;
pub mod ingest;
pub mod json;
pub mod metadata;
pub mod orchestrator;
pub mod persist;
pub mod text;
