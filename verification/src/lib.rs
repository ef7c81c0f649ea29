//! Google Cloud REST bridge: builds the requests of the Cloud Storage, Pub/Sub, Secret Manager,
//! BigQuery, Firestore, Compute Engine, Cloud Run, Cloud Functions, Cloud Logging, Cloud
//! Monitoring and IAM operations, and shapes their replies.
//!
//! Nothing here performs I/O. A caller hands in the JSON options of an operation together with
//! the project variables of its environment, sends the request it gets back, and hands in the
//! reply.

pub mod auth;
pub mod bridge;
pub mod codec;
pub mod common;
pub mod decimal;
pub mod firestore;
pub mod gcs;
pub mod gs_uri;
pub mod json;
pub mod laws;
pub mod naming;
pub mod ops;
pub mod options;
pub mod pubsub;
pub mod request;
pub mod resource_name;
pub mod table_ref;
pub mod text;
pub mod url;
