//! Generation and validation of Terraform declarations for Kafka Connect
//! connectors.
//!
//! The crate turns a catalog of connector definitions into `confluent_connector`
//! resource declarations and reads such declarations back for validation.
//! Every function is verified against a contract stated over the views of its
//! arguments; the HCL parser and printer are reached through the few trusted
//! functions of [`trusted`].

pub mod text;
pub mod search;
pub mod config_map;
pub mod types;
pub mod document;
pub mod error;
pub mod trusted;
pub mod terraform;
pub mod connectors;
pub mod app;
pub mod round_trip;

pub use error::ConnectUtilError;
