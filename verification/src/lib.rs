//! Control plane between a dashboard and one container-runtime daemon:
//! endpoint resolution, bearer-token authentication, container catalogue
//! enrichment, lifecycle acknowledgements and uniform error mapping.
//!
//! The crate holds the decisions; the program around it performs the
//! network calls and hands their outcomes back as plain values.

pub mod error;
pub mod text;
pub mod catalog;
pub mod auth;
pub mod endpoint;
pub mod lifecycle;
pub mod envelope;
pub mod guard;
