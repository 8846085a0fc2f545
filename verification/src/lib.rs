//! Zero-downtime rotation of the PostgreSQL credentials of a deployed
//! application, coordinated between a secret store, the database and a
//! GitOps controller.
//!
//! The crate holds the decisions of the rotation: what the stored secret
//! looks like before and after each step, which request goes out next, and
//! how every failure is reported. The callers perform the requests.

pub mod argo_cd;
pub mod config;
pub mod database;
pub mod error;
pub mod internal;
pub mod password;
pub mod text;
pub mod vault;
pub mod workflow;
