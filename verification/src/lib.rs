//! Session and resource client for a desktop code editor companion.
//!
//! The crate holds the decisions of the client: how a credential is split
//! and joined, which request an operation sends and what its reply means,
//! where the editor's files live on each operating system, and what a
//! diagnostic report contains. It sends nothing and touches no file; of the
//! machine it asks only for the operating system, in the `host` module.

pub mod endpoints;
pub mod host;
pub mod paths;
pub mod pathtext;
pub mod report;
pub mod response;
pub mod system;
pub mod text;
pub mod token;
