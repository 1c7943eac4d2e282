//! Client-side logic for submitting URLs to a web-archiving service.
//!
//! The crate validates candidate URLs, decides whether a previously
//! recorded snapshot is still fresh, and drives the archiving pipeline
//! as an explicit state machine whose transitions are verified; the
//! surrounding process performs the HTTP requests the machine asks for.

pub mod archivableurl;
pub mod checkresponse;
pub mod config;
pub mod errors;
pub mod machine;
pub mod retry;
pub mod strutil;
pub mod timestamp;
pub mod urlparse;

pub use crate::archivableurl::ArchivableUrl;
pub use crate::config::ClientConfig;
pub use crate::errors::Error;
pub use crate::machine::{ArchiveMachine, ArchiveResult, Event, WaybackMachineClient};
