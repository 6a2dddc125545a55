//! Locates a browser executable and builds the command line for the
//! `single-file` page-archiving tool.
//!
//! The crate holds the decision logic of the `capture` command: turning the
//! parsed arguments into a [`request::CaptureRequest`], picking the first
//! available browser from a fixed candidate list, and assembling the exact
//! argument list for the archiver.  Probing the system path and spawning the
//! archiver are left to the binary around this crate.

pub mod dispatch;
pub mod locator;
pub mod messages;
pub mod request;
