//! A bridge between a caller and the `ohmybug` command-line scanner.
//!
//! The crate decides where the tool is looked for, how it is invoked and how
//! its output becomes a structured result. It performs no input or output of
//! its own: [`bridge::Bridge`] names each step to take and is told what the
//! step observed.
//!
//! - [`locate`]: the candidates at which the tool is looked for.
//! - [`invoke`]: the arguments of each kind of run, and what a run leaves
//!   behind.
//! - [`normalize`]: from exit status and captured text to a result.
//! - [`summary`] and [`json`]: the finding counts and the document that they
//!   are read from.
//! - [`text`]: trimming.
//! - [`protocol`], [`model`] and [`bridge`]: a request carried out step by
//!   step, its rules, and the executable form that follows them.
//! - [`discovery`]: what the rules come to over a whole discovery.

pub mod bridge;
pub mod discovery;
pub mod invoke;
pub mod json;
pub mod locate;
pub mod model;
pub mod normalize;
pub mod protocol;
pub mod summary;
pub mod text;

pub use locate::get_cli_path;
pub use normalize::ScanResult;
pub use summary::ScanSummary;
