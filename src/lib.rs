//! Promotion of an installer release: a verified state machine that resolves
//! the revision and version of a release, stages its artifacts, archives and
//! publishes them, and writes the release manifest that clients poll.
//!
//! The machine does no I/O itself. `Context::promote_rustup` starts a
//! promotion and returns the first `Action`; the caller performs each action
//! and hands its outcome back to `Context::resume` as an `Event`, until the
//! machine answers `Action::Finish` or `Action::Abort`.
pub mod config;
pub mod error;
pub mod laws;
pub mod paths;
pub mod promote;
pub mod version;

pub use config::{Channel, Config};
pub use error::{DecodeStep, ManifestField, PromoteError};
pub use paths::S3Copy;
pub use promote::{Action, Context, Event, Phase};
pub use version::{remove_newlines, version_from_manifest_content};
