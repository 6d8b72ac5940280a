//! A sandboxed execution engine for untrusted programs.
//!
//! Requests (a release channel, a command, its arguments, environment
//! variables and an input payload) are executed inside a disposable
//! container and the observed results are deduplicated through a bounded
//! least-recently-used cache keyed by the full request fingerprint.

pub mod cache;
pub mod channel;
pub mod docker;
pub mod error;
pub mod lru;
pub mod options;
pub mod output;
pub mod status;

pub use cache::Cache;
pub use cache::CacheKey;
pub use channel::ReleaseChannel;
pub use channel::image_name;
pub use status::ExitStatus;
pub use error::StringError;
pub use options::AsmFlavor;
pub use options::Backtrace;
pub use options::CompileOutput;
pub use options::OptLevel;
pub use options::highlight_lexer;
pub use output::finish_output;
