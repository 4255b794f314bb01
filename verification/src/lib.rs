//! A small configurable logging facility: a fluent builder accumulates a
//! minimum severity, a rotation threshold and a list of output targets, and
//! produces an immutable `Logger` value. The decision logic — severity
//! filtering, record formatting, log-file path layout, the size-based
//! rotation policy and the install-once discipline — is verified here;
//! the surrounding process does the actual file and console writes.

pub mod builder;
pub mod clock;
pub mod format;
pub mod install;
pub mod level;
pub mod rotation;
pub mod target;

pub use builder::{Logger, LoggerBuilder, SetupStep};
pub use format::Record;
pub use install::{BuildError, InstallSlot};
pub use level::LogLevel;
pub use target::LogTarget;
