//! Compatibility negotiation for a versioned kernel sandboxing interface.
//!
//! Application code declares, step by step, the restrictions that it wants
//! enforced; the running kernel may support none, some or all of them. The
//! library threads the chain of configuration objects (a ruleset, the access
//! rights that it handles, rules beneath paths) through the ABI that the
//! kernel reports, records how well each step matched, reacts to missing
//! support as each object's compatibility level says, and turns the outcome
//! of the final enforcement call into a restriction status.
//!
//! The system calls themselves stay with the caller: each step that needs
//! the kernel takes its answer as a plain value.
pub mod access;
pub mod chain;
pub mod compat;
pub mod negotiation;
pub mod ruleset;

pub use access::{AccessFs, CompatError};
pub use chain::{Compat, CompatBuild, CompatStatus, Error, ErrorThreshold, LastCall};
pub use compat::{CompatLevel, CompatState, Compatibility, ABI};
pub use negotiation::{
    CompatResult, Compatible, OptionCompatLevelMut, TailoredCompatLevel, TryCompat,
};
pub use ruleset::{PathBeneath, RestrictionStatus, Ruleset, RulesetAttr};
