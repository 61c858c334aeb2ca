//! A project-scaffolding library: a catalog of file and script templates,
//! grouped into named projects, is validated against the filesystem facts
//! its caller reports and then instantiated into a target directory under
//! a per-template conflict-handling policy (fail, append or overwrite).
//!
//! The library decides; the caller performs. Validation consumes, per
//! template, whether its source exists and what it canonicalizes to, and
//! instantiation consumes whether a destination is already present and
//! what the files contain. Every decision and every resulting content is
//! specified and verified here; reading, writing and running scripts stay
//! with the caller.

pub mod catalog;
pub mod instantiate;
pub mod lookup;
pub mod paths;
pub mod validate;

pub use catalog::Behavior;
pub use catalog::Config;
pub use catalog::Project;
pub use catalog::Settings;
pub use catalog::Template;
pub use catalog::TemplateType;
pub use catalog::ValidProject;
pub use catalog::ValidTemplate;
