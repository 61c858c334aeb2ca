//! The catalog model: templates, projects and global settings as they come
//! out of the configuration, before validation.

use vstd::prelude::*;

verus! {

/// What happens when a template's destination file already exists.
#[derive(Clone, Copy, Debug, PartialEq, Eq, Structural)]
pub enum Behavior {
    /// Abort this template's instantiation, leaving the existing file alone.
    Fail,
    /// Append the source bytes after the existing destination content.
    Append,
    /// Replace the destination with the source content.
    Overwrite,
}

/// Whether a template is a file to copy or a script to run.
#[derive(Clone, Copy, Debug, PartialEq, Eq, Structural)]
pub enum TemplateType {
    /// A script invoked through the configured interpreter.
    Script,
    /// A plain file copied into the target directory.
    Template,
}

/// One template as declared in the configuration: a source path relative
/// to the template root, what kind of item it is, the name it is invoked
/// by, an optional destination-name override, and an optional
/// conflict-handling policy.
#[derive(Debug)]
pub struct Template {
    /// Source path, relative to the template root.
    pub path: String,
    /// Whether this is a file to copy or a script to run.
    pub ttype: TemplateType,
    /// The unique name this template is invoked by.
    pub call_name: String,
    /// Destination file name; the source's base name when absent.
    pub rename: Option<String>,
    /// Conflict policy; falls back to the settings default, then `Fail`.
    pub behavior: Option<Behavior>,
}

/// A named, ordered group of templates instantiated together. The entries
/// of `templates` are `call_name` references into the catalog.
#[derive(Debug)]
pub struct Project {
    /// The `call_name`s of the member templates, in execution order.
    pub templates: Vec<String>,
    /// The unique name this project is invoked by.
    pub call_name: String,
}

/// Global settings: the catalog-wide fallback conflict policy.
#[derive(Debug)]
pub struct Settings {
    /// Used for every template that has no `behavior` of its own.
    pub default_behavior: Option<Behavior>,
}

/// A whole catalog as parsed from the configuration: settings and
/// templates are required, projects are optional.
#[derive(Debug)]
pub struct Config {
    /// Global settings.
    pub settings: Settings,
    /// Every template of the catalog.
    pub templates: Vec<Template>,
    /// The projects of the catalog, if any are declared.
    pub projects: Option<Vec<Project>>,
}

/// A template after validation: the source path is resolved to a full
/// filesystem location, `rename` is filled in with the source's base name
/// when it was absent, and `behavior` is resolved through the fallback
/// chain (per-template, then settings default, then `Fail`).
#[derive(Debug)]
pub struct ValidTemplate {
    /// Resolved source path of the template file or script.
    pub path: String,
    /// Whether this is a file to copy or a script to run.
    pub ttype: TemplateType,
    /// The unique name this template is invoked by.
    pub call_name: String,
    /// The destination file name, always present after validation.
    pub rename: String,
    /// The conflict policy, always present after validation.
    pub behavior: Behavior,
}

/// A project after validation: every template reference is resolved to
/// the position of the matching template in the validated template list,
/// in the project's declared order.
#[derive(Debug)]
pub struct ValidProject {
    /// Positions of the member templates in the validated template list.
    pub templates: Vec<usize>,
    /// The unique name this project is invoked by.
    pub call_name: String,
}

impl Default for TemplateType {
    /// A template that does not say what it is is a plain file.
    fn default() -> (r: Self)
        ensures
            r == TemplateType::Template,
    {
        TemplateType::Template
    }
}

} // verus!
