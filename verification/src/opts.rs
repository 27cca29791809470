//! The options that the server is started with.

use std::path::PathBuf;
use vstd::prelude::*;

verus! {

/// `std::path::PathBuf`, an owned path. A value of it is only carried through.
#[verifier::external_type_specification]
#[verifier::external_body]
pub struct ExPathBuf(std::path::PathBuf);

/// The options of one run. They are read once, before any call is handled.
#[derive(Debug)]
pub struct Opt {
    /// Read specific config path
    pub config: Option<PathBuf>,
    /// Read specific templates directory path
    pub templates: Option<String>,
}

/// The path of the configuration to read, where one was given.
pub fn get_opt_config(opt: &Opt) -> (path: Option<&PathBuf>)
    ensures
        match path {
            Some(found) => opt.config == Some(*found),
            None => opt.config is None,
        },
{
    opt.config.as_ref()
}

/// The directory of the templates to read, where one was given.
pub fn get_opt_templates(opt: &Opt) -> (path: Option<&String>)
    ensures
        match path {
            Some(found) => opt.templates == Some(*found),
            None => opt.templates is None,
        },
{
    opt.templates.as_ref()
}

} // verus!
