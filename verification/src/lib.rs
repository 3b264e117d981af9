//! Parameter resolution, validation, and report formatting for a command-line
//! front end that manages repositories on a self-hosted Gitea forge.
//!
//! The crate's core is the parameter resolution engine: for each field of a
//! command it reconciles an explicit command-line value, an environment-derived
//! default, and an interactive prompt into one validated parameter record.
//! Interactive input and output go through [`console::LineSource`] and
//! [`console::MessageSink`], so the engine can also run against scripted input
//! with no terminal involved.

use vstd::prelude::*;

pub mod app_error;
pub mod browse_parameters;
pub mod console;
pub mod create;
pub mod create_parameters;
pub mod error_level;
pub mod gitea_url;
pub mod laws;
pub mod list;
pub mod list_parameters;
pub mod parameters_error;
pub mod resolve;
pub mod text;

verus! {

} // verus!
