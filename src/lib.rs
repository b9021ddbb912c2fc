//! A date-organised workspace tree: path resolution for the template, year
//! and date directories, the decisions that provision a date workspace from
//! the template, and the command-line surface that drives them.
use vstd::prelude::*;

pub mod cli;
pub mod error;
pub mod path;
pub mod provision;
