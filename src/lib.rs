//! Run one command template per line of a text file.
//!
//! Each non-blank line of the input is a value; every occurrence of a
//! placeholder token in the template is replaced by that value, and the
//! resulting command is run. The library holds the decisions: how a line is
//! trimmed, how the template is expanded, how outcomes are counted and what
//! is narrated. Reading the file and spawning processes is left to the caller.
use vstd::prelude::*;

pub mod text;
pub mod template;
pub mod config;
pub mod run;
pub mod laws;

verus! {

} // verus!
