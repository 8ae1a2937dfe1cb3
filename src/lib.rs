//! The process-running core of a build helper: command templates, the
//! classification of a child's output lines, the loop that drains its output
//! while it runs, and the preparation of the working copies it builds from.
use vstd::prelude::*;

pub mod chars;
pub mod classify;
pub mod cmd;
pub mod git;
pub mod pipe;
pub mod template;

verus! {

/// Where the build's working copies are placed.
pub struct RootContext {
    pub root_path: String,
}

/// Sets up a build rooted at `root_path`.
pub fn run(root_path: &str) {
    let _context = RootContext { root_path: String::from_str(root_path) };
}

} // verus!
