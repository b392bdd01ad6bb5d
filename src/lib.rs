//! Engine abstraction for driving static-site-generator command-line tools.
//!
//! The library decides everything that does not need the host: the argument
//! vector for each operation, where a tool binary is taken from, how a
//! finished process is turned into a result, and the text of new content
//! files. Running processes and touching the filesystem is left to callers.
use vstd::prelude::*;

pub mod engine;
pub mod error;
pub mod hugo_adapter;
pub mod locator;
pub mod models;
mod outside;
pub mod posts;
pub mod project;
pub mod text;
pub mod zola_adapter;

verus! {

} // verus!
