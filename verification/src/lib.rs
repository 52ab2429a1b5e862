//! Core library of a live-reloading Markdown viewer.
//!
//! The heart of the crate is [`watcher`]: a debounced, filter-aware model of a
//! filesystem watch on a single target file.  It classifies raw filesystem
//! events, suppresses notification bursts inside a fixed time window, and
//! tracks the lifecycle of the one active watch session.  [`config`] keeps the
//! recently-opened-file list, [`theme`] lists the built-in themes, and
//! [`parser`] renders Markdown to HTML through `pulldown_cmark`.

use vstd::prelude::*;

pub mod config;
pub mod parser;
pub mod theme;
pub mod watcher;

verus! {

/// The character sequences held by a list of strings.
pub open spec fn string_views(v: Seq<String>) -> Seq<Seq<char>> {
    v.map_values(|s: String| s@)
}

} // verus!
