//! Profile resolution and invocation pipeline for a `yt-dlp` front end.
//!
//! The library decides, from explicit flags, filesystem state handed in by the
//! caller, and the outcomes of interactive prompts, exactly which profile
//! configuration files and which pass-through arguments one run of the
//! external downloader uses, and builds that run's command line.
use vstd::prelude::*;

pub mod collate;
pub mod error;
pub mod interact;
pub mod invoke;
pub mod profile;
pub mod resolve;

verus! {

/// The views of a sequence of strings, element by element.
pub open spec fn views_of(s: Seq<String>) -> Seq<Seq<char>> {
    s.map_values(|x: String| x@)
}

} // verus!
