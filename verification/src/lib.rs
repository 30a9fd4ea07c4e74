//! A bridge library that renders text templates against a JSON-encoded
//! context.  The caller hands in template text (or a glob pattern naming a
//! set of template files), a JSON document whose top-level object entries
//! become the render context, and an autoescape policy; it gets back either
//! the rendered text or a single human-readable diagnostic.
use vstd::prelude::*;

pub mod context;
pub mod engine;
pub mod escape;
pub mod messages;
pub mod render;

pub use render::RenderResult;
pub use render::render_template;

verus! {

/// The views of a sequence of strings, element by element.
pub open spec fn string_views(ss: Seq<String>) -> Seq<Seq<char>> {
    ss.map_values(|s: String| s@)
}

} // verus!
