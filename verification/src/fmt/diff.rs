use vstd::prelude::*;

use crate::lex::{SourceId, Span};

use super::types::{formatted, steps, Format, Shape};

verus! {

/// A replacement of the text under a span.
pub struct Diff {
    pub span: Span,
    pub replacement: String,
}

impl Diff {
    /// The edits that reformat `source`, whose syntax tree is `node`: one
    /// edit that replaces the whole source by `node` laid out in lines 80
    /// wide.
    pub fn compute<T: Format>(source_id: SourceId, source: &str, node: &T) -> (diffs: Vec<Diff>)
        ensures
            diffs@.len() == 1,
            diffs@[0].span == (Span { source_id, start: 0, end: source.len() }),
            diffs@[0].replacement@ == steps::<String>(
                Seq::empty(),
                formatted(node, Shape::initial(80)),
            ).0,
    {
        let replacement = node.format_to_string(80);
        let mut diffs: Vec<Diff> = Vec::new();
        diffs.push(Diff { span: Span { source_id, start: 0, end: source.len() }, replacement });
        diffs
    }
}

} // verus!
