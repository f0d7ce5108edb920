//! The document, as far as layout and painting see it.

use vstd::prelude::*;
use std::sync::Arc;

use crate::graphics_engine::font::Font;
use crate::layout::flow::inline::InlineFormattingContext;
use crate::style::properties::ComputedValues;

verus! {

/// What a node of the document is.
pub enum NodeData {
    Element { name: String },
    Text { contents: String },
    /// Anything that layout passes over: a comment, a doctype, a processing
    /// instruction.
    Other,
}

/// A node of the document with its computed style, its font and its
/// children.
pub struct Node {
    pub data: NodeData,
    pub style: Arc<ComputedValues>,
    pub font: Font,
    pub children: Vec<Node>,
}

/// A document whose styles are resolved and whose boxes are built: its
/// tree of nodes, and its content as one inline formatting context that fills
/// the page.
pub struct Document {
    pub root: Node,
    pub content: InlineFormattingContext,
}

} // verus!
