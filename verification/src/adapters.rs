//! The formula-engine data the editor reads: text spans and the token
//! snapshot that the engine's editor bridge hands over.
use vstd::prelude::*;

verus! {

/// A span of formula text, in chars.
#[derive(Debug, Clone, Copy, PartialEq, Eq, Structural)]
pub struct FormulaTextSpan {
    pub start: usize,
    pub len: usize,
}

/// Whitespace or a comment that the tokenizer attached to a token.
#[derive(Debug, PartialEq, Eq)]
pub struct EditorTrivia {
    pub text: String,
}

/// One token of the editor snapshot with its attached trivia.
#[derive(Debug, PartialEq, Eq)]
pub struct EditorToken {
    pub text: String,
    pub leading_trivia: Vec<EditorTrivia>,
    pub trailing_trivia: Vec<EditorTrivia>,
    pub span: FormulaTextSpan,
}

/// The tokens of one formula text as the engine's tokenizer saw them.
#[derive(Debug, PartialEq, Eq)]
pub struct EditorSyntaxSnapshot {
    pub formula_stable_id: String,
    pub green_tree_key: String,
    pub tokens: Vec<EditorToken>,
}

/// The state of a node in the formula walk.
#[derive(Debug, Clone, Copy, PartialEq, Eq, Structural)]
pub enum FormulaWalkNodeState {
    Evaluated,
    Bound,
    Opaque,
    Blocked,
}

} // verus!
