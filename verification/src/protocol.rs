//! Plain data types for the protocol values the library works with:
//! cursor positions, ranges, locations, completion entries, and the
//! capability set the server advertises at initialization.

use vstd::prelude::*;

verus! {

/// A zero-based cursor coordinate inside a document: line index and
/// character column, as supplied by the requester (no range check).
#[derive(Clone, Copy, PartialEq, Eq, Structural, Debug)]
pub struct Position {
    pub line: u32,
    pub character: u32,
}

/// A span inside a document, from `start` to `end` (both positions).
#[derive(Clone, Copy, PartialEq, Eq, Structural, Debug)]
pub struct Range {
    pub start: Position,
    pub end: Position,
}

/// A place in some document: the document's identity and a span in it.
#[derive(Clone, Debug)]
pub struct DocLocation {
    pub uri: String,
    pub range: Range,
}

/// The kind a completion entry is advertised under.
#[derive(Clone, Copy, PartialEq, Eq, Structural, Debug)]
pub enum CompletionKind {
    Function,
    Variable,
    Keyword,
}

/// One entry of the completion list: a label, its kind, and a short
/// fixed description.
#[derive(Clone, Debug)]
pub struct CompletionEntry {
    pub label: String,
    pub kind: CompletionKind,
    pub detail: String,
}

/// How document synchronization is performed: the client sends either
/// the entire text on every change, or incremental deltas.
#[derive(Clone, Copy, PartialEq, Eq, Structural, Debug)]
pub enum SyncMode {
    Full,
    Incremental,
}

/// The fixed capability set the server returns from `initialize`.
#[derive(Clone, Debug)]
pub struct ServerCaps {
    pub definition_provider: bool,
    pub references_provider: bool,
    pub hover_provider: bool,
    pub completion_provider: bool,
    pub completion_resolve: bool,
    pub completion_trigger_characters: Vec<String>,
    pub text_document_sync: SyncMode,
}

} // verus!
