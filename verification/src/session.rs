//! The session dispatcher: owns the document store, advertises the
//! fixed capability set at initialization, routes each protocol method
//! to its handler, and tracks the session lifecycle
//! (uninitialized -> initializing -> ready -> shutting down). A request
//! arriving before `initialize` or after `shutdown` is outside the
//! modeled contract; the transport layer rejects it.

use vstd::prelude::*;
use vstd::string::StringExecFns;
use crate::features;
use crate::protocol::{CompletionEntry, DocLocation, Position, ServerCaps, SyncMode};
use crate::store::{apply_change_spec, text_of, DocumentStore};

verus! {

/// Where in its lifecycle the session stands.
#[derive(Clone, Copy, PartialEq, Eq, Structural, Debug)]
pub enum SessionState {
    Uninitialized,
    Initializing,
    Ready,
    ShuttingDown,
}

/// The session: lifecycle state plus the document store it owns.
pub struct Session {
    pub state: SessionState,
    pub store: DocumentStore,
}

/// The fixed capability set advertised at initialization: definition,
/// references and hover supported; completion supported with trigger
/// characters `.` and `(` and no resolve step; full document sync.
pub open spec fn advertised_caps(caps: ServerCaps) -> bool {
    &&& caps.definition_provider
    &&& caps.references_provider
    &&& caps.hover_provider
    &&& caps.completion_provider
    &&& !caps.completion_resolve
    &&& caps.completion_trigger_characters@.len() == 2
    &&& caps.completion_trigger_characters@[0]@ == "."@
    &&& caps.completion_trigger_characters@[1]@ == "("@
    &&& caps.text_document_sync == SyncMode::Full
}

impl Session {
    /// Creates a fresh session: uninitialized, with an empty store.
    pub fn new() -> (s: Session)
        ensures
            s.state == SessionState::Uninitialized,
            s.store@ == Map::<Seq<char>, Seq<char>>::empty(),
    {
        Session { state: SessionState::Uninitialized, store: DocumentStore::new() }
    }

    /// `initialize`: ignores the client's parameters and returns the
    /// fixed capability set; the session enters `Initializing`. The
    /// store is untouched.
    pub fn initialize(&mut self) -> (caps: ServerCaps)
        requires
            old(self).state == SessionState::Uninitialized,
        ensures
            final(self).state == SessionState::Initializing,
            final(self).store@ == old(self).store@,
            advertised_caps(caps),
    {
        self.state = SessionState::Initializing;
        let mut triggers: Vec<String> = Vec::new();
        triggers.push(String::from_str("."));
        triggers.push(String::from_str("("));
        ServerCaps {
            definition_provider: true,
            references_provider: true,
            hover_provider: true,
            completion_provider: true,
            completion_resolve: false,
            completion_trigger_characters: triggers,
            text_document_sync: SyncMode::Full,
        }
    }

    /// `initialized`: returns the informational message for the client
    /// log; the session becomes ready. No document state changes.
    pub fn initialized(&mut self) -> (msg: String)
        requires
            old(self).state == SessionState::Initializing,
        ensures
            final(self).state == SessionState::Ready,
            final(self).store@ == old(self).store@,
            msg@ == "RustLite-LSP initialized!"@,
    {
        self.state = SessionState::Ready;
        String::from_str("RustLite-LSP initialized!")
    }

    /// `shutdown`: succeeds unconditionally and releases nothing; the
    /// store keeps its documents, since the process exits shortly
    /// after.
    pub fn shutdown(&mut self)
        requires
            old(self).state == SessionState::Ready,
        ensures
            final(self).state == SessionState::ShuttingDown,
            final(self).store@ == old(self).store@,
    {
        self.state = SessionState::ShuttingDown;
    }

    /// `textDocument/didOpen`: stores `text` as the current content of
    /// `uri`.
    pub fn did_open(&mut self, uri: String, text: String)
        requires
            old(self).state == SessionState::Ready,
        ensures
            final(self).state == old(self).state,
            final(self).store@ == old(self).store@.insert(uri@, text@),
    {
        self.store.open(uri, text);
    }

    /// `textDocument/didChange`: applies a full-sync change
    /// notification; only the last of the supplied full texts is kept.
    pub fn did_change(&mut self, uri: String, updates: Vec<String>)
        requires
            old(self).state == SessionState::Ready,
        ensures
            final(self).state == old(self).state,
            final(self).store@ == apply_change_spec(old(self).store@, uri@, updates.deep_view()),
    {
        self.store.apply_change(uri, updates);
    }

    /// `textDocument/hover`: resolves the word under the position in
    /// the current text of `uri` (empty text when never opened) and
    /// answers from the fixed hover table.
    pub fn hover(&self, uri: &String, position: Position) -> (r: String)
        requires
            self.state == SessionState::Ready,
        ensures
            r@ == features::hover_result_spec(
                text_of(self.store@, uri@),
                position.line as nat,
                position.character as nat,
            ),
    {
        let text = self.store.get(uri);
        features::hover(text.as_str(), position)
    }

    /// `textDocument/completion`: the fixed list of four entries,
    /// independent of any request context.
    pub fn completion(&self) -> (r: Vec<CompletionEntry>)
        requires
            self.state == SessionState::Ready,
        ensures
            r@.len() == 4,
            r@[0].label@ == "fn"@,
            r@[1].label@ == "let"@,
            r@[2].label@ == "for"@,
            r@[3].label@ == "while"@,
    {
        features::completion_items()
    }

    /// `textDocument/definition`: the placeholder location at the
    /// requested position in the requesting document.
    pub fn goto_definition(&self, uri: String, position: Position) -> (r: DocLocation)
        requires
            self.state == SessionState::Ready,
        ensures
            r.uri@ == uri@,
            r.range.start == position,
            r.range.end == position,
    {
        features::goto_definition(uri, position)
    }

    /// `textDocument/references`: exactly one placeholder location, at
    /// the requested position in the requesting document.
    pub fn references(&self, uri: String, position: Position) -> (r: Vec<DocLocation>)
        requires
            self.state == SessionState::Ready,
        ensures
            r@.len() == 1,
            r@[0].uri@ == uri@,
            r@[0].range.start == position,
            r@[0].range.end == position,
    {
        features::references(uri, position)
    }
}

} // verus!
