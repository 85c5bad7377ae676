use rustlite_lsp::protocol::{Position, SyncMode};
use rustlite_lsp::session::{Session, SessionState};

fn ready_session() -> Session {
    let mut s = Session::new();
    s.initialize();
    s.initialized();
    s
}

#[test]
fn initialize_advertises_fixed_capabilities() {
    let mut s = Session::new();
    assert_eq!(s.state, SessionState::Uninitialized);
    let caps = s.initialize();
    assert_eq!(s.state, SessionState::Initializing);
    assert!(caps.definition_provider);
    assert!(caps.references_provider);
    assert!(caps.hover_provider);
    assert!(caps.completion_provider);
    assert!(!caps.completion_resolve);
    assert_eq!(caps.completion_trigger_characters, vec![".".to_string(), "(".to_string()]);
    assert_eq!(caps.text_document_sync, SyncMode::Full);
}

#[test]
fn initialized_logs_and_becomes_ready() {
    let mut s = Session::new();
    s.initialize();
    let msg = s.initialized();
    assert_eq!(msg, "RustLite-LSP initialized!");
    assert_eq!(s.state, SessionState::Ready);
}

#[test]
fn shutdown_keeps_documents() {
    let mut s = ready_session();
    s.did_open("file:///a.rl".to_string(), "fn main".to_string());
    s.shutdown();
    assert_eq!(s.state, SessionState::ShuttingDown);
    assert_eq!(s.store.get(&"file:///a.rl".to_string()), "fn main");
}

#[test]
fn did_open_then_hover_uses_stored_text() {
    let mut s = ready_session();
    s.did_open("file:///a.rl".to_string(), "fn main() {\n  let x = 5;\n}".to_string());
    let r = s.hover(&"file:///a.rl".to_string(), Position { line: 0, character: 0 });
    assert_eq!(r, "Defines a function in RustLite");
}

#[test]
fn hover_on_missing_document_falls_back() {
    let s = ready_session();
    let r = s.hover(&"file:///missing.rl".to_string(), Position { line: 0, character: 0 });
    assert_eq!(r, "RustLite Syntax Support");
}

#[test]
fn did_change_last_update_wins_through_session() {
    let mut s = ready_session();
    s.did_open("file:///a.rl".to_string(), "fn old".to_string());
    s.did_change(
        "file:///a.rl".to_string(),
        vec!["while draft".to_string(), "for final".to_string()],
    );
    assert_eq!(s.store.get(&"file:///a.rl".to_string()), "for final");
    let r = s.hover(&"file:///a.rl".to_string(), Position { line: 0, character: 0 });
    assert_eq!(r, "For loop construct");
}

#[test]
fn session_completion_and_locations() {
    let s = ready_session();
    let items = s.completion();
    assert_eq!(items.len(), 4);
    let labels: Vec<String> = items.iter().map(|i| i.label.clone()).collect();
    assert_eq!(labels, vec!["fn", "let", "for", "while"]);
    let pos = Position { line: 2, character: 4 };
    let loc = s.goto_definition("file:///a.rl".to_string(), pos);
    assert_eq!(loc.uri, "file:///a.rl");
    assert_eq!(loc.range.start, pos);
    assert_eq!(loc.range.end, pos);
    let refs = s.references("file:///a.rl".to_string(), pos);
    assert_eq!(refs.len(), 1);
    assert_eq!(refs[0].uri, "file:///a.rl");
    assert_eq!(refs[0].range.start, pos);
    assert_eq!(refs[0].range.end, pos);
}
