use rustlite_lsp::features::{completion_items, goto_definition, hover, hover_message, references};
use rustlite_lsp::protocol::{CompletionKind, Position};

#[test]
fn hover_known_words() {
    assert_eq!(hover_message("fn"), "Defines a function in RustLite");
    assert_eq!(hover_message("let"), "Declares a variable in RustLite");
    assert_eq!(hover_message("for"), "For loop construct");
    assert_eq!(hover_message("while"), "While loop construct");
}

#[test]
fn hover_unknown_word_falls_back() {
    assert_eq!(hover_message("qqq"), "RustLite Syntax Support");
    assert_eq!(hover_message(""), "RustLite Syntax Support");
}

#[test]
fn hover_resolves_word_under_position() {
    let text = "fn main() {\n  let x = 5;\n}";
    let r = hover(text, Position { line: 1, character: 0 });
    assert_eq!(r, "Declares a variable in RustLite");
    let fallback = hover(text, Position { line: 1, character: 2 });
    assert_eq!(fallback, "RustLite Syntax Support");
}

#[test]
fn completion_is_the_fixed_list_of_four() {
    let items = completion_items();
    assert_eq!(items.len(), 4);
    assert_eq!(items[0].label, "fn");
    assert_eq!(items[0].kind, CompletionKind::Function);
    assert_eq!(items[0].detail, "Defines a function");
    assert_eq!(items[1].label, "let");
    assert_eq!(items[1].kind, CompletionKind::Variable);
    assert_eq!(items[1].detail, "Declares a variable");
    assert_eq!(items[2].label, "for");
    assert_eq!(items[2].kind, CompletionKind::Keyword);
    assert_eq!(items[2].detail, "For loop construct");
    assert_eq!(items[3].label, "while");
    assert_eq!(items[3].kind, CompletionKind::Keyword);
    assert_eq!(items[3].detail, "While loop construct");
}

#[test]
fn goto_definition_is_request_position() {
    let pos = Position { line: 7, character: 13 };
    let loc = goto_definition("file:///a.rl".to_string(), pos);
    assert_eq!(loc.uri, "file:///a.rl");
    assert_eq!(loc.range.start, pos);
    assert_eq!(loc.range.end, pos);
}

#[test]
fn references_is_one_location_at_request_position() {
    let pos = Position { line: 0, character: 0 };
    let locs = references("file:///b.rl".to_string(), pos);
    assert_eq!(locs.len(), 1);
    assert_eq!(locs[0].uri, "file:///b.rl");
    assert_eq!(locs[0].range.start, pos);
    assert_eq!(locs[0].range.end, pos);
}
