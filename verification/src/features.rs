//! The feature handlers: hover, completion, go-to-definition and
//! find-references. Hover looks the resolved word up in a fixed table;
//! completion returns a fixed list of four entries; go-to-definition
//! and find-references return a zero-width placeholder location at the
//! requested position.

use vstd::prelude::*;
use vstd::string::StrSliceExecFns;
use vstd::string::StringExecFns;
use crate::protocol::{CompletionEntry, CompletionKind, DocLocation, Position, Range};
use crate::resolve::word_at;

verus! {

/// Decides whether two string slices hold the same characters.
pub fn str_eq(a: &str, b: &str) -> (r: bool)
    ensures
        r == (a@ == b@),
{
    let n = a.unicode_len();
    let m = b.unicode_len();
    if n != m {
        return false;
    }
    let mut i: usize = 0;
    while i < n
        invariant
            n == a@.len(),
            n == b@.len(),
            i <= n,
            forall|j: int| 0 <= j < i ==> a@[j] == b@[j],
        decreases n - i,
    {
        if a.get_char(i) != b.get_char(i) {
            return false;
        }
        i = i + 1;
    }
    proof {
        assert(a@ =~= b@);
    }
    true
}

/// The hover text for a resolved word: a fixed table for the known
/// keywords, and a generic fallback for every other word (the empty
/// word included).
pub open spec fn hover_message_spec(word: Seq<char>) -> Seq<char> {
    if word == "fn"@ {
        "Defines a function in RustLite"@
    } else if word == "let"@ {
        "Declares a variable in RustLite"@
    } else if word == "for"@ {
        "For loop construct"@
    } else if word == "while"@ {
        "While loop construct"@
    } else {
        "RustLite Syntax Support"@
    }
}

/// Returns the hover text for `word` from the fixed table, or the
/// generic fallback for a word the table does not know.
pub fn hover_message(word: &str) -> (r: String)
    ensures
        r@ == hover_message_spec(word@),
{
    if str_eq(word, "fn") {
        String::from_str("Defines a function in RustLite")
    } else if str_eq(word, "let") {
        String::from_str("Declares a variable in RustLite")
    } else if str_eq(word, "for") {
        String::from_str("For loop construct")
    } else if str_eq(word, "while") {
        String::from_str("While loop construct")
    } else {
        String::from_str("RustLite Syntax Support")
    }
}

/// What a hover request answers for a document text and a position:
/// the hover text of the word under the position.
pub open spec fn hover_result_spec(text: Seq<char>, line: nat, character: nat) -> Seq<char> {
    hover_message_spec(word_at(text, line, character))
}

/// Answers a hover request over the given document text: resolves the
/// word under `position` and maps it through the fixed hover table.
pub fn hover(text: &str, position: Position) -> (r: String)
    ensures
        r@ == hover_result_spec(text@, position.line as nat, position.character as nat),
{
    let word = crate::resolve::get_word_at_position(text, position);
    hover_message(word.as_str())
}

/// Returns the fixed completion list: exactly four entries, labelled
/// `fn`, `let`, `for` and `while`, independent of any request context.
pub fn completion_items() -> (r: Vec<CompletionEntry>)
    ensures
        r@.len() == 4,
        r@[0].label@ == "fn"@,
        r@[0].kind == CompletionKind::Function,
        r@[0].detail@ == "Defines a function"@,
        r@[1].label@ == "let"@,
        r@[1].kind == CompletionKind::Variable,
        r@[1].detail@ == "Declares a variable"@,
        r@[2].label@ == "for"@,
        r@[2].kind == CompletionKind::Keyword,
        r@[2].detail@ == "For loop construct"@,
        r@[3].label@ == "while"@,
        r@[3].kind == CompletionKind::Keyword,
        r@[3].detail@ == "While loop construct"@,
{
    let mut items: Vec<CompletionEntry> = Vec::new();
    items.push(
        CompletionEntry {
            label: String::from_str("fn"),
            kind: CompletionKind::Function,
            detail: String::from_str("Defines a function"),
        },
    );
    items.push(
        CompletionEntry {
            label: String::from_str("let"),
            kind: CompletionKind::Variable,
            detail: String::from_str("Declares a variable"),
        },
    );
    items.push(
        CompletionEntry {
            label: String::from_str("for"),
            kind: CompletionKind::Keyword,
            detail: String::from_str("For loop construct"),
        },
    );
    items.push(
        CompletionEntry {
            label: String::from_str("while"),
            kind: CompletionKind::Keyword,
            detail: String::from_str("While loop construct"),
        },
    );
    items
}

/// Answers a go-to-definition request: a single placeholder location
/// whose URI is the requesting document's URI and whose range is the
/// zero-width span exactly at the requested position.
pub fn goto_definition(uri: String, position: Position) -> (r: DocLocation)
    ensures
        r.uri@ == uri@,
        r.range.start == position,
        r.range.end == position,
{
    DocLocation { uri, range: Range { start: position, end: position } }
}

/// Answers a find-references request: exactly one placeholder
/// location, equal to the requested position in the requesting
/// document, regardless of content.
pub fn references(uri: String, position: Position) -> (r: Vec<DocLocation>)
    ensures
        r@.len() == 1,
        r@[0].uri@ == uri@,
        r@[0].range.start == position,
        r@[0].range.end == position,
{
    let mut locs: Vec<DocLocation> = Vec::new();
    locs.push(DocLocation { uri, range: Range { start: position, end: position } });
    locs
}

} // verus!
