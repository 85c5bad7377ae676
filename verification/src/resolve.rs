//! The position resolver: maps a cursor location in a document to the
//! token "under" it. The text is split into lines at line breaks, the
//! selected line into whitespace-separated tokens, and the token at
//! index `character / 2` is returned - a coarse heuristic preserved
//! exactly as observable behaviour.

use vstd::prelude::*;
use vstd::string::StrSliceExecFns;
use vstd::string::StringExecFns;
use crate::protocol::Position;

verus! {

/// Whether `c` is a whitespace separator: the Unicode white-space code
/// points, exactly as `char::is_whitespace` classifies them.
pub open spec fn is_space(c: char) -> bool {
    let n: u32 = c as u32;
    (9 <= n && n <= 13) || n == 32 || n == 0x85 || n == 0xa0 || n == 0x1680
        || (0x2000 <= n && n <= 0x200a) || n == 0x2028 || n == 0x2029
        || n == 0x202f || n == 0x205f || n == 0x3000
}

/// Decides `is_space` on a concrete character.
pub fn is_space_char(c: char) -> (r: bool)
    ensures
        r == is_space(c),
{
    let n: u32 = c as u32;
    (9 <= n && n <= 13) || n == 32 || n == 0x85 || n == 0xa0 || n == 0x1680
        || (0x2000 <= n && n <= 0x200a) || n == 0x2028 || n == 0x2029
        || n == 0x202f || n == 0x205f || n == 0x3000
}

/// The lines of `text`: a line ends at `"\n"` or `"\r\n"`, the line
/// break itself belongs to no line, and a final line break opens no
/// further (empty) line.
pub open spec fn lines_of(text: Seq<char>) -> Seq<Seq<char>>
    decreases text.len(),
{
    if text.len() == 0 {
        Seq::empty()
    } else if text[0] == '\n' {
        seq![Seq::<char>::empty()] + lines_of(text.skip(1))
    } else if text.len() >= 2 && text[0] == '\r' && text[1] == '\n' {
        seq![Seq::<char>::empty()] + lines_of(text.skip(2))
    } else {
        let rest = lines_of(text.skip(1));
        if rest.len() == 0 {
            seq![seq![text[0]]]
        } else {
            seq![seq![text[0]] + rest[0]] + rest.skip(1)
        }
    }
}

/// The line of `text` at index `line`, or the empty line when the
/// index is out of range.
pub open spec fn line_at(text: Seq<char>, line: nat) -> Seq<char> {
    let ls = lines_of(text);
    if line < ls.len() {
        ls[line as int]
    } else {
        Seq::empty()
    }
}

/// The whitespace-separated tokens of `line`, empty tokens discarded.
pub open spec fn tokens_of(line: Seq<char>) -> Seq<Seq<char>>
    decreases line.len(),
{
    if line.len() == 0 {
        Seq::empty()
    } else if is_space(line[0]) {
        tokens_of(line.skip(1))
    } else {
        let rest = tokens_of(line.skip(1));
        if line.len() >= 2 && !is_space(line[1]) {
            seq![seq![line[0]] + rest[0]] + rest.skip(1)
        } else {
            seq![seq![line[0]]] + rest
        }
    }
}

/// The token of `line` at index `idx`, or the empty token when the
/// index is out of range.
pub open spec fn token_at(line: Seq<char>, idx: nat) -> Seq<char> {
    let ts = tokens_of(line);
    if idx < ts.len() {
        ts[idx as int]
    } else {
        Seq::empty()
    }
}

/// The token "under" a cursor position: in the line at index `line`,
/// the whitespace-separated token at index `character / 2` (integer
/// division).
pub open spec fn word_at(text: Seq<char>, line: nat, character: nat) -> Seq<char> {
    token_at(line_at(text, line), character / 2)
}

/// Returns the line of `text` at index `line`, or the empty string
/// when the index is out of range.
pub fn line_at_exec(text: &str, line: usize) -> (r: String)
    ensures
        r@ == line_at(text@, line as nat),
    decreases text@.len(),
{
    let n = text.unicode_len();
    if n == 0 {
        String::new()
    } else {
        let c0 = text.get_char(0);
        if c0 == '\n' {
            let rest = text.substring_char(1, n);
            proof {
                assert(rest@ =~= text@.skip(1));
            }
            if line == 0 {
                String::new()
            } else {
                line_at_exec(rest, line - 1)
            }
        } else if c0 == '\r' && n >= 2 && text.get_char(1) == '\n' {
            let rest = text.substring_char(2, n);
            proof {
                assert(rest@ =~= text@.skip(2));
            }
            if line == 0 {
                String::new()
            } else {
                line_at_exec(rest, line - 1)
            }
        } else {
            let rest = text.substring_char(1, n);
            proof {
                assert(rest@ =~= text@.skip(1));
            }
            if line == 0 {
                let mut s = String::from_str(text.substring_char(0, 1));
                let tail = line_at_exec(rest, 0);
                s.append(tail.as_str());
                proof {
                    assert(text@.subrange(0, 1) =~= seq![text@[0]]);
                    assert(s@ =~= line_at(text@, 0));
                }
                s
            } else {
                line_at_exec(rest, line)
            }
        }
    }
}

/// Returns the token of `line` at index `idx`, or the empty string
/// when the index is out of range.
pub fn token_at_exec(line: &str, idx: usize) -> (r: String)
    ensures
        r@ == token_at(line@, idx as nat),
    decreases line@.len(),
{
    let n = line.unicode_len();
    if n == 0 {
        String::new()
    } else {
        let c0 = line.get_char(0);
        let rest = line.substring_char(1, n);
        proof {
            assert(rest@ =~= line@.skip(1));
        }
        if is_space_char(c0) {
            token_at_exec(rest, idx)
        } else {
            let cont = if n >= 2 {
                !is_space_char(line.get_char(1))
            } else {
                false
            };
            if cont {
                proof {
                    assert(tokens_of(line@.skip(1)).len() > 0);
                }
                if idx == 0 {
                    let mut s = String::from_str(line.substring_char(0, 1));
                    let tail = token_at_exec(rest, 0);
                    s.append(tail.as_str());
                    proof {
                        assert(line@.subrange(0, 1) =~= seq![line@[0]]);
                        assert(s@ =~= token_at(line@, 0));
                    }
                    s
                } else {
                    token_at_exec(rest, idx)
                }
            } else {
                if idx == 0 {
                    let s = String::from_str(line.substring_char(0, 1));
                    proof {
                        assert(line@.subrange(0, 1) =~= seq![line@[0]]);
                        assert(s@ =~= token_at(line@, 0));
                    }
                    s
                } else {
                    token_at_exec(rest, idx - 1)
                }
            }
        }
    }
}

/// Returns the best-effort token under `position` in `text`: the line
/// at `position.line` (empty when out of range) is split on runs of
/// whitespace, and the token at index `position.character / 2` is
/// returned, or the empty string when that index is out of range.
pub fn get_word_at_position(text: &str, position: Position) -> (r: String)
    ensures
        r@ == word_at(text@, position.line as nat, position.character as nat),
{
    let line = line_at_exec(text, position.line as usize);
    token_at_exec(line.as_str(), (position.character / 2) as usize)
}

/// The position resolver is pure and deterministic: identical text,
/// line and character always yield the identical token.
pub proof fn lemma_resolver_deterministic(
    text1: Seq<char>,
    line1: nat,
    character1: nat,
    text2: Seq<char>,
    line2: nat,
    character2: nat,
)
    requires
        text1 == text2,
        line1 == line2,
        character1 == character2,
    ensures
        word_at(text1, line1, character1) == word_at(text2, line2, character2),
{
}

} // verus!
