//! Text as sequences of characters: pieces between separators, lines, and
//! substring search.

use vstd::prelude::*;
use vstd::string::*;

verus! {

/// The pieces of `s` between occurrences of `separator`. There is always at
/// least one piece; a separator at either end leaves an empty piece there.
pub open spec fn pieces(s: Seq<char>, separator: char) -> Seq<Seq<char>>
    decreases s.len(),
{
    if s.len() == 0 {
        seq![Seq::<char>::empty()]
    } else {
        let before = pieces(s.drop_last(), separator);
        if s.last() == separator {
            before.push(Seq::<char>::empty())
        } else {
            before.drop_last().push(before.last().push(s.last()))
        }
    }
}

/// `line` without the carriage return that may end it.
pub open spec fn without_carriage_return(line: Seq<char>) -> Seq<char> {
    if line.len() > 0 && line.last() == '\r' {
        line.drop_last()
    } else {
        line
    }
}

/// The lines of `s`. A line ends at a line feed, or at a carriage return
/// directly followed by one; the line ending is not part of the line. The last
/// line needs no line ending, and text that ends in one has no empty line after
/// it.
pub open spec fn text_lines(s: Seq<char>) -> Seq<Seq<char>> {
    let parts = pieces(s, '\n');
    let ended = parts.drop_last().map_values(|part: Seq<char>| without_carriage_return(part));
    if parts.last().len() == 0 {
        ended
    } else {
        ended.push(parts.last())
    }
}

/// `pattern` stands in `s` at index `at`.
pub open spec fn occurs_at(pattern: Seq<char>, s: Seq<char>, at: int) -> bool {
    0 <= at && at + pattern.len() <= s.len() && s.subrange(at, at + pattern.len()) == pattern
}

/// `pattern` stands somewhere in `s`.
pub open spec fn occurs_in(pattern: Seq<char>, s: Seq<char>) -> bool {
    exists|at: int| occurs_at(pattern, s, at)
}

/// There is always a piece.
pub proof fn lemma_pieces_nonempty(s: Seq<char>, separator: char)
    ensures
        pieces(s, separator).len() >= 1,
    decreases s.len(),
{
    if s.len() > 0 {
        lemma_pieces_nonempty(s.drop_last(), separator);
    }
}

/// The characters of `text`, in order.
fn chars_of(text: &str) -> (chars: Vec<char>)
    ensures
        chars@ == text@,
{
    let mut chars: Vec<char> = Vec::new();
    for c in it: text.chars()
        invariant
            chars@ == it.seq().take(it.index()),
            it.seq() == text@,
    {
        chars.push(c);
    }
    chars
}

/// The characters of `text` from index `from` up to, not including, `to`.
fn substring(text: &str, from: usize, to: usize) -> (part: String)
    requires
        from <= to <= text@.len(),
    ensures
        part@ == text@.subrange(from as int, to as int),
{
    text.substring_char(from, to).to_owned()
}

/// Splits `text` at every `separator`.
pub fn split(text: &str, separator: char) -> (parts: Vec<String>)
    ensures
        parts.deep_view() == pieces(text@, separator),
{
    let chars = chars_of(text);
    let mut parts: Vec<String> = Vec::new();
    let mut start: usize = 0;
    let mut i: usize = 0;
    proof {
        assert(text@.take(0) =~= Seq::<char>::empty());
    }
    while i < chars.len()
        invariant
            chars@ == text@,
            start <= i <= chars.len(),
            pieces(text@.take(i as int), separator) == parts.deep_view().push(
                text@.subrange(start as int, i as int),
            ),
        decreases chars.len() - i,
    {
        proof {
            assert(text@.take(i as int + 1).drop_last() =~= text@.take(i as int));
        }
        if chars[i] == separator {
            parts.push(substring(text, start, i));
            proof {
                assert(text@.subrange(i as int + 1, i as int + 1) =~= Seq::<char>::empty());
            }
            start = i + 1;
        } else {
            proof {
                assert(text@.subrange(start as int, i as int).push(text@[i as int])
                    =~= text@.subrange(start as int, i as int + 1));
            }
        }
        i += 1;
    }
    parts.push(substring(text, start, i));
    proof {
        assert(text@.take(i as int) =~= text@);
    }
    parts
}

/// `line` without the carriage return that may end it.
fn strip_carriage_return(line: &str) -> (stripped: String)
    ensures
        stripped@ == without_carriage_return(line@),
{
    let n: usize = line.unicode_len();
    if n > 0 && line.get_char(n - 1) == '\r' {
        substring(line, 0, n - 1)
    } else {
        line.to_owned()
    }
}

/// The lines of `text`.
pub fn lines(text: &str) -> (found: Vec<String>)
    ensures
        found.deep_view() == text_lines(text@),
{
    let parts = split(text, '\n');
    proof {
        lemma_pieces_nonempty(text@, '\n');
    }
    let ghost all = pieces(text@, '\n');
    let ghost ended = all.drop_last().map_values(
        |part: Seq<char>| without_carriage_return(part),
    );
    let mut found: Vec<String> = Vec::new();
    let last: usize = parts.len() - 1;
    let mut i: usize = 0;
    while i < last
        invariant
            parts.deep_view() == all,
            all.len() == last + 1,
            ended == all.drop_last().map_values(|part: Seq<char>| without_carriage_return(part)),
            i <= last,
            found.deep_view() == ended.take(i as int),
        decreases last - i,
    {
        found.push(strip_carriage_return(parts[i].as_str()));
        proof {
            assert(ended.take(i as int + 1) =~= ended.take(i as int).push(ended[i as int]));
        }
        i += 1;
    }
    if !parts[last].as_str().is_empty() {
        let ghost before = found.deep_view();
        found.push(parts[last].clone());
        proof {
            assert(found.deep_view() =~= before.push(all.last()));
        }
    }
    found
}

/// Whether `pattern` stands in `text` at character index `at`.
fn matches_at(text: &Vec<char>, pattern: &Vec<char>, at: usize) -> (found: bool)
    requires
        at + pattern.len() <= text.len(),
    ensures
        found == occurs_at(pattern@, text@, at as int),
{
    let mut k: usize = 0;
    while k < pattern.len()
        invariant
            at + pattern.len() <= text.len(),
            k <= pattern.len(),
            forall|j: int| 0 <= j < k ==> text@[at + j] == pattern@[j],
        decreases pattern.len() - k,
    {
        if text[at + k] != pattern[k] {
            proof {
                assert(text@.subrange(at as int, at + pattern.len())[k as int] != pattern@[k as int]);
            }
            return false;
        }
        k += 1;
    }
    proof {
        assert(text@.subrange(at as int, at + pattern.len()) =~= pattern@);
    }
    true
}

/// Whether `pattern` stands somewhere in `text`.
pub fn contains(text: &str, pattern: &str) -> (found: bool)
    ensures
        found == occurs_in(pattern@, text@),
{
    let text_chars = chars_of(text);
    let pattern_chars = chars_of(pattern);
    if pattern_chars.len() == 0 {
        proof {
            assert(text@.subrange(0, 0) =~= pattern@);
            assert(occurs_at(pattern@, text@, 0));
        }
        return true;
    }
    if pattern_chars.len() > text_chars.len() {
        return false;
    }
    let end: usize = text_chars.len() - pattern_chars.len();
    let mut at: usize = 0;
    while at <= end
        invariant
            text_chars@ == text@,
            pattern_chars@ == pattern@,
            pattern_chars.len() >= 1,
            end + pattern_chars.len() == text_chars.len(),
            at <= end + 1,
            forall|a: int| 0 <= a < at ==> !occurs_at(pattern@, text@, a),
        decreases end + 1 - at,
    {
        if matches_at(&text_chars, &pattern_chars, at) {
            return true;
        }
        at += 1;
    }
    false
}

} // verus!
