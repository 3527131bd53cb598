//! Searching, rewriting and assembling text.
//!
//! Text is modelled as a sequence of characters. The searches here are the
//! literal, left-to-right searches that the command markup and the
//! `edit-file` operation are defined by.

use vstd::prelude::*;

verus! {

/// `String::push` appends one character to the end of the string.
pub assume_specification[ String::push ](s: &mut String, ch: char)
    ensures
        final(s)@ == old(s)@.push(ch),
;

/// Whether `pattern` stands in `text` at position `at`.
pub open spec fn occurs_at(text: Seq<char>, pattern: Seq<char>, at: int) -> bool {
    &&& 0 <= at
    &&& at + pattern.len() <= text.len()
    &&& text.subrange(at, at + pattern.len()) == pattern
}

/// Whether `pattern` stands somewhere in `text`.
pub open spec fn occurs(text: Seq<char>, pattern: Seq<char>) -> bool {
    exists|at: int| occurs_at(text, pattern, at)
}

/// Whether `at` is the leftmost position at which `pattern` stands in `text`.
pub open spec fn is_first_occurrence(text: Seq<char>, pattern: Seq<char>, at: int) -> bool {
    &&& occurs_at(text, pattern, at)
    &&& forall|earlier: int| 0 <= earlier < at ==> !occurs_at(text, pattern, earlier)
}

/// The leftmost position at which `pattern` stands in `text`, if it stands
/// there at all.
pub open spec fn first_occurrence(text: Seq<char>, pattern: Seq<char>) -> Option<int> {
    if exists|at: int| is_first_occurrence(text, pattern, at) {
        Some(choose|at: int| is_first_occurrence(text, pattern, at))
    } else {
        None
    }
}

/// A leftmost occurrence is the first occurrence.
pub proof fn lemma_first_occurrence_found(text: Seq<char>, pattern: Seq<char>, at: int)
    requires
        is_first_occurrence(text, pattern, at),
    ensures
        first_occurrence(text, pattern) == Some(at),
{
    let chosen = choose|c: int| is_first_occurrence(text, pattern, c);
    assert(is_first_occurrence(text, pattern, chosen));
    if chosen < at {
        assert(!occurs_at(text, pattern, chosen));
    }
    if at < chosen {
        assert(!occurs_at(text, pattern, at));
    }
}

/// A pattern that stands nowhere has no first occurrence.
pub proof fn lemma_first_occurrence_absent(text: Seq<char>, pattern: Seq<char>)
    requires
        forall|at: int| 0 <= at && at + pattern.len() <= text.len() ==> !occurs_at(text, pattern, at),
    ensures
        first_occurrence(text, pattern) is None,
        !occurs(text, pattern),
{
    assert forall|at: int| !is_first_occurrence(text, pattern, at) by {
        if occurs_at(text, pattern, at) {
            assert(0 <= at && at + pattern.len() <= text.len());
        }
    }
    assert forall|at: int| !occurs_at(text, pattern, at) by {
        if occurs_at(text, pattern, at) {
            assert(0 <= at && at + pattern.len() <= text.len());
        }
    }
}

/// What a first occurrence is, when there is one, and what its absence means.
pub proof fn lemma_first_occurrence(text: Seq<char>, pattern: Seq<char>)
    ensures
        first_occurrence(text, pattern) matches Some(at) ==> is_first_occurrence(text, pattern, at),
        first_occurrence(text, pattern) is Some <==> occurs(text, pattern),
{
    if occurs(text, pattern) {
        let some = choose|at: int| occurs_at(text, pattern, at);
        lemma_leftmost_exists(text, pattern, some);
    }
}

/// Below any occurrence there is a leftmost one.
proof fn lemma_leftmost_exists(text: Seq<char>, pattern: Seq<char>, bound: int)
    requires
        occurs_at(text, pattern, bound),
    ensures
        exists|at: int| is_first_occurrence(text, pattern, at),
    decreases bound,
{
    if exists|earlier: int| 0 <= earlier < bound && occurs_at(text, pattern, earlier) {
        let earlier = choose|earlier: int| 0 <= earlier < bound && occurs_at(text, pattern, earlier);
        lemma_leftmost_exists(text, pattern, earlier);
    } else {
        assert(is_first_occurrence(text, pattern, bound));
    }
}

/// The characters of `s`, in order.
pub fn chars_of(s: &str) -> (out: Vec<char>)
    ensures
        out@ == s@,
{
    let mut out: Vec<char> = Vec::new();
    for c in it: s.chars()
        invariant
            out@ == it.seq().take(it.index()),
            it.seq() == s@,
    {
        out.push(c);
    }
    out
}

/// Appends the characters `chars[from..to]` to `out`.
pub(crate) fn push_chars(out: &mut String, chars: &Vec<char>, from: usize, to: usize)
    requires
        from <= to <= chars.len(),
    ensures
        final(out)@ == old(out)@ + chars@.subrange(from as int, to as int),
{
    let mut i: usize = from;
    while i < to
        invariant
            from <= i <= to <= chars.len(),
            out@ == old(out)@ + chars@.subrange(from as int, i as int),
        decreases to - i,
    {
        out.push(chars[i]);
        i = i + 1;
    }
}

/// The text made of the characters `chars[from..to]`.
pub(crate) fn text_of(chars: &Vec<char>, from: usize, to: usize) -> (out: String)
    requires
        from <= to <= chars.len(),
    ensures
        out@ == chars@.subrange(from as int, to as int),
{
    let mut out = String::new();
    push_chars(&mut out, chars, from, to);
    out
}

/// Whether two texts hold the same characters.
pub fn same_text(a: &str, b: &str) -> (same: bool)
    ensures
        same == (a@ == b@),
{
    let x = a.to_owned();
    let y = b.to_owned();
    x == y
}

/// Whether `pattern` stands at `at` in the window `text[lo..hi]`, `at` being
/// a position of the whole text.
fn stands_at(text: &Vec<char>, lo: usize, hi: usize, pattern: &Vec<char>, at: usize) -> (yes: bool)
    requires
        lo <= at,
        at + pattern.len() <= hi <= text.len(),
    ensures
        yes == occurs_at(text@.subrange(lo as int, hi as int), pattern@, at - lo),
{
    let ghost window = text@.subrange(lo as int, hi as int);
    let mut i: usize = 0;
    while i < pattern.len()
        invariant
            lo <= at,
            at + pattern.len() <= hi <= text.len(),
            i <= pattern.len(),
            window == text@.subrange(lo as int, hi as int),
            forall|k: int| 0 <= k < i ==> window[at - lo + k] == pattern@[k],
        decreases pattern.len() - i,
    {
        if text[at + i] != pattern[i] {
            proof {
                let piece = window.subrange(at - lo, at - lo + pattern.len());
                assert(piece[i as int] == window[at - lo + i]);
            }
            return false;
        }
        i = i + 1;
    }
    proof {
        assert(window.subrange(at - lo, at - lo + pattern.len()) =~= pattern@);
    }
    true
}

/// Finds the first occurrence of `pattern` within the window `text[lo..hi]`.
/// The position returned is a position of the whole text.
pub(crate) fn find_in(text: &Vec<char>, lo: usize, hi: usize, pattern: &Vec<char>) -> (found: Option<usize>)
    requires
        lo <= hi <= text.len(),
    ensures
        found matches Some(at) ==> lo <= at && at + pattern.len() <= hi && first_occurrence(
            text@.subrange(lo as int, hi as int),
            pattern@,
        ) == Some(at - lo),
        found is None ==> first_occurrence(text@.subrange(lo as int, hi as int), pattern@) is None,
        found is None ==> !occurs(text@.subrange(lo as int, hi as int), pattern@),
{
    let ghost window = text@.subrange(lo as int, hi as int);
    if pattern.len() > hi - lo {
        proof {
            lemma_first_occurrence_absent(window, pattern@);
        }
        return None;
    }
    let last: usize = hi - pattern.len();
    let mut at: usize = lo;
    loop
        invariant
            lo <= at <= last,
            last + pattern.len() == hi,
            hi <= text.len(),
            window == text@.subrange(lo as int, hi as int),
            forall|earlier: int| 0 <= earlier < at - lo ==> !occurs_at(window, pattern@, earlier),
        decreases last - at,
    {
        if stands_at(text, lo, hi, pattern, at) {
            proof {
                lemma_first_occurrence_found(window, pattern@, at - lo);
            }
            return Some(at);
        }
        if at == last {
            proof {
                lemma_first_occurrence_absent(window, pattern@);
            }
            return None;
        }
        at = at + 1;
    }
}

/// `text` with every occurrence of `old` replaced by `new`. Occurrences are
/// taken from left to right and do not overlap. An empty `old` occurs before
/// every character and at the end.
pub open spec fn replaced(text: Seq<char>, old: Seq<char>, new: Seq<char>) -> Seq<char>
    decreases text.len(),
{
    match first_occurrence(text, old) {
        None => text,
        Some(at) => {
            proof {
                lemma_first_occurrence(text, old);
            }
            if old.len() > 0 {
                text.take(at) + new + replaced(text.skip(at + old.len()), old, new)
            } else if text.len() > 0 {
                new + text.take(1) + replaced(text.skip(1), old, new)
            } else {
                new
            }
        },
    }
}

/// Replaces every occurrence of `old` in `text` by `new`.
pub fn replace_all(text: &str, old: &str, new: &str) -> (out: String)
    ensures
        out@ == replaced(text@, old@, new@),
{
    let chars = chars_of(text);
    let pattern = chars_of(old);
    let mut out = String::new();
    let mut from: usize = 0;
    proof {
        assert(chars@.skip(0) =~= chars@);
        assert(out@ + replaced(text@, old@, new@) =~= replaced(text@, old@, new@));
    }
    loop
        invariant
            from <= chars.len(),
            chars@ == text@,
            pattern@ == old@,
            out@ + replaced(chars@.skip(from as int), old@, new@) == replaced(text@, old@, new@),
        decreases chars.len() - from,
    {
        let ghost rest = chars@.skip(from as int);
        proof {
            assert(rest == chars@.subrange(from as int, chars.len() as int));
        }
        match find_in(&chars, from, chars.len(), &pattern) {
            None => {
                push_chars(&mut out, &chars, from, chars.len());
                return out;
            },
            Some(at) => {
                push_chars(&mut out, &chars, from, at);
                out.append(new);
                proof {
                    assert(rest.take(at - from) == chars@.subrange(from as int, at as int));
                }
                if pattern.len() > 0 {
                    proof {
                        assert(rest.skip(at - from + pattern.len()) == chars@.skip(
                            at + pattern.len(),
                        ));
                    }
                    from = at + pattern.len();
                } else if from < chars.len() {
                    proof {
                        lemma_first_occurrence(rest, old@);
                        assert(occurs_at(rest, old@, 0)) by {
                            assert(rest.subrange(0, 0) =~= old@);
                        }
                        assert(at == from);
                        assert(rest.take(1) == chars@.subrange(from as int, from + 1));
                        assert(rest.skip(1) == chars@.skip(from + 1));
                    }
                    push_chars(&mut out, &chars, from, from + 1);
                    from = from + 1;
                } else {
                    return out;
                }
            },
        }
    }
}

/// The texts of `parts` in order, with `separator` between neighbours.
pub open spec fn joined(parts: Seq<Seq<char>>, separator: Seq<char>) -> Seq<char>
    decreases parts.len(),
{
    if parts.len() == 0 {
        Seq::empty()
    } else if parts.len() == 1 {
        parts[0]
    } else {
        joined(parts.drop_last(), separator) + separator + parts.last()
    }
}

/// The character sequences that a list of strings holds.
pub open spec fn texts(strings: Seq<String>) -> Seq<Seq<char>> {
    strings.map_values(|s: String| s@)
}

/// Joins `parts` with `separator` between neighbours.
pub fn join(parts: &Vec<String>, separator: &str) -> (out: String)
    ensures
        out@ == joined(texts(parts@), separator@),
{
    let mut out = String::new();
    let mut i: usize = 0;
    while i < parts.len()
        invariant
            i <= parts.len(),
            out@ == joined(texts(parts@).take(i as int), separator@),
        decreases parts.len() - i,
    {
        let ghost before = texts(parts@).take(i as int);
        let ghost now = texts(parts@).take(i + 1);
        proof {
            assert(now.drop_last() == before);
            assert(now.last() == parts@[i as int]@);
        }
        if i > 0 {
            out.append(separator);
        }
        out.append(parts[i].as_str());
        i = i + 1;
    }
    proof {
        assert(texts(parts@).take(parts.len() as int) == texts(parts@));
    }
    out
}

/// `String::from_utf8` accepts exactly the byte strings that are well-formed
/// UTF-8, and yields the text that they encode.
#[verifier::external_body]
pub(crate) fn decode_text(bytes: Vec<u8>) -> (text: Option<String>)
    ensures
        text is Some <==> vstd::utf8::valid_utf8(bytes@),
        text matches Some(s) ==> s@ == vstd::utf8::decode_utf8(bytes@),
{
    String::from_utf8(bytes).ok()
}

} // verus!
