//! Searching and trimming text, over the characters of a string.

use vstd::prelude::*;

verus! {

/// Whether `pattern` stands in `text` at position `at`.
pub open spec fn occurs_at(text: Seq<char>, pattern: Seq<char>, at: int) -> bool {
    &&& 0 <= at
    &&& at + pattern.len() <= text.len()
    &&& text.subrange(at, at + pattern.len()) == pattern
}

/// Whether `pattern` stands somewhere in `text`.
pub open spec fn contains_text(text: Seq<char>, pattern: Seq<char>) -> bool {
    exists|at: int| occurs_at(text, pattern, at)
}

/// The first position at or after `from` at which `pattern` stands in
/// `text`, if it stands at any.
pub open spec fn first_occurrence(text: Seq<char>, pattern: Seq<char>, from: int) -> Option<int>
    decreases text.len() + 1 - from,
{
    if from < 0 || from + pattern.len() > text.len() {
        None
    } else if occurs_at(text, pattern, from) {
        Some(from)
    } else {
        first_occurrence(text, pattern, from + 1)
    }
}

/// Whether a character is white space as Unicode defines it.
pub open spec fn is_white_space(c: char) -> bool {
    let code = c as u32;
    ||| 0x09 <= code <= 0x0D
    ||| code == 0x20
    ||| code == 0x85
    ||| code == 0xA0
    ||| code == 0x1680
    ||| 0x2000 <= code <= 0x200A
    ||| code == 0x2028
    ||| code == 0x2029
    ||| code == 0x202F
    ||| code == 0x205F
    ||| code == 0x3000
}

/// `text` without the white space at its start and at its end.
pub open spec fn trimmed(text: Seq<char>) -> Seq<char>
    decreases text.len(),
{
    if text.len() > 0 && is_white_space(text[0]) {
        trimmed(text.skip(1))
    } else if text.len() > 0 && is_white_space(text.last()) {
        trimmed(text.drop_last())
    } else {
        text
    }
}

/// Whether two strings hold the same characters.
pub fn same_text(a: &str, b: &str) -> (same: bool)
    ensures
        same == (a@ == b@),
{
    String::from_str(a) == String::from_str(b)
}

/// Whether a character is white space.
pub fn char_is_white_space(c: char) -> (white: bool)
    ensures
        white == is_white_space(c),
{
    let code: u32 = c as u32;
    (0x09 <= code && code <= 0x0D) || code == 0x20 || code == 0x85 || code == 0xA0 || code
        == 0x1680 || (0x2000 <= code && code <= 0x200A) || code == 0x2028 || code == 0x2029
        || code == 0x202F || code == 0x205F || code == 0x3000
}

/// Looks for `pattern` in `text`, from position `from` on, and gives the
/// first position at which it stands.
pub fn find_text(text: &str, pattern: &str, from: usize) -> (found: Option<usize>)
    ensures
        match first_occurrence(text@, pattern@, from as int) {
            Some(at) => found == Some(at as usize) && at <= usize::MAX,
            None => found is None,
        },
{
    let n = text.unicode_len();
    let m = pattern.unicode_len();
    if m > n || from > n - m {
        return None;
    }
    let last: usize = n - m;
    let mut at: usize = from;
    loop
        invariant
            n == text@.len(),
            m == pattern@.len(),
            last == n - m,
            from <= at <= last,
            first_occurrence(text@, pattern@, from as int) == first_occurrence(
                text@,
                pattern@,
                at as int,
            ),
        decreases last - at,
    {
        if same_text(text.substring_char(at, at + m), pattern) {
            return Some(at);
        }
        if at == last {
            assert(first_occurrence(text@, pattern@, at + 1) is None);
            return None;
        }
        at = at + 1;
    }
}

/// Whether `pattern` stands somewhere in `text`.
pub fn text_contains(text: &str, pattern: &str) -> (found: bool)
    ensures
        found == contains_text(text@, pattern@),
{
    proof {
        lemma_first_occurrence(text@, pattern@, 0);
    }
    find_text(text, pattern, 0).is_some()
}

/// `text` without the white space at its start and at its end.
pub fn trim_text(text: &str) -> (out: String)
    ensures
        out@ == trimmed(text@),
{
    let n = text.unicode_len();
    let mut start: usize = 0;
    assert(text@.subrange(0, n as int) =~= text@);
    while start < n && char_is_white_space(text.get_char(start))
        invariant
            n == text@.len(),
            start <= n,
            trimmed(text@) == trimmed(text@.subrange(start as int, n as int)),
        decreases n - start,
    {
        assert(text@.subrange(start as int, n as int).skip(1) =~= text@.subrange(
            start + 1,
            n as int,
        ));
        start = start + 1;
    }
    let mut end: usize = n;
    while end > start && char_is_white_space(text.get_char(end - 1))
        invariant
            n == text@.len(),
            start <= end <= n,
            start < n ==> !is_white_space(text@[start as int]),
            start == n ==> end == n,
            trimmed(text@) == trimmed(text@.subrange(start as int, end as int)),
        decreases end,
    {
        assert(text@.subrange(start as int, end as int).drop_last() =~= text@.subrange(
            start as int,
            end - 1,
        ));
        end = end - 1;
    }
    assert(text@.subrange(start as int, end as int).len() > 0 ==> text@.subrange(
        start as int,
        end as int,
    )[0] == text@[start as int]);
    String::from_str(text.substring_char(start, end))
}

/// The first occurrence is an occurrence, nothing occurs before it, and
/// where there is none, nothing occurs at all.
pub proof fn lemma_first_occurrence(text: Seq<char>, pattern: Seq<char>, from: int)
    requires
        0 <= from,
    ensures
        match first_occurrence(text, pattern, from) {
            Some(at) => from <= at && occurs_at(text, pattern, at) && forall|k: int|
                from <= k < at ==> !occurs_at(text, pattern, k),
            None => forall|k: int| from <= k ==> !occurs_at(text, pattern, k),
        },
        from == 0 ==> (first_occurrence(text, pattern, from) is Some <==> contains_text(
            text,
            pattern,
        )),
    decreases text.len() + 1 - from,
{
    if from + pattern.len() <= text.len() && !occurs_at(text, pattern, from) {
        lemma_first_occurrence(text, pattern, from + 1);
    }
    if from == 0 && contains_text(text, pattern) {
        let at = choose|at: int| occurs_at(text, pattern, at);
        assert(occurs_at(text, pattern, at));
    }
}

} // verus!
