//! Comparisons and cuts on text, by characters.

use vstd::prelude::*;
use vstd::std_specs::iter::IteratorSpec;
use vstd::utf8::{decode_utf8, valid_utf8};

verus! {

/// Calls `std::str::from_utf8` and copies what it gives: the text that the
/// bytes encode, where they are valid UTF-8, and nothing where they are
/// not.
#[verifier::external_body]
pub(crate) fn utf8_text(bytes: &Vec<u8>) -> (text: Option<String>)
    ensures
        text is Some == valid_utf8(bytes@),
        text is Some ==> text->Some_0@ == decode_utf8(bytes@),
{
    std::str::from_utf8(bytes).ok().map(|text| text.to_string())
}

/// A text that may be missing, as characters.
pub open spec fn text_of(text: Option<String>) -> Option<Seq<char>> {
    match text {
        Some(given) => Some(given@),
        None => None,
    }
}

/// Whether `text` begins with `prefix`.
pub open spec fn has_prefix(text: Seq<char>, prefix: Seq<char>) -> bool {
    prefix.len() <= text.len() && text.subrange(0, prefix.len() as int) == prefix
}

/// The position of the first `mark` in `text` at or after `from`, or the
/// length of `text` where there is none.
pub open spec fn first_at(text: Seq<char>, mark: char, from: int) -> int
    decreases text.len() - from,
{
    if from < 0 || from >= text.len() {
        text.len() as int
    } else if text[from] == mark {
        from
    } else {
        first_at(text, mark, from + 1)
    }
}

/// `first_at` stays between its start and the end of the text, and no mark
/// stands before the position it gives.
pub proof fn lemma_first_at(text: Seq<char>, mark: char, from: int)
    requires
        0 <= from <= text.len(),
    ensures
        from <= first_at(text, mark, from) <= text.len(),
        first_at(text, mark, from) < text.len() ==> text[first_at(text, mark, from)] == mark,
        forall|i: int| from <= i < first_at(text, mark, from) ==> text[i] != mark,
    decreases text.len() - from,
{
    if from < text.len() && text[from] != mark {
        lemma_first_at(text, mark, from + 1);
    }
}

/// The characters of a string slice, in order.
pub fn chars_of(text: &str) -> (chars: Vec<char>)
    ensures
        chars@ == text@,
{
    broadcast use {vstd::string::axiom_spec_iter, vstd::string::next_postcondition};

    let mut chars: Vec<char> = Vec::new();
    let mut rest = text.chars();
    loop
        invariant
            chars@ + rest.remaining() == text@,
        decreases text@.len() - chars@.len(),
    {
        let ghost before = rest.remaining();
        match rest.next() {
            Some(c) => {
                chars.push(c);
                assert(chars@ + rest.remaining() =~= text@) by {
                    assert(before =~= seq![c] + before.drop_first());
                }
            },
            None => {
                assert(chars@ =~= text@);
                return chars;
            },
        }
    }
}

/// Whether two string slices hold the same characters.
pub fn str_eq(left: &str, right: &str) -> (same: bool)
    ensures
        same == (left@ == right@),
{
    broadcast use {vstd::string::axiom_spec_iter, vstd::string::next_postcondition};

    let mut a = left.chars();
    let mut b = right.chars();
    let ghost mut seen: int = 0;
    loop
        invariant
            0 <= seen <= left@.len(),
            seen <= right@.len(),
            a.remaining() == left@.subrange(seen, left@.len() as int),
            b.remaining() == right@.subrange(seen, right@.len() as int),
            left@.subrange(0, seen) == right@.subrange(0, seen),
        decreases left@.len() - seen,
    {
        let x = a.next();
        let y = b.next();
        match (x, y) {
            (Some(c), Some(d)) => {
                if c != d {
                    assert(left@[seen] != right@[seen]);
                    return false;
                }
                proof {
                    assert(left@.subrange(0, seen + 1) =~= left@.subrange(0, seen).push(c));
                    assert(right@.subrange(0, seen + 1) =~= right@.subrange(0, seen).push(d));
                    assert(a.remaining() =~= left@.subrange(seen + 1, left@.len() as int));
                    assert(b.remaining() =~= right@.subrange(seen + 1, right@.len() as int));
                    seen = seen + 1;
                }
            },
            (None, None) => {
                assert(left@ =~= left@.subrange(0, seen));
                assert(right@ =~= right@.subrange(0, seen));
                return true;
            },
            _ => {
                assert(left@.len() != right@.len());
                return false;
            },
        }
    }
}

/// Whether `text` begins with `prefix`.
pub fn starts_with(text: &str, prefix: &str) -> (found: bool)
    ensures
        found == has_prefix(text@, prefix@),
{
    broadcast use {vstd::string::axiom_spec_iter, vstd::string::next_postcondition};

    let mut a = text.chars();
    let mut b = prefix.chars();
    let ghost mut seen: int = 0;
    loop
        invariant
            0 <= seen <= text@.len(),
            seen <= prefix@.len(),
            a.remaining() == text@.subrange(seen, text@.len() as int),
            b.remaining() == prefix@.subrange(seen, prefix@.len() as int),
            text@.subrange(0, seen) == prefix@.subrange(0, seen),
        decreases prefix@.len() - seen,
    {
        match b.next() {
            None => {
                assert(prefix@ =~= prefix@.subrange(0, seen));
                return true;
            },
            Some(d) => {
                match a.next() {
                    None => {
                        return false;
                    },
                    Some(c) => {
                        if c != d {
                            assert(prefix@.len() <= text@.len() ==> text@.subrange(
                                0,
                                prefix@.len() as int,
                            )[seen] == text@[seen]);
                            return false;
                        }
                        proof {
                            assert(text@.subrange(0, seen + 1) =~= text@.subrange(0, seen).push(
                                c,
                            ));
                            assert(prefix@.subrange(0, seen + 1) =~= prefix@.subrange(0, seen).push(
                                d,
                            ));
                            assert(a.remaining() =~= text@.subrange(seen + 1, text@.len() as int));
                            assert(b.remaining() =~= prefix@.subrange(
                                seen + 1,
                                prefix@.len() as int,
                            ));
                            seen = seen + 1;
                        }
                    },
                }
            },
        }
    }
}

/// Whether `text` ends with `suffix`.
pub open spec fn has_suffix(text: Seq<char>, suffix: Seq<char>) -> bool {
    suffix.len() <= text.len() && text.subrange(text.len() - suffix.len(), text.len() as int)
        == suffix
}

/// Whether `chars` ends with `suffix`.
pub fn ends_with(chars: &Vec<char>, suffix: &Vec<char>) -> (found: bool)
    ensures
        found == has_suffix(chars@, suffix@),
{
    if suffix.len() > chars.len() {
        return false;
    }
    let start = chars.len() - suffix.len();
    let mut i: usize = 0;
    while i < suffix.len()
        invariant
            i <= suffix.len(),
            start + suffix.len() == chars.len(),
            forall|k: int| 0 <= k < i ==> chars@[start + k] == suffix@[k],
        decreases suffix.len() - i,
    {
        if chars[start + i] != suffix[i] {
            assert(chars@.subrange(start as int, chars@.len() as int)[i as int] != suffix@[i as int]);
            return false;
        }
        i = i + 1;
    }
    assert(chars@.subrange(start as int, chars@.len() as int) =~= suffix@);
    true
}

/// The position of the first `mark` in `chars` at or after `from`, or the
/// length of `chars` where there is none.
pub fn find_from(chars: &Vec<char>, mark: char, from: usize) -> (at: usize)
    requires
        from <= chars.len(),
    ensures
        at == first_at(chars@, mark, from as int),
        from <= at <= chars.len(),
{
    let mut at: usize = from;
    while at < chars.len() && chars[at] != mark
        invariant
            from <= at <= chars.len(),
            first_at(chars@, mark, from as int) == first_at(chars@, mark, at as int),
        decreases chars.len() - at,
    {
        at = at + 1;
    }
    at
}

} // verus!
