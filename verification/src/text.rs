//! Operations on text, stated over sequences of characters.

use crate::order::Ranked;
use vstd::prelude::*;
use vstd::std_specs::iter::IteratorSpec;

verus! {

/// `String::push`: appends the character `c` to the end of `text`.
pub assume_specification[ String::push ](text: &mut String, c: char)
    ensures
        final(text)@ == old(text)@.push(c),
;

/// The text that `text` holds, if any.
pub open spec fn optional_text(text: Option<String>) -> Option<Seq<char>> {
    match text {
        Some(text) => Some(text@),
        None => None,
    }
}

/// The order of texts: character by character, by code point, a proper prefix
/// before what it is a prefix of. It is the order in which the standard
/// library sorts strings.
pub open spec fn text_before(a: Seq<char>, b: Seq<char>) -> bool
    decreases a.len(),
{
    if b.len() == 0 {
        false
    } else if a.len() == 0 {
        true
    } else if a[0] == b[0] {
        text_before(a.drop_first(), b.drop_first())
    } else {
        a[0] < b[0]
    }
}

/// No text stands before itself.
pub proof fn lemma_text_before_irreflexive(a: Seq<char>)
    ensures
        !text_before(a, a),
    decreases a.len(),
{
    if a.len() > 0 {
        lemma_text_before_irreflexive(a.drop_first());
    }
}

/// The order of texts is transitive.
pub proof fn lemma_text_before_transitive(a: Seq<char>, b: Seq<char>, c: Seq<char>)
    requires
        text_before(a, b),
        text_before(b, c),
    ensures
        text_before(a, c),
    decreases a.len(),
{
    if a.len() > 0 && a[0] == b[0] && b[0] == c[0] {
        lemma_text_before_transitive(a.drop_first(), b.drop_first(), c.drop_first());
    }
}

/// Of two different texts one stands before the other.
pub proof fn lemma_text_before_connected(a: Seq<char>, b: Seq<char>)
    requires
        !text_before(a, b),
        !text_before(b, a),
    ensures
        a == b,
    decreases a.len(),
{
    if a.len() > 0 && b.len() > 0 {
        lemma_text_before_connected(a.drop_first(), b.drop_first());
        assert(a =~= seq![a[0]] + a.drop_first());
        assert(b =~= seq![b[0]] + b.drop_first());
    } else {
        assert(a =~= b);
    }
}

/// The order of texts is a strict total order: what its laws say of `a`, `b`
/// and `c`, in one place.
pub proof fn lemma_text_order(a: Seq<char>, b: Seq<char>, c: Seq<char>)
    ensures
        !text_before(a, a),
        text_before(a, b) ==> !text_before(b, a),
        text_before(a, b) && text_before(b, c) ==> text_before(a, c),
        text_before(a, b) || text_before(b, a) || a == b,
{
    lemma_text_before_irreflexive(a);
    if text_before(a, b) && text_before(b, a) {
        lemma_text_before_transitive(a, b, a);
    }
    if text_before(a, b) && text_before(b, c) {
        lemma_text_before_transitive(a, b, c);
    }
    if !text_before(a, b) && !text_before(b, a) {
        lemma_text_before_connected(a, b);
    }
}

/// The order of three texts in a row: by the first, among equal firsts by the
/// second, among equal seconds by the third.
pub open spec fn texts_before(
    a: (Seq<char>, Seq<char>, Seq<char>),
    b: (Seq<char>, Seq<char>, Seq<char>),
) -> bool {
    if a.0 != b.0 {
        text_before(a.0, b.0)
    } else if a.1 != b.1 {
        text_before(a.1, b.1)
    } else {
        text_before(a.2, b.2)
    }
}

/// The order of three texts in a row is a strict total order.
pub proof fn lemma_texts_order(
    a: (Seq<char>, Seq<char>, Seq<char>),
    b: (Seq<char>, Seq<char>, Seq<char>),
    c: (Seq<char>, Seq<char>, Seq<char>),
)
    ensures
        !texts_before(a, a),
        texts_before(a, b) ==> !texts_before(b, a),
        texts_before(a, b) && texts_before(b, c) ==> texts_before(a, c),
        texts_before(a, b) || texts_before(b, a) || a == b,
        !texts_before(b, a) && !texts_before(c, b) ==> !texts_before(c, a),
{
    lemma_text_order(a.0, b.0, c.0);
    lemma_text_order(b.0, c.0, a.0);
    lemma_text_order(c.0, a.0, b.0);
    lemma_text_order(a.1, b.1, c.1);
    lemma_text_order(b.1, c.1, a.1);
    lemma_text_order(c.1, a.1, b.1);
    lemma_text_order(a.2, b.2, c.2);
    lemma_text_order(b.2, c.2, a.2);
    lemma_text_order(c.2, a.2, b.2);
}

/// The characters of `text`, in order.
pub fn to_chars(text: &str) -> (chars: Vec<char>)
    ensures
        chars@ == text@,
{
    let mut chars: Vec<char> = Vec::new();
    for c in it: text.chars()
        invariant
            chars@ == it.seq().take(it.index() as int),
            it.seq() == text@,
    {
        chars.push(c);
    }
    chars
}

/// Whether `a` stands before `b` in the order of texts.
pub fn text_precedes(a: &str, b: &str) -> (before: bool)
    ensures
        before == text_before(a@, b@),
{
    broadcast use vstd::string::group_string_axioms;

    let mut rest_of_a = a.chars();
    let mut rest_of_b = b.chars();
    loop
        invariant
            rest_of_b.decrease() is Some,
            text_before(a@, b@) == text_before(rest_of_a.remaining(), rest_of_b.remaining()),
        decreases rest_of_b.decrease()->0,
    {
        let next_of_b = match rest_of_b.next() {
            Some(c) => c,
            None => {
                return false;
            },
        };
        let next_of_a = match rest_of_a.next() {
            Some(c) => c,
            None => {
                return true;
            },
        };
        if next_of_a != next_of_b {
            return next_of_a < next_of_b;
        }
    }
}

/// Whether `a` and `b` are the same text.
pub fn same_text(a: &str, b: &str) -> (same: bool)
    ensures
        same == (a@ == b@),
{
    broadcast use vstd::string::group_string_axioms;

    let mut rest_of_a = a.chars();
    let mut rest_of_b = b.chars();
    loop
        invariant
            rest_of_b.decrease() is Some,
            (a@ == b@) == (rest_of_a.remaining() == rest_of_b.remaining()),
        decreases rest_of_b.decrease()->0,
    {
        let ghost left_of_a = rest_of_a.remaining();
        let ghost left_of_b = rest_of_b.remaining();
        match rest_of_b.next() {
            Some(next_of_b) => match rest_of_a.next() {
                Some(next_of_a) => {
                    if next_of_a != next_of_b {
                        assert(left_of_a[0] != left_of_b[0]);
                        return false;
                    }
                    assert(left_of_a =~= seq![next_of_a] + rest_of_a.remaining());
                    assert(left_of_b =~= seq![next_of_b] + rest_of_b.remaining());
                    assert((left_of_a == left_of_b) == (rest_of_a.remaining()
                        == rest_of_b.remaining())) by {
                        if left_of_a == left_of_b {
                            assert(rest_of_a.remaining() =~= left_of_a.drop_first());
                            assert(rest_of_b.remaining() =~= left_of_b.drop_first());
                        }
                    }
                },
                None => {
                    assert(left_of_a.len() != left_of_b.len());
                    return false;
                },
            },
            None => {
                let at_end = rest_of_a.next().is_none();
                assert(at_end == (left_of_a.len() == 0));
                assert(left_of_b.len() == 0);
                assert(at_end == (left_of_a =~= left_of_b));
                return at_end;
            },
        }
    }
}

/// In the order of texts.
impl Ranked for String {
    open spec fn before(&self, other: &Self) -> bool {
        text_before(self@, other@)
    }

    proof fn lemma_before_irreflexive(a: &Self) {
        lemma_text_before_irreflexive(a@);
    }

    proof fn lemma_before_transitive(a: &Self, b: &Self, c: &Self) {
        lemma_text_before_transitive(a@, b@, c@);
    }

    proof fn lemma_not_after_transitive(a: &Self, b: &Self, c: &Self) {
        lemma_text_order(a@, b@, c@);
        lemma_text_order(c@, a@, b@);
    }

    fn precedes(&self, other: &Self) -> (before: bool) {
        text_precedes(self.as_str(), other.as_str())
    }
}

/// Whether `needle` stands at the place `at` of `haystack`.
pub open spec fn occurs_at(haystack: Seq<char>, needle: Seq<char>, at: int) -> bool {
    0 <= at && at + needle.len() <= haystack.len() && haystack.subrange(at, at + needle.len())
        == needle
}

/// Whether `needle` occurs in `haystack`. The empty text occurs in every
/// text.
pub open spec fn text_contains(haystack: Seq<char>, needle: Seq<char>) -> bool {
    exists|at: int| occurs_at(haystack, needle, at)
}

/// Whether the characters `needle` stand at the place `at` of `haystack`.
fn chars_occur_at(haystack: &Vec<char>, needle: &Vec<char>, at: usize) -> (occurs: bool)
    requires
        at + needle.len() <= haystack.len(),
    ensures
        occurs == occurs_at(haystack@, needle@, at as int),
{
    let mut i: usize = 0;
    while i < needle.len()
        invariant
            i <= needle.len(),
            at + needle.len() <= haystack.len(),
            forall|k: int| 0 <= k < i ==> haystack@[at + k] == needle@[k],
        decreases needle.len() - i,
    {
        if haystack[at + i] != needle[i] {
            assert(haystack@.subrange(at as int, at + needle.len())[i as int]
                != needle@[i as int]);
            return false;
        }
        i += 1;
    }
    assert(haystack@.subrange(at as int, at + needle.len()) =~= needle@);
    true
}

/// Whether `needle` occurs in `haystack`.
pub fn contains_text(haystack: &str, needle: &str) -> (contains: bool)
    ensures
        contains == text_contains(haystack@, needle@),
{
    let hay = to_chars(haystack);
    let sought = to_chars(needle);
    if sought.len() > hay.len() {
        return false;
    }
    let last = hay.len() - sought.len();
    let mut at: usize = 0;
    loop
        invariant
            at <= last,
            last == hay.len() - sought.len(),
            hay@ == haystack@,
            sought@ == needle@,
            forall|k: int| 0 <= k < at ==> !occurs_at(hay@, sought@, k),
        decreases last - at,
    {
        if chars_occur_at(&hay, &sought, at) {
            return true;
        }
        if at == last {
            return false;
        }
        at += 1;
    }
}

} // verus!
