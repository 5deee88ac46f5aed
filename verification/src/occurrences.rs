//! Counting the places at which a pattern stands in a text.

use vstd::prelude::*;

verus! {

/// Whether `pattern` stands in `text` at index `i`.
pub open spec fn occurs_at(text: Seq<char>, pattern: Seq<char>, i: int) -> bool {
    &&& 0 <= i
    &&& i + pattern.len() <= text.len()
    &&& text.subrange(i, i + pattern.len()) == pattern
}

/// The number of indices from `i` on at which `pattern` stands in `text`.
pub open spec fn count_from(text: Seq<char>, pattern: Seq<char>, i: int) -> nat
    decreases text.len() - i,
{
    if i >= text.len() {
        0
    } else if occurs_at(text, pattern, i) {
        1 + count_from(text, pattern, i + 1)
    } else {
        count_from(text, pattern, i + 1)
    }
}

/// The number of indices at which `pattern` stands in `text`; occurrences that
/// overlap count each.
pub open spec fn count(text: Seq<char>, pattern: Seq<char>) -> nat {
    count_from(text, pattern, 0)
}

/// Every `<` of the text has a `>` somewhere behind it.
pub open spec fn brackets_closed(text: Seq<char>) -> bool {
    forall|i: int|
        0 <= i < text.len() && #[trigger] text[i] == '<' ==> exists|j: int|
            i < j < text.len() && #[trigger] text[j] == '>'
}

/// A pattern that can only stand where a tag starts: it begins with `<` and
/// holds `>` at most as its last character.
pub open spec fn is_tag_pattern(pattern: Seq<char>) -> bool {
    &&& pattern.len() >= 2
    &&& pattern[0] == '<'
    &&& forall|k: int| 1 <= k < pattern.len() - 1 ==> #[trigger] pattern[k] != '>'
}

/// A pattern that stands nowhere from `i` on is counted zero times from there.
pub proof fn lemma_count_from_none(text: Seq<char>, pattern: Seq<char>, i: int)
    requires
        forall|k: int| i <= k < text.len() ==> !occurs_at(text, pattern, k),
    ensures
        count_from(text, pattern, i) == 0,
    decreases text.len() - i,
{
    if i < text.len() {
        lemma_count_from_none(text, pattern, i + 1);
    }
}

/// A pattern that is counted zero times from `i` on stands nowhere from there.
pub proof fn lemma_count_from_zero(text: Seq<char>, pattern: Seq<char>, i: int)
    requires
        count_from(text, pattern, i) == 0,
    ensures
        forall|k: int| i <= k < text.len() ==> !occurs_at(text, pattern, k),
    decreases text.len() - i,
{
    if i < text.len() {
        lemma_count_from_zero(text, pattern, i + 1);
    }
}

/// Behind any text, a pattern stands in what follows where it stands there.
pub proof fn lemma_occurs_in_suffix(a: Seq<char>, b: Seq<char>, pattern: Seq<char>, i: int)
    requires
        i >= a.len(),
    ensures
        occurs_at(a + b, pattern, i) == occurs_at(b, pattern, i - a.len()),
{
    let n = pattern.len() as int;
    if i + n <= (a + b).len() {
        assert((a + b).subrange(i, i + n) =~= b.subrange(i - a.len(), i - a.len() + n));
    }
}

/// A pattern that begins with `<` stands nowhere in a text without `<`.
pub proof fn lemma_count_without_bracket(text: Seq<char>, pattern: Seq<char>)
    requires
        pattern.len() > 0,
        pattern[0] == '<',
        !text.contains('<'),
    ensures
        count(text, pattern) == 0,
{
    assert forall|k: int| 0 <= k < text.len() implies !occurs_at(text, pattern, k) by {
        if occurs_at(text, pattern, k) {
            assert(text.subrange(k, k + pattern.len())[0] == text[k]);
            assert(text.contains(text[k]));
        }
    }
    lemma_count_from_none(text, pattern, 0);
}

/// In a text whose only `<` is its first character, a pattern that begins
/// with `<` is counted once if the text begins with it, and else not at all.
pub proof fn lemma_count_single_bracket(text: Seq<char>, pattern: Seq<char>)
    requires
        pattern.len() > 0,
        pattern[0] == '<',
        forall|k: int| 1 <= k < text.len() ==> text[k] != '<',
    ensures
        count(text, pattern) == if occurs_at(text, pattern, 0) {
            1nat
        } else {
            0nat
        },
{
    assert forall|k: int| 1 <= k < text.len() implies !occurs_at(text, pattern, k) by {
        if occurs_at(text, pattern, k) {
            assert(text.subrange(k, k + pattern.len())[0] == text[k]);
        }
    }
    lemma_count_from_none(text, pattern, 1);
    if text.len() == 0 {
        assert(!occurs_at(text, pattern, 0));
    }
}

/// Behind a text whose brackets are closed, a tag pattern stands where it
/// stands in the text itself or in what follows, and nowhere across the seam.
pub proof fn lemma_occurs_in_concat(a: Seq<char>, b: Seq<char>, pattern: Seq<char>, i: int)
    requires
        brackets_closed(a),
        is_tag_pattern(pattern),
    ensures
        i < a.len() ==> occurs_at(a + b, pattern, i) == occurs_at(a, pattern, i),
        i >= a.len() ==> occurs_at(a + b, pattern, i) == occurs_at(b, pattern, i - a.len()),
{
    let n = pattern.len() as int;
    if i >= a.len() {
        if i + n <= (a + b).len() {
            assert((a + b).subrange(i, i + n) =~= b.subrange(i - a.len(), i - a.len() + n));
        }
    } else if 0 <= i {
        if i + n <= a.len() {
            assert((a + b).subrange(i, i + n) =~= a.subrange(i, i + n));
        } else if occurs_at(a + b, pattern, i) {
            assert((a + b).subrange(i, i + n)[0] == a[i]);
            let j = choose|j: int| i < j < a.len() && #[trigger] a[j] == '>';
            assert((a + b).subrange(i, i + n)[j - i] == a[j]);
            assert(pattern[j - i] != '>');
        }
    }
}

/// The same, counted from an index in the second part on.
proof fn lemma_count_from_second(a: Seq<char>, b: Seq<char>, pattern: Seq<char>, i: int)
    requires
        brackets_closed(a),
        is_tag_pattern(pattern),
        0 <= i,
    ensures
        count_from(a + b, pattern, a.len() + i) == count_from(b, pattern, i),
    decreases b.len() - i,
{
    if i < b.len() {
        lemma_occurs_in_concat(a, b, pattern, a.len() + i);
        lemma_count_from_second(a, b, pattern, i + 1);
    }
}

/// The same, counted from an index in the first part on.
proof fn lemma_count_from_first(a: Seq<char>, b: Seq<char>, pattern: Seq<char>, i: int)
    requires
        brackets_closed(a),
        is_tag_pattern(pattern),
        0 <= i <= a.len(),
    ensures
        count_from(a + b, pattern, i) == count_from(a, pattern, i) + count(b, pattern),
    decreases a.len() - i,
{
    if i < a.len() {
        lemma_occurs_in_concat(a, b, pattern, i);
        lemma_count_from_first(a, b, pattern, i + 1);
    } else {
        lemma_count_from_second(a, b, pattern, 0);
    }
}

/// Behind a text whose brackets are closed, the occurrences of a tag pattern
/// add up.
pub proof fn lemma_count_concat(a: Seq<char>, b: Seq<char>, pattern: Seq<char>)
    requires
        brackets_closed(a),
        is_tag_pattern(pattern),
    ensures
        count(a + b, pattern) == count(a, pattern) + count(b, pattern),
{
    lemma_count_from_first(a, b, pattern, 0);
}

/// Two texts whose brackets are closed make one such text.
pub proof fn lemma_brackets_closed_concat(a: Seq<char>, b: Seq<char>)
    requires
        brackets_closed(a),
        brackets_closed(b),
    ensures
        brackets_closed(a + b),
{
    let t = a + b;
    assert forall|i: int| 0 <= i < t.len() && #[trigger] t[i] == '<' implies exists|j: int|
        i < j < t.len() && #[trigger] t[j] == '>' by {
        if i < a.len() {
            assert(a[i] == '<');
            let j = choose|j: int| i < j < a.len() && #[trigger] a[j] == '>';
            assert(t[j] == '>');
        } else {
            assert(b[i - a.len()] == '<');
            let j = choose|j: int| i - a.len() < j < b.len() && #[trigger] b[j] == '>';
            assert(t[j + a.len()] == '>');
        }
    }
}

/// A text that ends with `>` has its brackets closed.
pub proof fn lemma_brackets_closed_by_last(text: Seq<char>)
    requires
        text.len() > 0,
        text.last() == '>',
    ensures
        brackets_closed(text),
{
    assert forall|i: int| 0 <= i < text.len() && #[trigger] text[i] == '<' implies exists|j: int|
        i < j < text.len() && #[trigger] text[j] == '>' by {
        assert(text[text.len() - 1] == '>');
    }
}

/// A text without `<` has its brackets closed.
pub proof fn lemma_brackets_closed_without_bracket(text: Seq<char>)
    requires
        !text.contains('<'),
    ensures
        brackets_closed(text),
{
    assert forall|i: int| 0 <= i < text.len() && #[trigger] text[i] == '<' implies exists|j: int|
        i < j < text.len() && #[trigger] text[j] == '>' by {
        assert(text.contains(text[i]));
    }
}

} // verus!
