//! The three escaping contexts: element text, double-quoted attribute values
//! and script bodies.
//!
//! The spec functions say what each context does to a string; the executable
//! functions hand the work to the `html_escape` crate.

use std::borrow::Cow;
use vstd::prelude::*;

verus! {

/// What a character of element text is written as.
pub open spec fn text_entity(c: char) -> Seq<char> {
    if c == '&' {
        seq!['&', 'a', 'm', 'p', ';']
    } else if c == '<' {
        seq!['&', 'l', 't', ';']
    } else if c == '>' {
        seq!['&', 'g', 't', ';']
    } else {
        seq![c]
    }
}

/// Element text with `&`, `<` and `>` replaced by their entities.
pub open spec fn escape_text(s: Seq<char>) -> Seq<char>
    decreases s.len(),
{
    if s.len() == 0 {
        Seq::empty()
    } else {
        text_entity(s[0]) + escape_text(s.drop_first())
    }
}

/// Escapes `text` for use between an opening and a closing tag.
///
/// Trusted: calls `html_escape::encode_text`, which replaces every `&`, `<`
/// and `>` by `&amp;`, `&lt;` and `&gt;` and copies every other character.
#[verifier::external_body]
pub(crate) fn encode_text<'a>(text: &'a str) -> (out: Cow<'a, str>)
    ensures
        out@ == escape_text(text@),
{
    html_escape::encode_text(text)
}

/// What a character of a double-quoted attribute value is written as.
pub open spec fn attribute_entity(c: char) -> Seq<char> {
    if c == '"' {
        seq!['&', 'q', 'u', 'o', 't', ';']
    } else {
        text_entity(c)
    }
}

/// An attribute value with `&`, `<`, `>` and `"` replaced by their entities.
pub open spec fn escape_attribute(s: Seq<char>) -> Seq<char>
    decreases s.len(),
{
    if s.len() == 0 {
        Seq::empty()
    } else {
        attribute_entity(s[0]) + escape_attribute(s.drop_first())
    }
}

/// Escapes `value` for use between the double quotes of an attribute.
///
/// Trusted: calls `html_escape::encode_double_quoted_attribute`, which
/// replaces every `&`, `<`, `>` and `"` by `&amp;`, `&lt;`, `&gt;` and
/// `&quot;` and copies every other character.
#[verifier::external_body]
pub(crate) fn encode_double_quoted_attribute<'a>(value: &'a str) -> (out: Cow<'a, str>)
    ensures
        out@ == escape_attribute(value@),
{
    html_escape::encode_double_quoted_attribute(value)
}

/// Whether `s` begins with `prefix`.
pub open spec fn begins_with(s: Seq<char>, prefix: Seq<char>) -> bool {
    prefix.len() <= s.len() && s.subrange(0, prefix.len() as int) == prefix
}

/// What a reader of markup makes of escaped text: each of the entities
/// `&amp;`, `&lt;`, `&gt;` and `&quot;` stands for its character, and every
/// other character for itself.
pub open spec fn unescape(s: Seq<char>) -> Seq<char>
    decreases s.len(),
{
    if s.len() == 0 {
        Seq::empty()
    } else if begins_with(s, text_entity('&')) {
        seq!['&'] + unescape(s.skip(5))
    } else if begins_with(s, text_entity('<')) {
        seq!['<'] + unescape(s.skip(4))
    } else if begins_with(s, text_entity('>')) {
        seq!['>'] + unescape(s.skip(4))
    } else if begins_with(s, attribute_entity('"')) {
        seq!['"'] + unescape(s.skip(6))
    } else {
        seq![s[0]] + unescape(s.drop_first())
    }
}

/// A text that begins with an entity begins with `&` and the letter by which
/// the four entities differ.
proof fn lemma_entity_start(s: Seq<char>)
    ensures
        begins_with(s, text_entity('&')) ==> s[0] == '&' && s[1] == 'a',
        begins_with(s, text_entity('<')) ==> s[0] == '&' && s[1] == 'l',
        begins_with(s, text_entity('>')) ==> s[0] == '&' && s[1] == 'g',
        begins_with(s, attribute_entity('"')) ==> s[0] == '&' && s[1] == 'q',
{
    if begins_with(s, text_entity('&')) {
        assert(s.subrange(0, 5)[0] == s[0] && s.subrange(0, 5)[1] == s[1]);
    }
    if begins_with(s, text_entity('<')) {
        assert(s.subrange(0, 4)[0] == s[0] && s.subrange(0, 4)[1] == s[1]);
    }
    if begins_with(s, text_entity('>')) {
        assert(s.subrange(0, 4)[0] == s[0] && s.subrange(0, 4)[1] == s[1]);
    }
    if begins_with(s, attribute_entity('"')) {
        assert(s.subrange(0, 6)[0] == s[0] && s.subrange(0, 6)[1] == s[1]);
    }
}

/// Reading what was written for one character of an attribute value, and then
/// the rest, gives that character and what the rest reads as.
proof fn lemma_unescape_attribute_entity(c: char, rest: Seq<char>)
    ensures
        unescape(attribute_entity(c) + rest) == seq![c] + unescape(rest),
{
    let e = attribute_entity(c);
    let s = e + rest;
    lemma_entity_start(s);
    assert(s.subrange(0, e.len() as int) =~= e);
    assert(s.skip(e.len() as int) =~= rest);
    assert(s.drop_first() =~= s.skip(1));
}

/// Reading what was written for one character of text, and then the rest,
/// gives that character and what the rest reads as.
proof fn lemma_unescape_text_entity(c: char, rest: Seq<char>)
    ensures
        unescape(text_entity(c) + rest) == seq![c] + unescape(rest),
{
    if c == '"' {
        let s = text_entity(c) + rest;
        lemma_entity_start(s);
        assert(s.drop_first() =~= rest);
    } else {
        lemma_unescape_attribute_entity(c, rest);
    }
}

/// Escaped text reads back as the text it was made from, and holds neither
/// `<` nor `>`.
pub proof fn lemma_escape_text_round_trip(text: Seq<char>)
    ensures
        unescape(escape_text(text)) == text,
        !escape_text(text).contains('<'),
        !escape_text(text).contains('>'),
    decreases text.len(),
{
    if text.len() == 0 {
        assert(unescape(escape_text(text)) =~= text);
    } else {
        let e = text_entity(text[0]);
        let rest = escape_text(text.drop_first());
        lemma_escape_text_round_trip(text.drop_first());
        lemma_unescape_text_entity(text[0], rest);
        assert(seq![text[0]] + text.drop_first() =~= text);
        assert forall|i: int| 0 <= i < escape_text(text).len() implies escape_text(text)[i] != '<'
            && escape_text(text)[i] != '>' by {
            if i >= e.len() {
                assert(rest.contains(rest[i - e.len()]));
            }
        }
    }
}

/// An escaped attribute value reads back as the value it was made from, and
/// holds none of `<`, `>` and `"`.
pub proof fn lemma_escape_attribute_round_trip(value: Seq<char>)
    ensures
        unescape(escape_attribute(value)) == value,
        !escape_attribute(value).contains('<'),
        !escape_attribute(value).contains('>'),
        !escape_attribute(value).contains('"'),
    decreases value.len(),
{
    if value.len() == 0 {
        assert(unescape(escape_attribute(value)) =~= value);
    } else {
        let rest = escape_attribute(value.drop_first());
        lemma_escape_attribute_round_trip(value.drop_first());
        lemma_unescape_attribute_entity(value[0], rest);
        assert(seq![value[0]] + value.drop_first() =~= value);
        let e = attribute_entity(value[0]);
        assert forall|i: int| 0 <= i < escape_attribute(value).len() implies escape_attribute(
            value,
        )[i] != '<' && escape_attribute(value)[i] != '>' && escape_attribute(value)[i] != '"' by {
            if i >= e.len() {
                assert(rest.contains(rest[i - e.len()]));
            }
        }
    }
}

/// Whether `c` is `a` or its upper-case form `b`.
pub open spec fn is_letter(c: char, a: char, b: char) -> bool {
    c == a || c == b
}

/// The characters that end the name of a tag: `/`, `>`, the ASCII controls
/// from tab to carriage return and from `U+001C` to the space.
pub open spec fn ends_tag_name(c: char) -> bool {
    ||| c == '/'
    ||| c == '>'
    ||| 0x09 <= c as u32 <= 0x0D
    ||| 0x1C <= c as u32 <= 0x20
}

/// Whether a closing script tag starts at `s[i]`: `</script` in any case,
/// followed by a character that ends the tag's name.
pub open spec fn closes_script_at(s: Seq<char>, i: int) -> bool {
    &&& 0 <= i
    &&& i + 8 < s.len()
    &&& s[i] == '<'
    &&& s[i + 1] == '/'
    &&& is_letter(s[i + 2], 's', 'S')
    &&& is_letter(s[i + 3], 'c', 'C')
    &&& is_letter(s[i + 4], 'r', 'R')
    &&& is_letter(s[i + 5], 'i', 'I')
    &&& is_letter(s[i + 6], 'p', 'P')
    &&& is_letter(s[i + 7], 't', 'T')
    &&& ends_tag_name(s[i + 8])
}

/// Whether a comment opens at `s[i]`: `<!--`.
pub open spec fn opens_comment_at(s: Seq<char>, i: int) -> bool {
    &&& 0 <= i
    &&& i + 3 < s.len()
    &&& s[i] == '<'
    &&& s[i + 1] == '!'
    &&& s[i + 2] == '-'
    &&& s[i + 3] == '-'
}

/// The escaped form of `s` from index `i` on: a backslash goes behind every
/// `<` that starts a closing script tag or opens a comment.
pub open spec fn escape_script_from(s: Seq<char>, i: int) -> Seq<char>
    decreases s.len() - i,
{
    if i < 0 || i >= s.len() {
        Seq::empty()
    } else if closes_script_at(s, i) || opens_comment_at(s, i) {
        seq![s[i], '\\'] + escape_script_from(s, i + 1)
    } else {
        seq![s[i]] + escape_script_from(s, i + 1)
    }
}

/// Script source in which no closing script tag and no comment opening is
/// left as it was.
pub open spec fn escape_script(s: Seq<char>) -> Seq<char> {
    escape_script_from(s, 0)
}

/// Where the escaped form holds no `<`, it is the source itself.
proof fn lemma_escape_script_plain_prefix(s: Seq<char>, i: int, n: int)
    requires
        0 <= i,
        0 <= n <= escape_script_from(s, i).len(),
        forall|m: int| 0 <= m < n ==> escape_script_from(s, i)[m] != '<',
    ensures
        n > 0 ==> i + n <= s.len(),
        forall|m: int| 0 <= m < n ==> escape_script_from(s, i)[m] == s[i + m],
    decreases n,
{
    if n > 0 {
        let out = escape_script_from(s, i);
        let next = escape_script_from(s, i + 1);
        assert(i < s.len());
        assert(out[0] == s[i]);
        assert(out =~= seq![s[i]] + next);
        assert forall|m: int| 0 <= m < n - 1 implies next[m] != '<' by {
            assert(next[m] == out[m + 1]);
        }
        lemma_escape_script_plain_prefix(s, i + 1, n - 1);
        assert forall|m: int| 0 <= m < n implies out[m] == s[i + m] by {
            if m > 0 {
                assert(out[m] == next[m - 1]);
            }
        }
    }
}

/// From any index on, the escaped form holds no closing script tag and no
/// comment opening.
proof fn lemma_escape_script_from_is_safe(s: Seq<char>, i: int)
    requires
        0 <= i,
    ensures
        forall|j: int| !closes_script_at(escape_script_from(s, i), j),
        forall|j: int| !opens_comment_at(escape_script_from(s, i), j),
    decreases s.len() - i,
{
    let out = escape_script_from(s, i);
    if i < s.len() {
        let next = escape_script_from(s, i + 1);
        lemma_escape_script_from_is_safe(s, i + 1);
        let marked = closes_script_at(s, i) || opens_comment_at(s, i);
        let width: int = if marked { 2 } else { 1 };
        assert(marked ==> out =~= seq![s[i], '\\'] + next);
        assert(!marked ==> out =~= seq![s[i]] + next);
        assert forall|j: int| !closes_script_at(out, j) && !opens_comment_at(out, j) by {
            if j >= width {
                if closes_script_at(out, j) {
                    assert(out[j] == next[j - width]);
                    assert(out[j + 1] == next[j - width + 1]);
                    assert(out[j + 2] == next[j - width + 2]);
                    assert(out[j + 3] == next[j - width + 3]);
                    assert(out[j + 4] == next[j - width + 4]);
                    assert(out[j + 5] == next[j - width + 5]);
                    assert(out[j + 6] == next[j - width + 6]);
                    assert(out[j + 7] == next[j - width + 7]);
                    assert(out[j + 8] == next[j - width + 8]);
                    assert(closes_script_at(next, j - width));
                }
                if opens_comment_at(out, j) {
                    assert(out[j] == next[j - width]);
                    assert(out[j + 1] == next[j - width + 1]);
                    assert(out[j + 2] == next[j - width + 2]);
                    assert(out[j + 3] == next[j - width + 3]);
                    assert(opens_comment_at(next, j - width));
                }
            } else if j == 0 && !marked {
                if closes_script_at(out, j) {
                    assert forall|m: int| 0 <= m < 8 implies next[m] != '<' by {
                        assert(next[m] == out[m + 1]);
                    }
                    lemma_escape_script_plain_prefix(s, i + 1, 8);
                    assert(out[1] == next[0] && out[2] == next[1] && out[3] == next[2]);
                    assert(out[4] == next[3] && out[5] == next[4] && out[6] == next[5]);
                    assert(out[7] == next[6] && out[8] == next[7]);
                    assert(closes_script_at(s, i));
                }
                if opens_comment_at(out, j) {
                    assert forall|m: int| 0 <= m < 3 implies next[m] != '<' by {
                        assert(next[m] == out[m + 1]);
                    }
                    lemma_escape_script_plain_prefix(s, i + 1, 3);
                    assert(out[1] == next[0] && out[2] == next[1] && out[3] == next[2]);
                    assert(opens_comment_at(s, i));
                }
            }
        }
    }
}

/// Escaped script source holds no closing script tag and no comment opening:
/// whatever the source was, it cannot end the script element it stands in.
pub proof fn lemma_escape_script_is_safe(source: Seq<char>)
    ensures
        forall|j: int| !closes_script_at(escape_script(source), j),
        forall|j: int| !opens_comment_at(escape_script(source), j),
{
    lemma_escape_script_from_is_safe(source, 0);
}

/// Escapes `source` for use inside a script element.
///
/// Trusted: calls `html_escape::encode_script`, which copies its argument and
/// puts a backslash between `<` and `/` wherever `</script` (in any case) is
/// followed by `/`, `>` or one of the bytes 9 to 13 and 28 to 32, and between
/// `<` and `!` wherever `<!--` stands.
#[verifier::external_body]
pub(crate) fn encode_script<'a>(source: &'a str) -> (out: Cow<'a, str>)
    ensures
        out@ == escape_script(source@),
{
    html_escape::encode_script(source)
}

} // verus!
