//! What holds of the serialized text, whatever tree it was made from.

use crate::decimal::{decimal, decimal_nat};
use crate::escape::lemma_escape_attribute_round_trip;
use crate::escape::{
    begins_with, closes_script_at, escape_attribute, lemma_escape_script_is_safe,
    lemma_escape_text_round_trip, opens_comment_at, unescape,
};
use crate::model::{
    close_tag, doctype, open_name, open_tag, render, render_all, render_attribute,
    render_attributes, render_document, render_spaced_attribute, Attr, AttrValue, Node,
};
use crate::names::valid_name;
use crate::occurrences::{
    brackets_closed, count, is_tag_pattern, lemma_brackets_closed_by_last,
    lemma_brackets_closed_concat, lemma_brackets_closed_without_bracket, lemma_count_concat,
    lemma_count_from_none, lemma_count_from_zero, lemma_count_single_bracket,
    lemma_count_without_bracket, lemma_occurs_in_suffix, occurs_at,
};
use vstd::prelude::*;

verus! {

/// Text is inert: what is written for a text node holds neither `<` nor `>`,
/// and a reader of the markup gets the text back from it.
pub proof fn lemma_text_is_inert(text: Seq<char>)
    ensures
        !render(Node::Text(text)).contains('<'),
        !render(Node::Text(text)).contains('>'),
        unescape(render(Node::Text(text))) == text,
{
    lemma_escape_text_round_trip(text);
}

/// An attribute value stays between its quotes: what is written for it holds
/// none of `"`, `<` and `>`, and a reader of the markup gets the value back
/// from it.
pub proof fn lemma_attribute_value_is_inert(name: Seq<char>, value: Seq<char>)
    ensures
        render_attribute(Attr::text(name, value)) == name + seq!['=', '"'] + escape_attribute(value)
            + seq!['"'],
        !escape_attribute(value).contains('"'),
        !escape_attribute(value).contains('<'),
        !escape_attribute(value).contains('>'),
        unescape(escape_attribute(value)) == value,
{
    lemma_escape_attribute_round_trip(value);
}

/// A flag has no value: it is written as its name and nothing else.
pub proof fn lemma_flag_has_no_value(name: Seq<char>)
    ensures
        render_attribute(Attr::flag(name)) == name,
        render_spaced_attribute(Attr::flag(name)) == seq![' '] + name,
{
}

/// A script cannot end its element: what is written for its source holds no
/// closing script tag and no comment opening.
pub proof fn lemma_script_cannot_close_its_element(source: Seq<char>)
    ensures
        forall|j: int| !closes_script_at(render(Node::ScriptBody(source)), j),
        forall|j: int| !opens_comment_at(render(Node::ScriptBody(source)), j),
{
    lemma_escape_script_is_safe(source);
}

/// No attribute that is written has a `<` in its name.
pub open spec fn names_hold_no_bracket(attrs: Seq<Attr>) -> bool {
    forall|i: int|
        0 <= i < attrs.len() ==> (#[trigger] attrs[i]).value is Omitted || !attrs[i].name.contains(
            '<',
        )
}

/// A number in decimal holds no `<`.
proof fn lemma_decimal_nat_holds_no_bracket(n: nat)
    ensures
        !decimal_nat(n).contains('<'),
    decreases n,
{
    let s = decimal_nat(n);
    if n >= 10 {
        lemma_decimal_nat_holds_no_bracket(n / 10);
        let front = decimal_nat(n / 10);
        assert forall|i: int| 0 <= i < s.len() implies s[i] != '<' by {
            if i < front.len() {
                assert(front.contains(front[i]));
            }
        }
    }
}

/// An integer in decimal holds no `<`.
proof fn lemma_decimal_holds_no_bracket(n: int)
    ensures
        !decimal(n).contains('<'),
{
    let s = decimal(n);
    if n < 0 {
        lemma_decimal_nat_holds_no_bracket((-n) as nat);
        let digits = decimal_nat((-n) as nat);
        assert forall|i: int| 0 <= i < s.len() implies s[i] != '<' by {
            if i > 0 {
                assert(digits.contains(digits[i - 1]));
            }
        }
    } else {
        lemma_decimal_nat_holds_no_bracket(n as nat);
    }
}

/// The attribute part of an opening tag is empty or begins with a space, and
/// holds no `<` where no name does: values are escaped or numbers.
pub proof fn lemma_attributes_shape(attrs: Seq<Attr>)
    ensures
        render_attributes(attrs).len() == 0 || render_attributes(attrs)[0] == ' ',
        names_hold_no_bracket(attrs) ==> !render_attributes(attrs).contains('<'),
    decreases attrs.len(),
{
    let text = render_attributes(attrs);
    if attrs.len() > 0 {
        let front = render_attributes(attrs.drop_last());
        let a = attrs.last();
        let added = render_spaced_attribute(a);
        lemma_attributes_shape(attrs.drop_last());
        if names_hold_no_bracket(attrs) {
            let before = attrs.drop_last();
            assert forall|i: int| 0 <= i < before.len() implies (#[trigger] before[i]).value
                is Omitted || !before[i].name.contains('<') by {
                assert(before[i] == attrs[i]);
            }
            assert(a == attrs[attrs.len() - 1]);
            assert forall|i: int| 0 <= i < added.len() implies added[i] != '<' by {
                let name = a.name;
                match a.value {
                    AttrValue::Text(v) => {
                        lemma_escape_attribute_round_trip(v);
                        let e = escape_attribute(v);
                        if 1 <= i < 1 + name.len() {
                            assert(name.contains(name[i - 1]));
                        } else if 3 + name.len() <= i < 3 + name.len() + e.len() {
                            assert(e.contains(e[i - 3 - name.len()]));
                        }
                    },
                    AttrValue::Int(n) => {
                        lemma_decimal_holds_no_bracket(n);
                        let e = decimal(n);
                        if 1 <= i < 1 + name.len() {
                            assert(name.contains(name[i - 1]));
                        } else if 3 + name.len() <= i < 3 + name.len() + e.len() {
                            assert(e.contains(e[i - 3 - name.len()]));
                        }
                    },
                    AttrValue::Flag => {
                        if 1 <= i {
                            assert(name.contains(name[i - 1]));
                        }
                    },
                    AttrValue::Omitted => {},
                }
            }
            assert forall|i: int| 0 <= i < text.len() implies text[i] != '<' by {
                if i < front.len() {
                    assert(front.contains(front[i]));
                }
            }
        }
    }
}

/// Where no attribute name holds `<`, no pattern that begins with `<` stands
/// in the attribute part of an opening tag or across its end.
pub proof fn lemma_attributes_hold_no_tag(attrs: Seq<Attr>, pattern: Seq<char>)
    requires
        names_hold_no_bracket(attrs),
        pattern.len() > 0,
        pattern[0] == '<',
    ensures
        count(render_attributes(attrs) + seq!['>'], pattern) == 0,
{
    let part = render_attributes(attrs);
    let text = part + seq!['>'];
    lemma_attributes_shape(attrs);
    assert forall|i: int| 0 <= i < text.len() implies text[i] != '<' by {
        if i < part.len() {
            assert(part.contains(part[i]));
        }
    }
    lemma_count_without_bracket(text, pattern);
}

/// In the opening tag of an element with a valid tag, `<tag` stands at the
/// start and nowhere else before the attribute part, and the closing tag
/// stands nowhere before it.
proof fn lemma_open_tag_head(tag: Seq<char>, attrs: Seq<Attr>, i: int)
    requires
        valid_name(tag),
        1 <= i,
    ensures
        i <= tag.len() ==> !occurs_at(open_tag(tag, attrs), open_name(tag), i),
        !occurs_at(open_tag(tag, attrs), close_tag(tag), 0),
        i <= tag.len() ==> !occurs_at(open_tag(tag, attrs), close_tag(tag), i),
{
    let out = open_tag(tag, attrs);
    let n = tag.len() as int;
    let rest = render_attributes(attrs) + seq!['>'];
    let pattern = open_name(tag);
    let closing = close_tag(tag);
    lemma_attributes_shape(attrs);
    assert(out =~= pattern + rest);
    assert(out[n + 1] == rest[0]);
    assert(rest[0] == ' ' || (rest[0] == '>' && out.len() == n + 2));
    assert(forall|k: int| 0 <= k < n ==> out[k + 1] == tag[k]);
    if i <= n && occurs_at(out, pattern, i) {
        let window = out.subrange(i, i + n + 1);
        assert(window[n + 1 - i] == out[n + 1]);
        assert(pattern[n + 1 - i] == tag[n - i]);
        if rest[0] == '>' {
            assert(i == 1);
            assert forall|k: int| 0 <= k < n implies pattern[k] == #[trigger] pattern[k + 1] by {
                assert(window[k] == out[k + 1]);
            }
            lemma_constant(pattern, n);
            assert(window[n] == out[n + 1]);
        }
    }
    if occurs_at(out, closing, 0) {
        let window = out.subrange(0, n + 3);
        assert(rest[0] == ' ');
        assert(window[n + 1] == out[n + 1]);
        assert(closing[n + 1] == tag[n - 1]);
    }
    if i <= n && occurs_at(out, closing, i) {
        let window = out.subrange(i, i + n + 3);
        assert(rest[0] == ' ');
        assert(window[n + 1 - i] == out[n + 1]);
        if n + 1 - i >= 2 {
            assert(closing[n + 1 - i] == tag[n - 1 - i]);
        } else {
            assert(closing[1] == '/');
        }
    }
}

/// A sequence whose neighbours are equal up to index `m` holds at `m` what it
/// holds at 0.
proof fn lemma_constant(s: Seq<char>, m: int)
    requires
        0 <= m < s.len(),
        forall|k: int| 0 <= k < m ==> s[k] == #[trigger] s[k + 1],
    ensures
        s[m] == s[0],
    decreases m,
{
    if m > 0 {
        lemma_constant(s, m - 1);
        assert(s[m - 1] == s[m - 1 + 1]);
    }
}

/// A void element has no closing tag: where its attribute part holds neither
/// `<tag` nor `</tag>`, its text holds `<tag` exactly once and `</tag>` not at
/// all.
pub proof fn lemma_void_has_no_closing_tag(tag: Seq<char>, attrs: Seq<Attr>)
    requires
        valid_name(tag),
        count(render_attributes(attrs) + seq!['>'], open_name(tag)) == 0,
        count(render_attributes(attrs) + seq!['>'], close_tag(tag)) == 0,
    ensures
        count(render(Node::Void { tag, attributes: attrs }), open_name(tag)) == 1,
        count(render(Node::Void { tag, attributes: attrs }), close_tag(tag)) == 0,
{
    let out = open_tag(tag, attrs);
    let head = open_name(tag);
    let rest = render_attributes(attrs) + seq!['>'];
    let closing = close_tag(tag);
    assert(out =~= head + rest);
    lemma_count_from_zero(rest, head, 0);
    lemma_count_from_zero(rest, closing, 0);
    assert(out.subrange(0, head.len() as int) =~= head);
    assert(occurs_at(out, head, 0));
    assert forall|k: int| 1 <= k < out.len() implies !occurs_at(out, head, k) by {
        if k <= tag.len() {
            lemma_open_tag_head(tag, attrs, k);
        } else {
            lemma_occurs_in_suffix(head, rest, head, k);
        }
    }
    lemma_count_from_none(out, head, 1);
    assert forall|k: int| 0 <= k < out.len() implies !occurs_at(out, closing, k) by {
        if k == 0 {
            lemma_open_tag_head(tag, attrs, 1);
        } else if k <= tag.len() {
            lemma_open_tag_head(tag, attrs, k);
        } else {
            lemma_occurs_in_suffix(head, rest, closing, k);
        }
    }
    lemma_count_from_none(out, closing, 0);
}

/// A name that cannot be taken for markup: valid, without `<` and `>`, and
/// not beginning with `/`.
pub open spec fn plain_name(name: Seq<char>) -> bool {
    &&& valid_name(name)
    &&& name[0] != '/'
    &&& !name.contains('<')
    &&& !name.contains('>')
}

impl Node {
    /// A tree of elements and text in which every `<` of the output starts a
    /// tag: it holds no raw markup and no script, its tags are plain names
    /// and no attribute name holds `<`.
    pub open spec fn is_plain(self) -> bool
        decreases self,
    {
        match self {
            Node::Container { tag, attributes, children } => {
                &&& plain_name(tag)
                &&& names_hold_no_bracket(attributes)
                &&& forall|i: int| 0 <= i < children.len() ==> (#[trigger] children[i]).is_plain()
            },
            Node::Void { tag, attributes } => plain_name(tag) && names_hold_no_bracket(attributes),
            Node::Text(_) => true,
            Node::ScriptBody(_) => false,
            Node::Raw(_) => false,
            Node::Fragment(children) => forall|i: int|
                0 <= i < children.len() ==> (#[trigger] children[i]).is_plain(),
            Node::Empty => true,
        }
    }

    /// The number of containers in the tree whose tag is `name`.
    pub open spec fn containers_named(self, name: Seq<char>) -> nat
        decreases self,
    {
        match self {
            Node::Container { tag, attributes, children } => (if tag == name {
                1nat
            } else {
                0nat
            }) + containers_in(children, name),
            Node::Fragment(children) => containers_in(children, name),
            _ => 0,
        }
    }

    /// The number of void elements in the tree whose tag is `name`.
    pub open spec fn voids_named(self, name: Seq<char>) -> nat
        decreases self,
    {
        match self {
            Node::Container { tag, attributes, children } => voids_in(children, name),
            Node::Void { tag, attributes } => if tag == name {
                1
            } else {
                0
            },
            Node::Fragment(children) => voids_in(children, name),
            _ => 0,
        }
    }
}

/// The number of containers in the trees of a list whose tag is `name`.
pub open spec fn containers_in(nodes: Seq<Node>, name: Seq<char>) -> nat
    decreases nodes,
{
    if nodes.len() == 0 {
        0
    } else {
        containers_in(nodes.drop_last(), name) + nodes.last().containers_named(name)
    }
}

/// The number of void elements in the trees of a list whose tag is `name`.
pub open spec fn voids_in(nodes: Seq<Node>, name: Seq<char>) -> nat
    decreases nodes,
{
    if nodes.len() == 0 {
        0
    } else {
        voids_in(nodes.drop_last(), name) + nodes.last().voids_named(name)
    }
}

/// The opening tag of an element named `name` that has no attribute.
pub open spec fn bare_open_tag(name: Seq<char>) -> Seq<char> {
    seq!['<'] + name + seq!['>']
}

/// How the opening tag of an element named `name` begins where attributes
/// follow the name.
pub open spec fn spaced_open_tag(name: Seq<char>) -> Seq<char> {
    seq!['<'] + name + seq![' ']
}

/// The number of opening tags of elements named `name` in a text.
pub open spec fn count_opening(text: Seq<char>, name: Seq<char>) -> nat {
    count(text, bare_open_tag(name)) + count(text, spaced_open_tag(name))
}

/// The number of closing tags of elements named `name` in a text.
pub open spec fn count_closing(text: Seq<char>, name: Seq<char>) -> nat {
    count(text, close_tag(name))
}

/// The three patterns of a plain name can only stand where a tag starts.
proof fn lemma_tag_patterns(name: Seq<char>)
    requires
        plain_name(name),
    ensures
        is_tag_pattern(bare_open_tag(name)),
        is_tag_pattern(spaced_open_tag(name)),
        is_tag_pattern(close_tag(name)),
{
    let n = name.len() as int;
    assert forall|k: int| 1 <= k < n + 1 implies #[trigger] bare_open_tag(name)[k] != '>' by {
        assert(name.contains(name[k - 1]));
    }
    assert forall|k: int| 1 <= k < n + 1 implies #[trigger] spaced_open_tag(name)[k] != '>' by {
        assert(name.contains(name[k - 1]));
    }
    assert forall|k: int| 1 <= k < n + 2 implies #[trigger] close_tag(name)[k] != '>' by {
        if k >= 2 {
            assert(name.contains(name[k - 2]));
        }
    }
}

/// Two names of which one stands where the other begins, and is followed
/// there by a character that the other cannot hold, are the same name.
proof fn lemma_same_name(text: Seq<char>, at: int, tag: Seq<char>, name: Seq<char>)
    requires
        0 <= at,
        at + tag.len() < text.len(),
        text.subrange(at, at + tag.len()) == tag,
        at + name.len() < text.len(),
        text.subrange(at, at + name.len()) == name,
        text[at + tag.len()] == ' ' || text[at + tag.len()] == '>',
        text[at + name.len()] == ' ' || text[at + name.len()] == '>',
        plain_name(tag),
        plain_name(name),
    ensures
        tag == name,
{
    let t = tag.len() as int;
    let n = name.len() as int;
    if n < t {
        assert(text.subrange(at, at + t)[n] == text[at + n]);
        assert(tag.contains(tag[n]));
    } else if t < n {
        assert(text.subrange(at, at + n)[t] == text[at + t]);
        assert(name.contains(name[t]));
    } else {
        assert(tag =~= name);
    }
}

/// An opening tag holds one opening tag of its own name, none of another, and
/// no closing tag.
proof fn lemma_count_in_open_tag(tag: Seq<char>, attrs: Seq<Attr>, name: Seq<char>)
    requires
        plain_name(tag),
        names_hold_no_bracket(attrs),
        plain_name(name),
    ensures
        count_opening(open_tag(tag, attrs), name) == if tag == name {
            1nat
        } else {
            0nat
        },
        count_closing(open_tag(tag, attrs), name) == 0,
{
    let out = open_tag(tag, attrs);
    let t = tag.len() as int;
    let n = name.len() as int;
    let rest = render_attributes(attrs) + seq!['>'];
    lemma_attributes_shape(attrs);
    assert(out =~= open_name(tag) + rest);
    assert(out[t + 1] == rest[0]);
    assert(out.subrange(1, 1 + t) =~= tag);
    assert forall|k: int| 1 <= k < out.len() implies out[k] != '<' by {
        if k <= t {
            assert(tag.contains(tag[k - 1]));
        } else if k < out.len() - 1 {
            let a = render_attributes(attrs);
            assert(a.contains(a[k - t - 1]));
        }
    }
    let bare = bare_open_tag(name);
    let spaced = spaced_open_tag(name);
    let closing = close_tag(name);
    lemma_count_single_bracket(out, bare);
    lemma_count_single_bracket(out, spaced);
    lemma_count_single_bracket(out, closing);
    if occurs_at(out, closing, 0) {
        assert(out.subrange(0, n + 3)[1] == out[1]);
        assert(out[1] == tag[0]);
    }
    if occurs_at(out, bare, 0) {
        assert(out.subrange(1, 1 + n) =~= out.subrange(0, n + 2).subrange(1, 1 + n));
        assert(bare.subrange(1, 1 + n) =~= name);
        assert(out.subrange(0, n + 2)[n + 1] == out[n + 1]);
        lemma_same_name(out, 1, tag, name);
        assert(rest[0] == '>');
    }
    if occurs_at(out, spaced, 0) {
        assert(out.subrange(1, 1 + n) =~= out.subrange(0, n + 2).subrange(1, 1 + n));
        assert(spaced.subrange(1, 1 + n) =~= name);
        assert(out.subrange(0, n + 2)[n + 1] == out[n + 1]);
        lemma_same_name(out, 1, tag, name);
        assert(rest[0] == ' ');
    }
    if tag == name {
        if rest[0] == ' ' {
            assert(out.subrange(0, n + 2) =~= spaced);
        } else {
            assert(out.subrange(0, n + 2) =~= bare);
        }
    }
}

/// A closing tag holds one closing tag of its own name, none of another, and
/// no opening tag.
proof fn lemma_count_in_close_tag(tag: Seq<char>, name: Seq<char>)
    requires
        plain_name(tag),
        plain_name(name),
    ensures
        count_opening(close_tag(tag), name) == 0,
        count_closing(close_tag(tag), name) == if tag == name {
            1nat
        } else {
            0nat
        },
{
    let out = close_tag(tag);
    let t = tag.len() as int;
    let n = name.len() as int;
    assert forall|k: int| 1 <= k < out.len() implies out[k] != '<' by {
        if 2 <= k <= t + 1 {
            assert(tag.contains(tag[k - 2]));
        }
    }
    let bare = bare_open_tag(name);
    let spaced = spaced_open_tag(name);
    let closing = close_tag(name);
    lemma_count_single_bracket(out, bare);
    lemma_count_single_bracket(out, spaced);
    lemma_count_single_bracket(out, closing);
    if occurs_at(out, bare, 0) {
        assert(out.subrange(0, n + 2)[1] == out[1]);
        assert(bare[1] == name[0]);
    }
    if occurs_at(out, spaced, 0) {
        assert(out.subrange(0, n + 2)[1] == out[1]);
        assert(spaced[1] == name[0]);
    }
    assert(out.subrange(2, 2 + t) =~= tag);
    if occurs_at(out, closing, 0) {
        assert(out.subrange(2, 2 + n) =~= out.subrange(0, n + 3).subrange(2, 2 + n));
        assert(closing.subrange(2, 2 + n) =~= name);
        assert(out.subrange(0, n + 3)[n + 2] == out[n + 2]);
        lemma_same_name(out, 2, tag, name);
    }
    if tag == name {
        assert(out.subrange(0, n + 3) =~= closing);
    }
}

/// In the text of a plain tree every `<` has its `>`.
pub proof fn lemma_plain_brackets_closed(node: Node)
    requires
        node.is_plain(),
    ensures
        brackets_closed(render(node)),
    decreases node,
{
    match node {
        Node::Container { tag, attributes, children } => {
            lemma_plain_list_brackets_closed(children);
            lemma_brackets_closed_by_last(open_tag(tag, attributes));
            lemma_brackets_closed_by_last(close_tag(tag));
            lemma_brackets_closed_concat(open_tag(tag, attributes), render_all(children));
            lemma_brackets_closed_concat(
                open_tag(tag, attributes) + render_all(children),
                close_tag(tag),
            );
        },
        Node::Void { tag, attributes } => {
            lemma_brackets_closed_by_last(open_tag(tag, attributes));
        },
        Node::Text(text) => {
            lemma_escape_text_round_trip(text);
            lemma_brackets_closed_without_bracket(render(node));
        },
        Node::Fragment(children) => {
            lemma_plain_list_brackets_closed(children);
        },
        _ => {
            lemma_brackets_closed_without_bracket(render(node));
        },
    }
}

/// In the text of a list of plain trees every `<` has its `>`.
pub proof fn lemma_plain_list_brackets_closed(nodes: Seq<Node>)
    requires
        forall|i: int| 0 <= i < nodes.len() ==> (#[trigger] nodes[i]).is_plain(),
    ensures
        brackets_closed(render_all(nodes)),
    decreases nodes,
{
    if nodes.len() == 0 {
        lemma_brackets_closed_without_bracket(render_all(nodes));
    } else {
        let front = nodes.drop_last();
        assert forall|i: int| 0 <= i < front.len() implies (#[trigger] front[i]).is_plain() by {
            assert(front[i] == nodes[i]);
        }
        lemma_plain_list_brackets_closed(front);
        assert(nodes.last() == nodes[nodes.len() - 1]);
        lemma_plain_brackets_closed(nodes.last());
        lemma_brackets_closed_concat(render_all(nodes.drop_last()), render(nodes.last()));
    }
}

/// Every element of a plain tree is found in its text: the text holds as many
/// opening tags of a name as the tree holds elements of that name, and as
/// many closing tags as it holds containers of that name.
pub proof fn lemma_tags_are_counted(node: Node, name: Seq<char>)
    requires
        node.is_plain(),
        plain_name(name),
    ensures
        count_opening(render(node), name) == node.containers_named(name) + node.voids_named(name),
        count_closing(render(node), name) == node.containers_named(name),
    decreases node,
{
    lemma_tag_patterns(name);
    let bare = bare_open_tag(name);
    let spaced = spaced_open_tag(name);
    let closing = close_tag(name);
    match node {
        Node::Container { tag, attributes, children } => {
            let open = open_tag(tag, attributes);
            let inner = render_all(children);
            let close = close_tag(tag);
            lemma_tags_are_counted_in(children, name);
            lemma_count_in_open_tag(tag, attributes, name);
            lemma_count_in_close_tag(tag, name);
            lemma_plain_list_brackets_closed(children);
            lemma_brackets_closed_by_last(open);
            lemma_brackets_closed_concat(open, inner);
            lemma_count_concat(open, inner, bare);
            lemma_count_concat(open, inner, spaced);
            lemma_count_concat(open, inner, closing);
            lemma_count_concat(open + inner, close, bare);
            lemma_count_concat(open + inner, close, spaced);
            lemma_count_concat(open + inner, close, closing);
        },
        Node::Void { tag, attributes } => {
            lemma_count_in_open_tag(tag, attributes, name);
        },
        Node::Text(text) => {
            lemma_escape_text_round_trip(text);
            lemma_count_without_bracket(render(node), bare);
            lemma_count_without_bracket(render(node), spaced);
            lemma_count_without_bracket(render(node), closing);
        },
        Node::Fragment(children) => {
            lemma_tags_are_counted_in(children, name);
        },
        _ => {
            lemma_count_without_bracket(render(node), bare);
            lemma_count_without_bracket(render(node), spaced);
            lemma_count_without_bracket(render(node), closing);
        },
    }
}

/// The same for the trees of a list.
pub proof fn lemma_tags_are_counted_in(nodes: Seq<Node>, name: Seq<char>)
    requires
        forall|i: int| 0 <= i < nodes.len() ==> (#[trigger] nodes[i]).is_plain(),
        plain_name(name),
    ensures
        count_opening(render_all(nodes), name) == containers_in(nodes, name) + voids_in(
            nodes,
            name,
        ),
        count_closing(render_all(nodes), name) == containers_in(nodes, name),
    decreases nodes,
{
    lemma_tag_patterns(name);
    let bare = bare_open_tag(name);
    let spaced = spaced_open_tag(name);
    let closing = close_tag(name);
    if nodes.len() == 0 {
        lemma_count_without_bracket(render_all(nodes), bare);
        lemma_count_without_bracket(render_all(nodes), spaced);
        lemma_count_without_bracket(render_all(nodes), closing);
    } else {
        let front = nodes.drop_last();
        assert forall|i: int| 0 <= i < front.len() implies (#[trigger] front[i]).is_plain() by {
            assert(front[i] == nodes[i]);
        }
        assert(nodes.last() == nodes[nodes.len() - 1]);
        lemma_tags_are_counted_in(front, name);
        lemma_tags_are_counted(nodes.last(), name);
        lemma_plain_list_brackets_closed(front);
        lemma_count_concat(render_all(front), render(nodes.last()), bare);
        lemma_count_concat(render_all(front), render(nodes.last()), spaced);
        lemma_count_concat(render_all(front), render(nodes.last()), closing);
    }
}

/// Tags balance: the text of a plain tree without void elements holds, for
/// every name, as many opening tags as closing tags.
pub proof fn lemma_container_tags_balance(node: Node, name: Seq<char>)
    requires
        node.is_plain(),
        plain_name(name),
        node.voids_named(name) == 0,
    ensures
        count_opening(render(node), name) == count_closing(render(node), name),
{
    lemma_tags_are_counted(node, name);
}

/// Tags nest: the text of a plain container is its opening tag, a text in
/// which the tags of its children are counted as in any plain tree, and its
/// closing tag. Where no child holds a void element of a name, the tags of
/// that name balance between the two.
pub proof fn lemma_container_tags_nest(
    tag: Seq<char>,
    attrs: Seq<Attr>,
    children: Seq<Node>,
    name: Seq<char>,
)
    requires
        plain_name(tag),
        names_hold_no_bracket(attrs),
        forall|i: int| 0 <= i < children.len() ==> (#[trigger] children[i]).is_plain(),
        plain_name(name),
    ensures
        render(Node::Container { tag, attributes: attrs, children }) == open_tag(tag, attrs)
            + render_all(children) + close_tag(tag),
        count_opening(render_all(children), name) == count_closing(render_all(children), name)
            + voids_in(children, name),
        count_opening(open_tag(tag, attrs), name) == count_closing(close_tag(tag), name),
{
    lemma_tags_are_counted_in(children, name);
    lemma_count_in_open_tag(tag, attrs, name);
    lemma_count_in_close_tag(tag, name);
}

/// Whether `s` ends with `suffix`.
pub open spec fn ends_with(s: Seq<char>, suffix: Seq<char>) -> bool {
    suffix.len() <= s.len() && s.subrange(s.len() - suffix.len(), s.len() as int) == suffix
}

/// A document is framed: its text is the doctype line, then the root element
/// from `<html` to `</html>`, and nothing behind it.
pub proof fn lemma_document_framing(root: Node)
    requires
        root matches Node::Container { tag, .. } && tag == "html"@,
    ensures
        begins_with(render_document(root), doctype() + open_name("html"@)),
        ends_with(render_document(root), close_tag("html"@)),
        render_document(root) == doctype() + render(root),
{
    let text = render_document(root);
    let head = doctype() + open_name("html"@);
    let tail = close_tag("html"@);
    assert(text.subrange(0, head.len() as int) =~= head);
    assert(text.subrange(text.len() - tail.len(), text.len() as int) =~= tail);
}

/// A document has one root: where the root is a plain tree that holds no
/// further element named `html`, the text of the document holds exactly one
/// opening and one closing tag of that name.
pub proof fn lemma_document_has_one_root(root: Node)
    requires
        root matches Node::Container { tag, .. } && tag == "html"@,
        root.is_plain(),
        root.containers_named("html"@) == 1,
        root.voids_named("html"@) == 0,
    ensures
        count_opening(render_document(root), "html"@) == 1,
        count_closing(render_document(root), "html"@) == 1,
{
    let name = "html"@;
    let line = doctype();
    lemma_tag_patterns(name);
    lemma_tags_are_counted(root, name);
    assert(brackets_closed(line)) by {
        assert(line[14] == '>');
    }
    lemma_count_single_bracket(line, bare_open_tag(name));
    lemma_count_single_bracket(line, spaced_open_tag(name));
    lemma_count_single_bracket(line, close_tag(name));
    if occurs_at(line, bare_open_tag(name), 0) {
        assert(line.subrange(0, name.len() as int + 2)[1] == line[1]);
        assert(bare_open_tag(name)[1] == name[0]);
        assert(name.contains(name[0]));
    }
    if occurs_at(line, spaced_open_tag(name), 0) {
        assert(line.subrange(0, name.len() as int + 2)[1] == line[1]);
        assert(spaced_open_tag(name)[1] == name[0]);
    }
    if occurs_at(line, close_tag(name), 0) {
        assert(line.subrange(0, name.len() as int + 3)[1] == line[1]);
    }
    reveal_strlit("html");
    lemma_count_concat(line, render(root), bare_open_tag(name));
    lemma_count_concat(line, render(root), spaced_open_tag(name));
    lemma_count_concat(line, render(root), close_tag(name));
}

} // verus!
