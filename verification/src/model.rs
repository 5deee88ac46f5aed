//! The mathematical model of markup: what an attribute and a node are, and
//! which text each of them is serialized to.
//!
//! The executable types view themselves as values of this module, and every
//! contract of the library is stated over it.

use crate::decimal::decimal;
use crate::escape::{escape_attribute, escape_script, escape_text};
use crate::names::valid_name;
use vstd::prelude::*;

verus! {

/// The value of an attribute.
pub ghost enum AttrValue {
    /// A string, written escaped between double quotes.
    Text(Seq<char>),
    /// An integer, written in decimal between double quotes.
    Int(int),
    /// No value: the name stands alone.
    Flag,
    /// The attribute is left out of the output altogether.
    Omitted,
}

/// One attribute of an element.
pub ghost struct Attr {
    pub name: Seq<char>,
    pub value: AttrValue,
}

/// A node of the markup tree.
pub ghost enum Node {
    /// An element with an opening tag, children and a closing tag.
    Container { tag: Seq<char>, attributes: Seq<Attr>, children: Seq<Node> },
    /// An element that has neither children nor a closing tag.
    Void { tag: Seq<char>, attributes: Seq<Attr> },
    /// Text, escaped when written.
    Text(Seq<char>),
    /// The source text of a script, escaped for that context.
    ScriptBody(Seq<char>),
    /// Markup that is written as it is.
    Raw(Seq<char>),
    /// Siblings without an element of their own around them.
    Fragment(Seq<Node>),
    /// Nothing.
    Empty,
}

impl Attr {
    /// The attribute `name="value"`.
    pub open spec fn text(name: Seq<char>, value: Seq<char>) -> Attr {
        Attr { name, value: AttrValue::Text(value) }
    }

    /// The attribute `name="n"`.
    pub open spec fn number(name: Seq<char>, n: int) -> Attr {
        Attr { name, value: AttrValue::Int(n) }
    }

    /// The attribute `name`, without a value.
    pub open spec fn flag(name: Seq<char>) -> Attr {
        Attr { name, value: AttrValue::Flag }
    }

    /// The attribute that is not written.
    pub open spec fn omitted() -> Attr {
        Attr { name: Seq::empty(), value: AttrValue::Omitted }
    }
}

impl Node {
    /// The container `<tag attributes>children</tag>`.
    pub open spec fn container(tag: Seq<char>, attributes: Seq<Attr>, children: Seq<Node>) -> Node {
        Node::Container { tag, attributes, children }
    }

    /// The void element `<tag attributes>`.
    pub open spec fn void(tag: Seq<char>, attributes: Seq<Attr>) -> Node {
        Node::Void { tag, attributes }
    }
}

impl Node {
    /// Every element of the tree has a valid tag.
    pub open spec fn well_formed(self) -> bool
        decreases self,
    {
        match self {
            Node::Container { tag, attributes, children } => {
                &&& valid_name(tag)
                &&& forall|i: int|
                    0 <= i < children.len() ==> (#[trigger] children[i]).well_formed()
            },
            Node::Void { tag, attributes } => valid_name(tag),
            Node::Fragment(children) => forall|i: int|
                0 <= i < children.len() ==> (#[trigger] children[i]).well_formed(),
            _ => true,
        }
    }
}

/// The text of one attribute, without the space in front of it.
pub open spec fn render_attribute(a: Attr) -> Seq<char> {
    match a.value {
        AttrValue::Text(v) => a.name + seq!['=', '"'] + escape_attribute(v) + seq!['"'],
        AttrValue::Int(n) => a.name + seq!['=', '"'] + decimal(n) + seq!['"'],
        AttrValue::Flag => a.name,
        AttrValue::Omitted => Seq::empty(),
    }
}

/// What one attribute adds to an opening tag: a space and its text, or nothing
/// where it is omitted.
pub open spec fn render_spaced_attribute(a: Attr) -> Seq<char> {
    if a.value is Omitted {
        Seq::empty()
    } else {
        seq![' '] + render_attribute(a)
    }
}

/// The attribute part of an opening tag, in the order of the list.
pub open spec fn render_attributes(attrs: Seq<Attr>) -> Seq<char>
    decreases attrs.len(),
{
    if attrs.len() == 0 {
        Seq::empty()
    } else {
        render_attributes(attrs.drop_last()) + render_spaced_attribute(attrs.last())
    }
}

/// The opening tag of an element.
pub open spec fn open_tag(tag: Seq<char>, attrs: Seq<Attr>) -> Seq<char> {
    seq!['<'] + tag + render_attributes(attrs) + seq!['>']
}

/// How the opening tag of an element begins: `<` and the tag.
pub open spec fn open_name(tag: Seq<char>) -> Seq<char> {
    seq!['<'] + tag
}

/// The closing tag of a container.
pub open spec fn close_tag(tag: Seq<char>) -> Seq<char> {
    seq!['<', '/'] + tag + seq!['>']
}

/// The text that a node is serialized to.
pub open spec fn render(node: Node) -> Seq<char>
    decreases node,
{
    match node {
        Node::Container { tag, attributes, children } => open_tag(tag, attributes) + render_all(
            children,
        ) + close_tag(tag),
        Node::Void { tag, attributes } => open_tag(tag, attributes),
        Node::Text(text) => escape_text(text),
        Node::ScriptBody(source) => escape_script(source),
        Node::Raw(markup) => markup,
        Node::Fragment(children) => render_all(children),
        Node::Empty => Seq::empty(),
    }
}

/// The texts of the nodes of a list, one after the other.
pub open spec fn render_all(nodes: Seq<Node>) -> Seq<char>
    decreases nodes,
{
    if nodes.len() == 0 {
        Seq::empty()
    } else {
        render_all(nodes.drop_last()) + render(nodes.last())
    }
}

/// The line that every document starts with.
pub open spec fn doctype() -> Seq<char> {
    seq!['<', '!', 'D', 'O', 'C', 'T', 'Y', 'P', 'E', ' ', 'h', 't', 'm', 'l', '>', '\n']
}

/// The text that a document with the given root is serialized to.
pub open spec fn render_document(root: Node) -> Seq<char> {
    doctype() + render(root)
}

} // verus!
