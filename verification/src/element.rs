//! Elements and documents.

use crate::attribute::{attribute_views, clone_cow, cow_str, Attribute};
use crate::escape::{encode_script, encode_text};
use crate::model::{
    doctype, render, render_all, render_attributes, render_document,
    render_spaced_attribute, Attr, Node,
};
use crate::names::valid_name;
use std::borrow::Cow;
use vstd::prelude::*;

verus! {

#[derive(Debug)]
enum ElementInner {
    Parent { tag: &'static str, attributes: Vec<Attribute>, children: Vec<Element> },
    Void { tag: &'static str, attributes: Vec<Attribute> },
    Text(Cow<'static, str>),
    Script(Cow<'static, str>),
    Raw(Cow<'static, str>),
    Multiple(Vec<Element>),
    Empty,
}

/// An HTML element, or another node of the tree: text, raw markup, a list of
/// siblings or nothing.
///
/// The module [`crate::elt`] holds the common elements.
#[derive(Debug)]
pub struct Element(ElementInner);

impl View for Element {
    type V = Node;

    closed spec fn view(&self) -> Node
        decreases self,
    {
        match self.0 {
            ElementInner::Parent { tag, attributes, children } => Node::Container {
                tag: tag@,
                attributes: attribute_views(attributes@),
                children: Seq::new(
                    children@.len(),
                    |i: int|
                        if 0 <= i < children@.len() {
                            children@[i]@
                        } else {
                            Node::Empty
                        },
                ),
            },
            ElementInner::Void { tag, attributes } => Node::Void {
                tag: tag@,
                attributes: attribute_views(attributes@),
            },
            ElementInner::Text(text) => Node::Text(text@),
            ElementInner::Script(source) => Node::ScriptBody(source@),
            ElementInner::Raw(markup) => Node::Raw(markup@),
            ElementInner::Multiple(children) => Node::Fragment(
                Seq::new(
                    children@.len(),
                    |i: int|
                        if 0 <= i < children@.len() {
                            children@[i]@
                        } else {
                            Node::Empty
                        },
                ),
            ),
            ElementInner::Empty => Node::Empty,
        }
    }
}

/// The models of the elements of a list.
pub open spec fn element_views(elements: Seq<Element>) -> Seq<Node> {
    Seq::new(elements.len(), |i: int| elements[i]@)
}

/// Appends to `f` what the attributes add to an opening tag: for each one
/// that is not omitted a space and its text.
pub fn write_attributes(f: &mut String, attributes: &Vec<Attribute>)
    ensures
        final(f)@ == old(f)@ + render_attributes(attribute_views(attributes@)),
{
    let ghost views = attribute_views(attributes@);
    let mut i: usize = 0;
    assert(views.take(0) =~= Seq::<Attr>::empty());
    assert(f@ =~= old(f)@ + render_attributes(views.take(0)));
    while i < attributes.len()
        invariant
            i <= attributes.len(),
            views == attribute_views(attributes@),
            f@ == old(f)@ + render_attributes(views.take(i as int)),
        decreases attributes.len() - i,
    {
        let ghost before = f@;
        let attribute = &attributes[i];
        if !attribute.is_omitted() {
            f.append(" ");
            attribute.fmt(f);
        }
        proof {
            reveal_strlit(" ");
            assert(f@ =~= before + render_spaced_attribute(views[i as int]));
            assert(views.take(i + 1).drop_last() =~= views.take(i as int));
            assert(views.take(i + 1).last() == views[i as int]);
        }
        i = i + 1;
    }
    assert(views.take(i as int) =~= views);
}

/// Appends the texts of `children` to `f`, in order.
fn write_children(f: &mut String, children: &Vec<Element>)
    ensures
        final(f)@ == old(f)@ + render_all(element_views(children@)),
        forall|i: int| 0 <= i < children@.len() ==> (#[trigger] children@[i])@.well_formed(),
    decreases children,
{
    let ghost views = element_views(children@);
    let mut i: usize = 0;
    assert(views.take(0) =~= Seq::<Node>::empty());
    assert(f@ =~= old(f)@ + render_all(views.take(0)));
    while i < children.len()
        invariant
            i <= children.len(),
            views == element_views(children@),
            f@ == old(f)@ + render_all(views.take(i as int)),
            forall|j: int| 0 <= j < i ==> (#[trigger] children@[j])@.well_formed(),
        decreases children.len() - i,
    {
        children[i].fmt(f);
        proof {
            assert(views.take(i + 1).drop_last() =~= views.take(i as int));
            assert(views.take(i + 1).last() == views[i as int]);
        }
        i = i + 1;
    }
    assert(views.take(i as int) =~= views);
}

impl Element {
    #[verifier::type_invariant]
    spec fn tag_is_valid(self) -> bool {
        match self.0 {
            ElementInner::Parent { tag, .. } => valid_name(tag@),
            ElementInner::Void { tag, .. } => valid_name(tag@),
            _ => true,
        }
    }

    /// An element with a tag, attributes and children.
    pub fn new(tag: &'static str, attributes: Vec<Attribute>, children: Vec<Element>) -> (e:
        Element)
        requires
            valid_name(tag@),
        ensures
            e@ == (Node::Container {
                tag: tag@,
                attributes: attribute_views(attributes@),
                children: element_views(children@),
            }),
    {
        let e = Element(ElementInner::Parent { tag, attributes, children });
        assert(e@->Container_children =~= element_views(children@));
        e
    }

    /// A void element: one with a tag and attributes, which has neither
    /// children nor a closing tag.
    pub fn new_void(tag: &'static str, attributes: Vec<Attribute>) -> (e: Element)
        requires
            valid_name(tag@),
        ensures
            e@ == (Node::Void { tag: tag@, attributes: attribute_views(attributes@) }),
    {
        Element(ElementInner::Void { tag, attributes })
    }

    /// Text, which is escaped when it is written.
    pub(crate) fn text(value: Cow<'static, str>) -> (e: Element)
        ensures
            e@ == Node::Text(value@),
            e == Element::text_of(value),
    {
        Element(ElementInner::Text(value))
    }

    /// The source of a script, which is escaped for that context when it is
    /// written.
    pub(crate) fn script_body(source: Cow<'static, str>) -> (e: Element)
        ensures
            e@ == Node::ScriptBody(source@),
    {
        Element(ElementInner::Script(source))
    }

    /// Markup that is written as it is.
    pub(crate) fn raw(markup: Cow<'static, str>) -> (e: Element)
        ensures
            e@ == Node::Raw(markup@),
    {
        Element(ElementInner::Raw(markup))
    }

    /// The elements of a list as one value.
    pub(crate) fn multiple(elements: Vec<Element>) -> (e: Element)
        ensures
            e@ == Node::Fragment(element_views(elements@)),
            e == Element::fragment_of(elements),
    {
        let e = Element(ElementInner::Multiple(elements));
        assert(e@->Fragment_0 =~= element_views(elements@));
        e
    }

    /// The element that is written as nothing.
    pub(crate) fn empty() -> (e: Element)
        ensures
            e@ == Node::Empty,
    {
        Element(ElementInner::Empty)
    }

    /// Appends the element's text to `f`.
    ///
    /// Every element has passed the check of its tag, so its model is well
    /// formed, whatever it was built from.
    pub fn fmt(&self, f: &mut String)
        ensures
            final(f)@ == old(f)@ + render(self@),
            self@.well_formed(),
        decreases self,
    {
        proof {
            use_type_invariant(self);
        }
        match &self.0 {
            ElementInner::Parent { tag, attributes, children } => {
                f.append("<");
                f.append(tag);
                write_attributes(f, attributes);
                f.append(">");
                write_children(f, children);
                f.append("</");
                f.append(tag);
                f.append(">");
                proof {
                    reveal_strlit("<");
                    reveal_strlit(">");
                    reveal_strlit("</");
                    assert(self@->Container_children =~= element_views(children@));
                    assert(final(f)@ =~= old(f)@ + render(self@));
                }
            },
            ElementInner::Void { tag, attributes } => {
                f.append("<");
                f.append(tag);
                write_attributes(f, attributes);
                f.append(">");
                proof {
                    reveal_strlit("<");
                    reveal_strlit(">");
                    assert(final(f)@ =~= old(f)@ + render(self@));
                }
            },
            ElementInner::Text(text) => {
                let escaped = encode_text(cow_str(text));
                f.append(cow_str(&escaped));
            },
            ElementInner::Script(source) => {
                let escaped = encode_script(cow_str(source));
                f.append(cow_str(&escaped));
            },
            ElementInner::Raw(markup) => {
                f.append(cow_str(markup));
            },
            ElementInner::Multiple(children) => {
                write_children(f, children);
                assert(self@->Fragment_0 =~= element_views(children@));
            },
            ElementInner::Empty => {
                assert(f@ =~= old(f)@ + render(self@));
            },
        }
    }

    /// The element's text.
    pub fn to_string(&self) -> (s: String)
        ensures
            s@ == render(self@),
            self@.well_formed(),
    {
        let mut s = String::new();
        self.fmt(&mut s);
        assert(s@ =~= render(self@));
        s
    }
}

/// A copy of a list of attributes.
fn clone_attributes(attributes: &Vec<Attribute>) -> (copy: Vec<Attribute>)
    ensures
        attribute_views(copy@) == attribute_views(attributes@),
{
    let mut copy: Vec<Attribute> = Vec::new();
    let mut i: usize = 0;
    while i < attributes.len()
        invariant
            i <= attributes.len(),
            copy@.len() == i,
            forall|j: int| 0 <= j < i ==> (#[trigger] copy@[j])@ == attributes@[j]@,
        decreases attributes.len() - i,
    {
        copy.push(attributes[i].clone());
        i = i + 1;
    }
    assert(attribute_views(copy@) =~= attribute_views(attributes@));
    copy
}

/// A copy of a list of elements.
fn clone_elements(elements: &Vec<Element>) -> (copy: Vec<Element>)
    ensures
        element_views(copy@) == element_views(elements@),
    decreases elements,
{
    let mut copy: Vec<Element> = Vec::new();
    let mut i: usize = 0;
    while i < elements.len()
        invariant
            i <= elements.len(),
            copy@.len() == i,
            forall|j: int| 0 <= j < i ==> (#[trigger] copy@[j])@ == elements@[j]@,
        decreases elements.len() - i,
    {
        copy.push(elements[i].clone());
        i = i + 1;
    }
    assert(element_views(copy@) =~= element_views(elements@));
    copy
}

impl Clone for Element {
    fn clone(&self) -> (e: Element)
        ensures
            e@ == self@,
        decreases self,
    {
        proof {
            use_type_invariant(self);
        }
        match &self.0 {
            ElementInner::Parent { tag, attributes, children } => {
                let e = Element::new(*tag, clone_attributes(attributes), clone_elements(children));
                assert(self@->Container_children =~= element_views(children@));
                e
            },
            ElementInner::Void { tag, attributes } => Element::new_void(
                *tag,
                clone_attributes(attributes),
            ),
            ElementInner::Text(text) => Element::text(clone_cow(text)),
            ElementInner::Script(source) => Element::script_body(clone_cow(source)),
            ElementInner::Raw(markup) => Element::raw(clone_cow(markup)),
            ElementInner::Multiple(children) => {
                let e = Element::multiple(clone_elements(children));
                assert(self@->Fragment_0 =~= element_views(children@));
                e
            },
            ElementInner::Empty => Element::empty(),
        }
    }
}

impl Clone for Document {
    fn clone(&self) -> (d: Document)
        ensures
            d@ == self@,
    {
        proof {
            use_type_invariant(self);
        }
        Document(self.0.clone())
    }
}

impl Element {
    /// The text node that holds `value`.
    pub closed spec fn text_of(value: Cow<'static, str>) -> Element {
        Element(ElementInner::Text(value))
    }

    /// The fragment that holds `elements`.
    pub closed spec fn fragment_of(elements: Vec<Element>) -> Element {
        Element(ElementInner::Multiple(elements))
    }
}

impl vstd::std_specs::convert::FromSpecImpl<Cow<'static, str>> for Element {
    open spec fn obeys_from_spec() -> bool {
        true
    }

    open spec fn from_spec(value: Cow<'static, str>) -> Element {
        Element::text_of(value)
    }
}

impl vstd::std_specs::convert::FromSpecImpl<&'static str> for Element {
    open spec fn obeys_from_spec() -> bool {
        true
    }

    open spec fn from_spec(value: &'static str) -> Element {
        Element::text_of(Cow::Borrowed(value))
    }
}

impl vstd::std_specs::convert::FromSpecImpl<String> for Element {
    open spec fn obeys_from_spec() -> bool {
        true
    }

    open spec fn from_spec(value: String) -> Element {
        Element::text_of(Cow::Owned(value))
    }
}

impl vstd::std_specs::convert::FromSpecImpl<Vec<Element>> for Element {
    open spec fn obeys_from_spec() -> bool {
        true
    }

    open spec fn from_spec(value: Vec<Element>) -> Element {
        Element::fragment_of(value)
    }
}

impl<const N: usize> vstd::std_specs::convert::FromSpecImpl<[Element; N]> for Element {
    /// The result is stated by its model only.
    open spec fn obeys_from_spec() -> bool {
        false
    }

    open spec fn from_spec(value: [Element; N]) -> Element {
        arbitrary()
    }
}

impl From<Cow<'static, str>> for Element {
    /// The text node that holds `value`.
    fn from(value: Cow<'static, str>) -> (e: Element)
        ensures
            e@ == Node::Text(value@),
    {
        Element::text(value)
    }
}

impl From<&'static str> for Element {
    /// The text node that holds `value`.
    fn from(value: &'static str) -> (e: Element)
        ensures
            e@ == Node::Text(value@),
    {
        Element::text(Cow::Borrowed(value))
    }
}

impl From<String> for Element {
    /// The text node that holds `value`.
    fn from(value: String) -> (e: Element)
        ensures
            e@ == Node::Text(value@),
    {
        Element::text(Cow::Owned(value))
    }
}

impl From<Vec<Element>> for Element {
    /// The elements of `value` as one fragment.
    fn from(value: Vec<Element>) -> (e: Element)
        ensures
            e@ == Node::Fragment(element_views(value@)),
    {
        Element::multiple(value)
    }
}

impl<const N: usize> From<[Element; N]> for Element {
    /// The elements of `value` as one fragment.
    fn from(value: [Element; N]) -> (e: Element)
        ensures
            e@ == Node::Fragment(element_views(value@)),
    {
        let boxed: Box<[Element]> = Box::new(value);
        Element::multiple(boxed.into_vec())
    }
}

/// An HTML document: the doctype and the root element.
#[derive(Debug)]
pub struct Document(Element);

impl View for Document {
    type V = Node;

    /// The root element.
    closed spec fn view(&self) -> Node {
        self.0@
    }
}

impl Document {
    #[verifier::type_invariant]
    spec fn root_is_html(self) -> bool {
        self.0@ matches Node::Container { tag, .. } && tag == "html"@
    }

    /// Appends the document's text to `f`.
    pub fn fmt(&self, f: &mut String)
        ensures
            final(f)@ == old(f)@ + render_document(self@),
            self@.well_formed(),
            self@ matches Node::Container { tag, .. } && tag == "html"@,
    {
        proof {
            use_type_invariant(self);
        }
        f.append("<!DOCTYPE html>\n");
        self.0.fmt(f);
        proof {
            reveal_strlit("<!DOCTYPE html>\n");
            assert("<!DOCTYPE html>\n"@ =~= doctype());
            assert(final(f)@ =~= old(f)@ + render_document(self@));
        }
    }

    /// The document's text.
    pub fn to_string(&self) -> (s: String)
        ensures
            s@ == render_document(self@),
            self@.well_formed(),
            self@ matches Node::Container { tag, .. } && tag == "html"@,
    {
        let mut s = String::new();
        self.fmt(&mut s);
        assert(s@ =~= render_document(self@));
        s
    }
}

impl Default for Document {
    /// The document with an empty head and an empty body.
    fn default() -> (d: Document)
        ensures
            d@ == (Node::Container {
                tag: "html"@,
                attributes: Seq::empty(),
                children: seq![
                    Node::Container {
                        tag: "head"@,
                        attributes: Seq::empty(),
                        children: Seq::empty(),
                    },
                    Node::Container {
                        tag: "body"@,
                        attributes: Seq::empty(),
                        children: Seq::empty(),
                    },
                ],
            }),
    {
        proof {
            reveal_strlit("html");
            reveal_strlit("head");
            reveal_strlit("body");
        }
        let head = Element::new("head", Vec::new(), Vec::new());
        let body = Element::new("body", Vec::new(), Vec::new());
        let mut children: Vec<Element> = Vec::new();
        children.push(head);
        children.push(body);
        let root = Element::new("html", Vec::new(), children);
        proof {
            assert(root@->Container_attributes =~= Seq::empty());
            assert(head@->Container_attributes =~= Seq::empty());
            assert(body@->Container_attributes =~= Seq::empty());
            assert(head@->Container_children =~= Seq::empty());
            assert(body@->Container_children =~= Seq::empty());
            assert(root@->Container_children =~= seq![head@, body@]);
        }
        Document(root)
    }
}

/// The document whose root element has the given attributes and children.
pub fn html(attributes: Vec<Attribute>, children: Vec<Element>) -> (d: Document)
    ensures
        d@ == (Node::Container {
            tag: "html"@,
            attributes: attribute_views(attributes@),
            children: element_views(children@),
        }),
{
    proof {
        reveal_strlit("html");
    }
    Document(Element::new("html", attributes, children))
}

} // verus!
