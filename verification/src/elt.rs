//! Common elements.
//!
//! Every function here binds a tag to [`Element::new`] or
//! [`Element::new_void`]; an element that is not listed is made with one of
//! those. Markup that is already written is taken in by [`raw`] and
//! [`raw_unsafe`].

use crate::attr::{content, href, name, rel};
use crate::attribute::{attribute_views, Attribute};
use crate::element::{element_views, Element};
use crate::model::{Attr, Node};
use std::borrow::Cow;
use vstd::prelude::*;

verus! {

/// Nothing: no text is written for it. For an element that is there on a
/// condition only.
pub fn none() -> (e: Element)
    ensures
        e@ == Node::Empty,
{
    Element::empty()
}

/// `<div>`
pub fn div(attributes: Vec<Attribute>, children: Vec<Element>) -> (e: Element)
    ensures
        e@ == Node::container("div"@, attribute_views(attributes@), element_views(children@)),
{
    proof {
        reveal_strlit("div");
    }
    Element::new("div", attributes, children)
}

/// `<head>`
pub fn head(attributes: Vec<Attribute>, children: Vec<Element>) -> (e: Element)
    ensures
        e@ == Node::container("head"@, attribute_views(attributes@), element_views(children@)),
{
    proof {
        reveal_strlit("head");
    }
    Element::new("head", attributes, children)
}

/// `<meta>`
pub fn meta(attributes: Vec<Attribute>) -> (e: Element)
    ensures
        e@ == Node::void("meta"@, attribute_views(attributes@)),
{
    proof {
        reveal_strlit("meta");
    }
    Element::new_void("meta", attributes)
}

/// `<meta charset="UTF-8">`; the earlier name of [`meta_charset_utf8`].
pub fn meta_charset_utf_8() -> (e: Element)
    ensures
        e@ == Node::Raw("<meta charset=\"UTF-8\">"@),
{
    raw("<meta charset=\"UTF-8\">")
}

/// `<meta charset="UTF-8">`
pub fn meta_charset_utf8() -> (e: Element)
    ensures
        e@ == Node::Raw("<meta charset=\"UTF-8\">"@),
{
    raw("<meta charset=\"UTF-8\">")
}

/// `<meta name="viewport" content="width=device-width, initial-scale=1.0">`
pub fn meta_viewport() -> (e: Element)
    ensures
        e@ == Node::Raw("<meta name=\"viewport\" content=\"width=device-width, initial-scale=1.0\">"@),
{
    raw("<meta name=\"viewport\" content=\"width=device-width, initial-scale=1.0\">")
}

/// `<meta name="color-scheme" content="{scheme}">`
pub fn meta_color_scheme(scheme: Cow<'static, str>) -> (e: Element)
    ensures
        e@ == Node::void(
            "meta"@,
            seq![Attr::text("name"@, "color-scheme"@), Attr::text("content"@, scheme@)],
        ),
{
    let mut attributes: Vec<Attribute> = Vec::new();
    attributes.push(name(Cow::Borrowed("color-scheme")));
    attributes.push(content(scheme));
    assert(attribute_views(attributes@) =~= seq![
        Attr::text("name"@, "color-scheme"@),
        Attr::text("content"@, scheme@),
    ]);
    meta(attributes)
}

/// `<link>`
pub fn link(attributes: Vec<Attribute>) -> (e: Element)
    ensures
        e@ == Node::void("link"@, attribute_views(attributes@)),
{
    proof {
        reveal_strlit("link");
    }
    Element::new_void("link", attributes)
}

/// `<link rel="stylesheet" href="{url}">`
pub fn link_stylesheet(url: Cow<'static, str>) -> (e: Element)
    ensures
        e@ == Node::void(
            "link"@,
            seq![Attr::text("rel"@, "stylesheet"@), Attr::text("href"@, url@)],
        ),
{
    let mut attributes: Vec<Attribute> = Vec::new();
    attributes.push(rel(Cow::Borrowed("stylesheet")));
    attributes.push(href(url));
    assert(attribute_views(attributes@) =~= seq![
        Attr::text("rel"@, "stylesheet"@),
        Attr::text("href"@, url@),
    ]);
    link(attributes)
}

/// `<script>`, with its source
///
/// The source is escaped for a script: it cannot close the element that it
/// stands in.
pub fn script(attributes: Vec<Attribute>, source: &'static str) -> (e: Element)
    ensures
        e@ == Node::container(
            "script"@,
            attribute_views(attributes@),
            seq![Node::ScriptBody(source@)],
        ),
{
    proof {
        reveal_strlit("script");
    }
    let mut children: Vec<Element> = Vec::new();
    children.push(Element::script_body(Cow::Borrowed(source)));
    let e = Element::new("script", attributes, children);
    assert(element_views(children@) =~= seq![Node::ScriptBody(source@)]);
    e
}

/// `<script>`, without a source of its own
pub fn script_empty(attributes: Vec<Attribute>) -> (e: Element)
    ensures
        e@ == Node::container("script"@, attribute_views(attributes@), Seq::empty()),
{
    proof {
        reveal_strlit("script");
    }
    let children: Vec<Element> = Vec::new();
    let e = Element::new("script", attributes, children);
    assert(element_views(children@) =~= Seq::empty());
    e
}

/// `<title>`, with its text
pub fn title(attributes: Vec<Attribute>, text: Cow<'static, str>) -> (e: Element)
    ensures
        e@ == Node::container("title"@, attribute_views(attributes@), seq![Node::Text(text@)]),
{
    proof {
        reveal_strlit("title");
    }
    let mut children: Vec<Element> = Vec::new();
    children.push(Element::text(text));
    let e = Element::new("title", attributes, children);
    assert(element_views(children@) =~= seq![Node::Text(text@)]);
    e
}

/// `<body>`
pub fn body(attributes: Vec<Attribute>, children: Vec<Element>) -> (e: Element)
    ensures
        e@ == Node::container("body"@, attribute_views(attributes@), element_views(children@)),
{
    proof {
        reveal_strlit("body");
    }
    Element::new("body", attributes, children)
}

/// `<hgroup>`
pub fn hgroup(attributes: Vec<Attribute>, children: Vec<Element>) -> (e: Element)
    ensures
        e@ == Node::container("hgroup"@, attribute_views(attributes@), element_views(children@)),
{
    proof {
        reveal_strlit("hgroup");
    }
    Element::new("hgroup", attributes, children)
}

/// `<h1>`
pub fn h1(attributes: Vec<Attribute>, children: Vec<Element>) -> (e: Element)
    ensures
        e@ == Node::container("h1"@, attribute_views(attributes@), element_views(children@)),
{
    proof {
        reveal_strlit("h1");
    }
    Element::new("h1", attributes, children)
}

/// `<h2>`
pub fn h2(attributes: Vec<Attribute>, children: Vec<Element>) -> (e: Element)
    ensures
        e@ == Node::container("h2"@, attribute_views(attributes@), element_views(children@)),
{
    proof {
        reveal_strlit("h2");
    }
    Element::new("h2", attributes, children)
}

/// `<h3>`
pub fn h3(attributes: Vec<Attribute>, children: Vec<Element>) -> (e: Element)
    ensures
        e@ == Node::container("h3"@, attribute_views(attributes@), element_views(children@)),
{
    proof {
        reveal_strlit("h3");
    }
    Element::new("h3", attributes, children)
}

/// `<h4>`
pub fn h4(attributes: Vec<Attribute>, children: Vec<Element>) -> (e: Element)
    ensures
        e@ == Node::container("h4"@, attribute_views(attributes@), element_views(children@)),
{
    proof {
        reveal_strlit("h4");
    }
    Element::new("h4", attributes, children)
}

/// `<h5>`
pub fn h5(attributes: Vec<Attribute>, children: Vec<Element>) -> (e: Element)
    ensures
        e@ == Node::container("h5"@, attribute_views(attributes@), element_views(children@)),
{
    proof {
        reveal_strlit("h5");
    }
    Element::new("h5", attributes, children)
}

/// `<h6>`
pub fn h6(attributes: Vec<Attribute>, children: Vec<Element>) -> (e: Element)
    ensures
        e@ == Node::container("h6"@, attribute_views(attributes@), element_views(children@)),
{
    proof {
        reveal_strlit("h6");
    }
    Element::new("h6", attributes, children)
}

/// `<p>`
pub fn p(attributes: Vec<Attribute>, children: Vec<Element>) -> (e: Element)
    ensures
        e@ == Node::container("p"@, attribute_views(attributes@), element_views(children@)),
{
    proof {
        reveal_strlit("p");
    }
    Element::new("p", attributes, children)
}

/// `<br>`
pub fn br(attributes: Vec<Attribute>) -> (e: Element)
    ensures
        e@ == Node::void("br"@, attribute_views(attributes@)),
{
    proof {
        reveal_strlit("br");
    }
    Element::new_void("br", attributes)
}

/// `<small>`
pub fn small(attributes: Vec<Attribute>, children: Vec<Element>) -> (e: Element)
    ensures
        e@ == Node::container("small"@, attribute_views(attributes@), element_views(children@)),
{
    proof {
        reveal_strlit("small");
    }
    Element::new("small", attributes, children)
}

/// `<span>`
pub fn span(attributes: Vec<Attribute>, children: Vec<Element>) -> (e: Element)
    ensures
        e@ == Node::container("span"@, attribute_views(attributes@), element_views(children@)),
{
    proof {
        reveal_strlit("span");
    }
    Element::new("span", attributes, children)
}

/// `<table>`
pub fn table(attributes: Vec<Attribute>, children: Vec<Element>) -> (e: Element)
    ensures
        e@ == Node::container("table"@, attribute_views(attributes@), element_views(children@)),
{
    proof {
        reveal_strlit("table");
    }
    Element::new("table", attributes, children)
}

/// `<tr>`
pub fn tr(attributes: Vec<Attribute>, children: Vec<Element>) -> (e: Element)
    ensures
        e@ == Node::container("tr"@, attribute_views(attributes@), element_views(children@)),
{
    proof {
        reveal_strlit("tr");
    }
    Element::new("tr", attributes, children)
}

/// `<td>`
pub fn td(attributes: Vec<Attribute>, children: Vec<Element>) -> (e: Element)
    ensures
        e@ == Node::container("td"@, attribute_views(attributes@), element_views(children@)),
{
    proof {
        reveal_strlit("td");
    }
    Element::new("td", attributes, children)
}

/// `<th>`
pub fn th(attributes: Vec<Attribute>, children: Vec<Element>) -> (e: Element)
    ensures
        e@ == Node::container("th"@, attribute_views(attributes@), element_views(children@)),
{
    proof {
        reveal_strlit("th");
    }
    Element::new("th", attributes, children)
}

/// `<thead>`
pub fn thead(attributes: Vec<Attribute>, children: Vec<Element>) -> (e: Element)
    ensures
        e@ == Node::container("thead"@, attribute_views(attributes@), element_views(children@)),
{
    proof {
        reveal_strlit("thead");
    }
    Element::new("thead", attributes, children)
}

/// `<tbody>`
pub fn tbody(attributes: Vec<Attribute>, children: Vec<Element>) -> (e: Element)
    ensures
        e@ == Node::container("tbody"@, attribute_views(attributes@), element_views(children@)),
{
    proof {
        reveal_strlit("tbody");
    }
    Element::new("tbody", attributes, children)
}

/// `<tfoot>`
pub fn tfoot(attributes: Vec<Attribute>, children: Vec<Element>) -> (e: Element)
    ensures
        e@ == Node::container("tfoot"@, attribute_views(attributes@), element_views(children@)),
{
    proof {
        reveal_strlit("tfoot");
    }
    Element::new("tfoot", attributes, children)
}

/// `<section>`
pub fn section(attributes: Vec<Attribute>, children: Vec<Element>) -> (e: Element)
    ensures
        e@ == Node::container("section"@, attribute_views(attributes@), element_views(children@)),
{
    proof {
        reveal_strlit("section");
    }
    Element::new("section", attributes, children)
}

/// `<article>`
pub fn article(attributes: Vec<Attribute>, children: Vec<Element>) -> (e: Element)
    ensures
        e@ == Node::container("article"@, attribute_views(attributes@), element_views(children@)),
{
    proof {
        reveal_strlit("article");
    }
    Element::new("article", attributes, children)
}

/// `<header>`
pub fn header(attributes: Vec<Attribute>, children: Vec<Element>) -> (e: Element)
    ensures
        e@ == Node::container("header"@, attribute_views(attributes@), element_views(children@)),
{
    proof {
        reveal_strlit("header");
    }
    Element::new("header", attributes, children)
}

/// `<main>`
pub fn main(attributes: Vec<Attribute>, children: Vec<Element>) -> (e: Element)
    ensures
        e@ == Node::container("main"@, attribute_views(attributes@), element_views(children@)),
{
    proof {
        reveal_strlit("main");
    }
    Element::new("main", attributes, children)
}

/// `<footer>`
pub fn footer(attributes: Vec<Attribute>, children: Vec<Element>) -> (e: Element)
    ensures
        e@ == Node::container("footer"@, attribute_views(attributes@), element_views(children@)),
{
    proof {
        reveal_strlit("footer");
    }
    Element::new("footer", attributes, children)
}

/// `<a>`
pub fn a(attributes: Vec<Attribute>, children: Vec<Element>) -> (e: Element)
    ensures
        e@ == Node::container("a"@, attribute_views(attributes@), element_views(children@)),
{
    proof {
        reveal_strlit("a");
    }
    Element::new("a", attributes, children)
}

/// `<img>`
pub fn img(attributes: Vec<Attribute>) -> (e: Element)
    ensures
        e@ == Node::void("img"@, attribute_views(attributes@)),
{
    proof {
        reveal_strlit("img");
    }
    Element::new_void("img", attributes)
}

/// `<ul>`
pub fn ul(attributes: Vec<Attribute>, children: Vec<Element>) -> (e: Element)
    ensures
        e@ == Node::container("ul"@, attribute_views(attributes@), element_views(children@)),
{
    proof {
        reveal_strlit("ul");
    }
    Element::new("ul", attributes, children)
}

/// `<ol>`
pub fn ol(attributes: Vec<Attribute>, children: Vec<Element>) -> (e: Element)
    ensures
        e@ == Node::container("ol"@, attribute_views(attributes@), element_views(children@)),
{
    proof {
        reveal_strlit("ol");
    }
    Element::new("ol", attributes, children)
}

/// `<li>`
pub fn li(attributes: Vec<Attribute>, children: Vec<Element>) -> (e: Element)
    ensures
        e@ == Node::container("li"@, attribute_views(attributes@), element_views(children@)),
{
    proof {
        reveal_strlit("li");
    }
    Element::new("li", attributes, children)
}

/// `<form>`
pub fn form(attributes: Vec<Attribute>, children: Vec<Element>) -> (e: Element)
    ensures
        e@ == Node::container("form"@, attribute_views(attributes@), element_views(children@)),
{
    proof {
        reveal_strlit("form");
    }
    Element::new("form", attributes, children)
}

/// `<fieldset>`
pub fn fieldset(attributes: Vec<Attribute>, children: Vec<Element>) -> (e: Element)
    ensures
        e@ == Node::container("fieldset"@, attribute_views(attributes@), element_views(children@)),
{
    proof {
        reveal_strlit("fieldset");
    }
    Element::new("fieldset", attributes, children)
}

/// `<input>`
pub fn input(attributes: Vec<Attribute>) -> (e: Element)
    ensures
        e@ == Node::void("input"@, attribute_views(attributes@)),
{
    proof {
        reveal_strlit("input");
    }
    Element::new_void("input", attributes)
}

/// `<textarea>`, with its text
pub fn textarea(attributes: Vec<Attribute>, text: Cow<'static, str>) -> (e: Element)
    ensures
        e@ == Node::container("textarea"@, attribute_views(attributes@), seq![Node::Text(text@)]),
{
    proof {
        reveal_strlit("textarea");
    }
    let mut children: Vec<Element> = Vec::new();
    children.push(Element::text(text));
    let e = Element::new("textarea", attributes, children);
    assert(element_views(children@) =~= seq![Node::Text(text@)]);
    e
}

/// `<select>`
pub fn select(attributes: Vec<Attribute>, children: Vec<Element>) -> (e: Element)
    ensures
        e@ == Node::container("select"@, attribute_views(attributes@), element_views(children@)),
{
    proof {
        reveal_strlit("select");
    }
    Element::new("select", attributes, children)
}

/// `<option>`
pub fn option(attributes: Vec<Attribute>, children: Vec<Element>) -> (e: Element)
    ensures
        e@ == Node::container("option"@, attribute_views(attributes@), element_views(children@)),
{
    proof {
        reveal_strlit("option");
    }
    Element::new("option", attributes, children)
}

/// `<button>`
pub fn button(attributes: Vec<Attribute>, children: Vec<Element>) -> (e: Element)
    ensures
        e@ == Node::container("button"@, attribute_views(attributes@), element_views(children@)),
{
    proof {
        reveal_strlit("button");
    }
    Element::new("button", attributes, children)
}

/// `<label>`
pub fn label(attributes: Vec<Attribute>, children: Vec<Element>) -> (e: Element)
    ensures
        e@ == Node::container("label"@, attribute_views(attributes@), element_views(children@)),
{
    proof {
        reveal_strlit("label");
    }
    Element::new("label", attributes, children)
}

/// Text, which is escaped when it is written.
pub fn text(value: Cow<'static, str>) -> (e: Element)
    ensures
        e@ == Node::Text(value@),
{
    Element::text(value)
}

/// Markup that is written as it is, without escaping.
///
/// The markup has to be known when the program is compiled, and is trusted
/// for that reason. For markup that is made at run time see [`raw_unsafe`].
pub fn raw(html: &'static str) -> (e: Element)
    ensures
        e@ == Node::Raw(html@),
{
    Element::raw(Cow::Borrowed(html))
}

/// Markup that is written as it is, without escaping.
///
/// Nothing protects the output from what `html` holds: whoever calls this
/// answers for it. For markup that is known at compile time see [`raw`].
pub fn raw_unsafe(html: String) -> (e: Element)
    ensures
        e@ == Node::Raw(html@),
{
    Element::raw(Cow::Owned(html))
}

} // verus!
