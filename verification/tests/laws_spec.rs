use fun_html::{attr, elt, html, Attribute, Document, Element};

/// The number of indices at which `pattern` stands in `text`.
fn count(text: &str, pattern: &str) -> usize {
    (0..text.len())
        .filter(|i| text.is_char_boundary(*i) && text[*i..].starts_with(pattern))
        .count()
}

fn count_opening(text: &str, name: &str) -> usize {
    count(text, &format!("<{name}>")) + count(text, &format!("<{name} "))
}

fn count_closing(text: &str, name: &str) -> usize {
    count(text, &format!("</{name}>"))
}

fn sample_tree() -> Element {
    elt::div(
        vec![attr::id("outer".into()), attr::class(vec!["a", "b"])],
        vec![
            elt::a(
                vec![attr::href("/x?<div>=1".into())],
                vec![elt::text("</div> and <div>".into())],
            ),
            elt::div(vec![], vec![elt::div(vec![attr::none()], vec![]), elt::br(vec![])]),
            vec![
                elt::p(vec![], vec!["<p>".into()]),
                elt::none(),
                elt::div(vec![attr::width_int(-3)], vec![]),
            ]
            .into(),
            elt::img(vec![attr::alt("<img>".into())]),
        ],
    )
}

#[test]
fn a_void_element_has_no_closing_tag() {
    let cases = [
        (elt::img(vec![]), "img"),
        (
            elt::img(vec![attr::src("<img src=\"</img>\">".into()), attr::alt("</img>".into())]),
            "img",
        ),
        (elt::br(vec![attr::none()]), "br"),
        (elt::input(vec![attr::required(), attr::width_int(3)]), "input"),
        (elt::meta(vec![attr::charset_utf8()]), "meta"),
        (elt::link_stylesheet("/link".into()), "link"),
        (Element::new_void("/", vec![]), "/"),
        (Element::new_void("<<", vec![]), "<<"),
        (Element::new_void("a<a", vec![attr::id("a<a".into())]), "a<a"),
    ];
    for (element, tag) in cases {
        let text = element.to_string();
        assert_eq!(count(&text, &format!("<{tag}")), 1, "{text}");
        assert_eq!(count(&text, &format!("</{tag}>")), 0, "{text}");
        assert!(text.ends_with('>'));
    }
}

#[test]
fn an_attribute_name_with_markup_can_break_a_void_element() {
    let text = elt::img(vec![Attribute::new_flag("<img")]).to_string();
    assert_eq!(text, "<img <img>");
    assert_eq!(count(&text, "<img"), 2);
    let text = elt::img(vec![Attribute::new_flag("</img>")]).to_string();
    assert_eq!(count(&text, "</img>"), 1);
}

#[test]
fn the_tags_of_containers_balance() {
    let text = sample_tree().to_string();
    assert_eq!(
        text,
        "<div id=\"outer\" class=\"a b\"><a href=\"/x?&lt;div&gt;=1\">&lt;/div&gt; and &lt;div&gt;</a><div><div></div><br></div><p>&lt;p&gt;</p><div width=\"-3\"></div><img alt=\"&lt;img&gt;\"></div>"
    );
    for (name, containers, voids) in [
        ("div", 4, 0),
        ("a", 1, 0),
        ("p", 1, 0),
        ("br", 0, 1),
        ("img", 0, 1),
        ("span", 0, 0),
        ("di", 0, 0),
    ] {
        assert_eq!(count_opening(&text, name), containers + voids, "{name}");
        assert_eq!(count_closing(&text, name), containers, "{name}");
    }
}

#[test]
fn a_tag_that_begins_another_is_not_counted_for_it() {
    let text = elt::a(vec![], vec![Element::new("abbr", vec![], vec![])]).to_string();
    assert_eq!(text, "<a><abbr></abbr></a>");
    assert_eq!(count_opening(&text, "a"), 1);
    assert_eq!(count_closing(&text, "a"), 1);
    assert_eq!(count(&text, "<a"), 2);
}

#[test]
fn the_children_of_a_container_stand_between_its_tags() {
    let children = || vec![elt::p(vec![], vec!["x".into()]), elt::span(vec![], vec![])];
    let inner = Element::from(children()).to_string();
    let text = elt::section(vec![attr::id("s".into())], children()).to_string();
    assert_eq!(text, format!("<section id=\"s\">{inner}</section>"));
    for name in ["p", "span", "section"] {
        assert_eq!(count_opening(&inner, name), count_closing(&inner, name));
    }
}

#[test]
fn a_flag_has_no_value() {
    assert_eq!(attr::required().to_string(), "required");
    assert_eq!(Attribute::new_flag("required").to_string(), "required");
    assert_ne!(attr::required().to_string(), "required=\"\"");
    assert_eq!(
        elt::input(vec![attr::required()]).to_string(),
        "<input required>"
    );
}

#[test]
fn a_script_cannot_close_its_element() {
    let text = elt::script(vec![], "alert('</script>');").to_string();
    assert_eq!(count(&text, "</script>"), 1);
    assert!(text.ends_with("</script>"));
    let body = &text["<script>".len()..text.len() - "</script>".len()];
    assert!(!body.contains("</script>"));
    assert!(!body.to_lowercase().contains("</script"));
}

#[test]
fn a_document_is_framed() {
    let documents: Vec<Document> = vec![
        Document::default(),
        html(vec![], vec![]),
        html(vec![attr::lang("en".into())], vec![elt::body(vec![], vec!["</html>".into()])]),
        html(
            vec![attr::none()],
            vec![elt::head(vec![], vec![elt::meta_viewport()]), sample_tree()],
        ),
    ];
    for document in documents {
        let text = document.to_string();
        assert!(text.starts_with("<!DOCTYPE html>\n<html"), "{text}");
        assert!(text.ends_with("</html>"), "{text}");
        assert_eq!(count_opening(&text, "html"), 1, "{text}");
        assert_eq!(count_closing(&text, "html"), 1, "{text}");
        assert_eq!(text, document.to_string());
    }
}

#[test]
fn an_empty_document_has_no_head_and_no_body() {
    assert_eq!(html(vec![], vec![]).to_string(), "<!DOCTYPE html>\n<html></html>");
}

#[test]
fn scenarios() {
    assert_eq!(Element::new("div", vec![], vec![]).to_string(), "<div></div>");
    assert_eq!(
        Element::new(
            "h1",
            vec![Attribute::new("class", "underlined blue".into())],
            vec![elt::text("Hello world!".into())]
        )
        .to_string(),
        "<h1 class=\"underlined blue\">Hello world!</h1>"
    );
    assert_eq!(
        Element::new_void(
            "img",
            vec![Attribute::new("src", "foo".into()), Attribute::new("alt", "bar".into())]
        )
        .to_string(),
        "<img src=\"foo\" alt=\"bar\">"
    );
    assert_eq!(
        elt::text("<script>alert('hi');</script>".into()).to_string(),
        "&lt;script&gt;alert('hi');&lt;/script&gt;"
    );
    assert_eq!(
        Document::default().to_string(),
        "<!DOCTYPE html>\n<html><head></head><body></body></html>"
    );
    assert_eq!(
        Element::from(vec![
            Element::new("div", vec![], vec![]),
            Element::new("div", vec![], vec![])
        ])
        .to_string(),
        "<div></div><div></div>"
    );
}
