use fun_html::names::{char_is_whitespace, is_valid_name};
use fun_html::{attr, elt, Attribute, Element};

#[test]
fn names_with_whitespace_or_nothing_are_invalid() {
    for name in ["hello world", "hello\tworld", "hello\nworld", ""] {
        assert!(!is_valid_name(name), "{name:?}");
    }
    for name in [" ", "a ", " a", "a\u{a0}b", "a\u{2003}b", "a\u{3000}", "\r"] {
        assert!(!is_valid_name(name), "{name:?}");
    }
}

#[test]
fn names_without_whitespace_are_valid() {
    for name in [
        "div",
        "h1",
        "x-on:keyup.enter",
        "@keyup.enter",
        "my-component",
        "a",
        "<",
        "é",
        "a\u{200b}b",
        "a\u{180e}b",
    ] {
        assert!(is_valid_name(name), "{name:?}");
    }
}

#[test]
fn whitespace_is_what_the_standard_library_calls_whitespace() {
    for code in 0..=0x10FFFFu32 {
        if let Some(c) = char::from_u32(code) {
            assert_eq!(char_is_whitespace(c), c.is_whitespace(), "U+{code:04X}");
        }
    }
}

#[test]
fn checked_names_make_elements_and_attributes() {
    let tag = "section";
    assert!(is_valid_name(tag));
    assert_eq!(Element::new(tag, vec![], vec![]).to_string(), "<section></section>");
    assert_eq!(Element::new_void("hr", vec![]).to_string(), "<hr>");
    assert_eq!(
        Attribute::new("data-x", "1".into()).to_string(),
        "data-x=\"1\""
    );
    assert_eq!(Attribute::new_int("tabindex", -1).to_string(), "tabindex=\"-1\"");
    assert_eq!(Attribute::new_flag("hidden").to_string(), "hidden");
}

#[test]
fn an_unchecked_name_is_written_as_it_is() {
    let a = Attribute::new_unsafe_name("data key".to_string().into(), "<v>".into());
    assert_eq!(a.to_string(), "data key=\"&lt;v&gt;\"");
}

#[test]
fn an_omitted_attribute_leaves_no_trace() {
    assert!(attr::none().is_omitted());
    assert!(!attr::required().is_omitted());
    assert_eq!(attr::none().to_string(), "");
    assert_eq!(elt::div(vec![attr::none()], vec![]).to_string(), "<div></div>");
    assert_eq!(
        elt::div(
            vec![attr::none(), attr::id("a".into()), attr::none(), attr::required()],
            vec![]
        )
        .to_string(),
        "<div id=\"a\" required></div>"
    );
    assert_eq!(elt::br(vec![attr::none()]).to_string(), "<br>");
}

#[test]
fn children_keep_their_order() {
    let e = elt::ul(
        vec![],
        vec![
            elt::li(vec![], vec!["1".into()]),
            elt::none(),
            elt::li(vec![], vec!["2".into()]),
            vec![elt::li(vec![], vec!["3".into()]), elt::text("!".into())].into(),
        ],
    );
    assert_eq!(e.to_string(), "<ul><li>1</li><li>2</li><li>3</li>!</ul>");
}

#[test]
fn attributes_keep_their_order() {
    let e = elt::input(vec![
        attr::name("n".into()),
        attr::type_number(),
        attr::minlength_u16(3),
        attr::maxlength_u16(65535),
        attr::required(),
    ]);
    assert_eq!(
        e.to_string(),
        "<input name=\"n\" type=\"number\" minlength=\"3\" maxlength=\"65535\" required>"
    );
}

#[test]
fn conversions_give_text_and_fragments() {
    let from_str: Element = "a<b".into();
    assert_eq!(from_str.to_string(), "a&lt;b");
    let from_string: Element = String::from("a&b").into();
    assert_eq!(from_string.to_string(), "a&amp;b");
    let from_cow: Element = std::borrow::Cow::Borrowed("a>b").into();
    assert_eq!(from_cow.to_string(), "a&gt;b");
    let from_vec: Element = vec![elt::br(vec![]), "x".into()].into();
    assert_eq!(from_vec.to_string(), "<br>x");
    let from_array: Element = [elt::br(vec![]), "y".into(), elt::br(vec![])].into();
    assert_eq!(from_array.to_string(), "<br>y<br>");
    let from_empty_array: Element = ([] as [Element; 0]).into();
    assert_eq!(from_empty_array.to_string(), "");
}

#[test]
fn a_copy_is_written_as_the_original() {
    let e = elt::div(
        vec![attr::id("a".into()), attr::width_int(3), attr::defer(), attr::none()],
        vec![
            elt::text("t<".into()),
            elt::raw("<i>r</i>"),
            elt::script(vec![], "s</script>"),
            elt::img(vec![attr::src("x".to_string().into())]),
            vec![elt::none(), elt::p(vec![], vec![])].into(),
        ],
    );
    let copy = e.clone();
    assert_eq!(copy.to_string(), e.to_string());
    assert_eq!(
        copy.to_string(),
        "<div id=\"a\" width=\"3\" defer>t&lt;<i>r</i><script>s<\\/script></script><img src=\"x\"><p></p></div>"
    );
    let a = attr::target(attr::AnchorTarget::Frame("f".into()).clone());
    assert_eq!(a.clone().to_string(), "target=\"f\"");
    let doc = fun_html::html(vec![attr::lang("en".into())], vec![]);
    assert_eq!(doc.clone().to_string(), doc.to_string());
}

#[test]
fn writing_appends_to_what_is_there() {
    let mut out = String::from("[");
    elt::p(vec![], vec!["x".into()]).fmt(&mut out);
    attr::id("i".into()).fmt(&mut out);
    fun_html::Document::default().fmt(&mut out);
    fun_html::element::write_attributes(&mut out, &vec![attr::id("j".into()), attr::none()]);
    assert_eq!(
        out,
        "[<p>x</p>id=\"i\"<!DOCTYPE html>\n<html><head></head><body></body></html> id=\"j\""
    );
}

#[test]
fn classes_are_joined_by_spaces() {
    assert_eq!(attr::class(vec![]).to_string(), "class=\"\"");
    assert_eq!(attr::class(vec!["a"]).to_string(), "class=\"a\"");
    assert_eq!(
        attr::class(vec!["foo", "bar", "baz"]).to_string(),
        "class=\"foo bar baz\""
    );
    assert_eq!(attr::class(vec!["", "x", ""]).to_string(), "class=\" x \"");
    assert_eq!(attr::class(vec!["a\"b"]).to_string(), "class=\"a&quot;b\"");
}
