use fun_html::elt::div;
use fun_html::html;
use salvo::prelude::{Response, Text};

#[test]
fn document_should_set_content_type() {
    let mut doc_resp = Response::new();
    doc_resp.render(Text::Html(html(vec![], vec![]).to_string()));
    assert_eq!(
        doc_resp.content_type(),
        Some("text/html; charset=utf-8".parse().unwrap())
    );
}

#[test]
fn element_should_set_content_type() {
    let mut doc_resp = Response::new();
    doc_resp.render(Text::Html(div(vec![], vec![]).to_string()));
    assert_eq!(
        doc_resp.content_type(),
        Some("text/html; charset=utf-8".parse().unwrap())
    );
}
