use plot_helper::document::{Collapsable, Content, ContentElement, Element, Ir, ListElement, Text, TextContent};
use plot_helper::html::{format_title, ToHtmlDepth, ToTableOfContent};
use plot_helper::presentation::{Array, TextLink};

fn anchor_in(html: &str, prefix: &str) -> String {
    let start = html.find(prefix).expect("no anchor") + prefix.len();
    let rest = &html[start..];
    rest[..rest.find('"').unwrap()].to_string()
}

#[test]
fn format_title_replaces_underscores() {
    assert_eq!(format_title("a_b__c"), "a b  c");
    assert_eq!(format_title("plain"), "plain");
}

#[test]
fn text_html_turns_newlines_into_breaks() {
    let t = Text::from(vec![
        TextContent::from("one\ntwo ".to_string()),
        TextContent::from(TextLink::new("u".to_string(), "l".to_string())),
    ]);
    assert_eq!(t.to_html(1), "one<br>two <a href=\"u\">l</a>");
}

#[test]
fn collapsable_html() {
    let c = Collapsable::new("sum".to_string(), vec![TextContent::Raw("x".to_string())]);
    let expected = "<details><summary>sum</summary>x</details>";
    assert_eq!(c.to_html(2), expected);
    assert_eq!(TextContent::Collapsable(c).to_html(2), expected);
    let k = Collapsable::new("s".to_string(), vec![Content::new_image("a.png")]);
    assert_eq!(Content::from(k).to_html(1), "<details><summary>s</summary><img src=\"a.png\"/></details>");
}

#[test]
fn content_html_variants() {
    assert_eq!(Content::new_image("p/i.png").to_html(1), "<img src=\"p/i.png\"/>");
    let a = Array::new(vec!["h".to_string()], vec![]);
    assert_eq!(
        Content::from(a).to_html(1),
        "<table class=\"custom-table\"><thead><tr><th>h</th></tr></thead><tbody></tbody></table>"
    );
}

#[test]
fn element_heading_and_toc_share_anchor() {
    let inner = Element::new("sub_part".to_string(), vec![ContentElement::from(Content::new_image("i.png"))]);
    let e = Element::new("top".to_string(), vec![ContentElement::from(inner)]);
    let html = e.to_html(1);
    assert!(html.starts_with("<h1 id=\""));
    assert!(html.contains("\">top</h1><h2 id=\""));
    assert!(html.ends_with("\">sub part</h2><img src=\"i.png\"/>"));
    let toc = e.get_table_of_content(1);
    assert!(toc.starts_with("<li><a href=\"#"));
    assert!(toc.contains("\">- top</a></li><ul><li><a href=\"#"));
    assert!(toc.ends_with("\">- sub part</a></li><ul></ul></ul>"));
    assert_eq!(anchor_in(&html, "<h1 id=\""), anchor_in(&toc, "<li><a href=\"#"));
    assert_eq!(anchor_in(&html, "<h2 id=\""), anchor_in(&toc, "<ul><li><a href=\"#"));
    assert!(anchor_in(&html, "<h1 id=\"").chars().all(|c| c.is_ascii_digit()));
}

#[test]
fn list_html_joins_with_newlines() {
    let mut list = ListElement::default();
    assert_eq!(list.to_html(1), "");
    assert_eq!(list.get_table_of_content(1), "");
    list.add_element(Element::new("a".to_string(), vec![]));
    list.add_element(Element::new("b".to_string(), vec![]));
    let html = list.to_html(1);
    assert_eq!(html.matches('\n').count(), 1);
    assert!(html.contains("\">a</h1>\n<h1 id=\""));
    let toc = list.get_table_of_content(1);
    assert!(toc.starts_with("<ul><li>") && toc.ends_with("- b</a></li></ul>"));
    assert_eq!(list.get_elements().len(), 2);
}

#[test]
fn content_only_items_have_no_toc_entry() {
    let c = ContentElement::from(Content::new_image("x.png"));
    assert_eq!(c.get_table_of_content(3), "");
    let e = Element::new("t".to_string(), vec![]);
    assert_eq!(e.get_title(), "t");
    assert!(e.get_content().is_empty());
}

#[test]
fn ir_fills_template_markers() {
    let mut ir = Ir::default();
    ir.add_element(Element::new("only".to_string(), vec![]));
    let page = ir.to_html("<nav><!--table of contents--></nav><main><!--contents--></main>");
    let toc = ir.get_elements().get_table_of_content(1);
    let body = ir.get_elements().to_html(1);
    assert_eq!(page, format!("<nav>{}</nav><main>{}</main>", toc, body));
    let mut more = ListElement::from(vec![Element::new("x".to_string(), vec![])]);
    more.add_elements(ListElement::from(vec![Element::new("y".to_string(), vec![])]));
    ir.add_elements(more);
    assert_eq!(ir.get_elements().get_elements().len(), 3);
}
