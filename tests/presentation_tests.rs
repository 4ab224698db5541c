use plot_helper::correctness::CorrectnessStatsWrapper;
use plot_helper::html::ToHtmlDepth;
use plot_helper::palette::CustomPalette;
use plot_helper::presentation::{Array, TableError, TextLink};

#[test]
fn text_link_getters_and_html() {
    let l = TextLink::new("http://x.org".to_string(), "site".to_string());
    assert_eq!(l.get_href(), "http://x.org");
    assert_eq!(l.get_text(), "site");
    assert_eq!(l.html(), "<a href=\"http://x.org\">site</a>");
    assert_eq!(l.to_html(3), "<a href=\"http://x.org\">site</a>");
}

#[test]
fn array_html_spaces_header_titles() {
    let a = Array::new(
        vec!["first_name".to_string(), "b".to_string()],
        vec![vec!["1_2".to_string(), "2".to_string()]],
    );
    assert_eq!(a.get_header(), &vec!["first_name".to_string(), "b".to_string()]);
    assert_eq!(a.get_data().len(), 1);
    assert_eq!(
        a.to_html(1),
        "<table class=\"custom-table\"><thead><tr><th>first name</th><th>b</th></tr></thead><tbody><tr><td>1_2</td><td>2</td></tr></tbody></table>"
    );
}

#[test]
fn array_from_csv_text() {
    let a = Array::from_csv("a,b,c\n1,2,3\n4,5,6\n").unwrap();
    assert_eq!(a.get_header(), &vec!["a".to_string(), "b".to_string(), "c".to_string()]);
    assert_eq!(
        a.get_data(),
        &vec![
            vec!["1".to_string(), "2".to_string(), "3".to_string()],
            vec!["4".to_string(), "5".to_string(), "6".to_string()],
        ]
    );
    let empty = Array::from_csv("").unwrap();
    assert!(empty.get_header().is_empty());
    assert!(empty.get_data().is_empty());
}

#[test]
fn array_from_malformed_csv() {
    assert_eq!(Array::from_csv("a,b\n1\n").err(), Some(TableError::Malformed));
}

#[test]
fn array_from_records_skips_leading_empty() {
    let a = Array::from_records(vec![vec![], vec!["h".to_string()], vec!["v".to_string()], vec![]]);
    assert_eq!(a.get_header(), &vec!["h".to_string()]);
    assert_eq!(a.get_data(), &vec![vec!["v".to_string()], vec![]]);
}

#[test]
fn palette_cycles() {
    assert_eq!(CustomPalette::pick(0), (230, 25, 75));
    assert_eq!(CustomPalette::pick(20), (0, 0, 0));
    assert_eq!(CustomPalette::pick(21), (230, 25, 75));
    assert_eq!(CustomPalette::colors().len(), 21);
}

#[test]
fn correctness_counts_and_sum() {
    let a = CorrectnessStatsWrapper::new(5, 2, 1, 7);
    assert_eq!(a.get_total_sample(), 15);
    assert_eq!(a.get_true_positive(), 5);
    assert_eq!(a.get_false_positive(), 2);
    assert_eq!(a.get_false_negative(), 1);
    assert_eq!(a.get_true_negative(), 7);
    let b = a.ref_add(&CorrectnessStatsWrapper::new(1, 1, 1, 1));
    assert_eq!(b.get_total_sample(), 19);
    assert_eq!(b.get_true_positive(), 6);
    let headers = CorrectnessStatsWrapper::get_headers();
    assert_eq!(headers[0], "total sample");
    assert_eq!(headers[8], "accuracy");
}
