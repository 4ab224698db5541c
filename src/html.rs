use vstd::prelude::*;
use vstd::string::*;
use std::hash::{Hash, Hasher};
use crate::document::{Collapsable, Content, ContentElement, Element, ListElement, Text, TextContent};
use crate::presentation::{Array, TextLink};

verus! {

/// Conversion of a presentation item to HTML, at a heading depth.
pub trait ToHtmlDepth {
    fn to_html(&self, depth: usize) -> String;
}

/// Table-of-contents entries of a presentation item, at a heading depth.
pub trait ToTableOfContent {
    fn get_table_of_content(&self, depth: usize) -> String;
}

/// `s` with each occurrence of `from`, found scanning left to right without overlap,
/// replaced by `to`.
pub open spec fn replaced(s: Seq<char>, from: Seq<char>, to: Seq<char>) -> Seq<char>
    decreases s.len(),
{
    if from.len() == 0 || s.len() < from.len() {
        s
    } else if s.subrange(0, from.len() as int) == from {
        to + replaced(s.subrange(from.len() as int, s.len() as int), from, to)
    } else {
        seq![s[0]] + replaced(s.drop_first(), from, to)
    }
}

/// Relies on str::replace: every non-overlapping occurrence of `from`, scanning from
/// the left, replaced by `to`.
#[verifier::external_body]
fn replace_text(s: &str, from: &str, to: &str) -> (r: String)
    requires
        from@.len() > 0,
    ensures
        r@ == replaced(s@, from@, to@),
{
    s.replace(from, to)
}

/// `s` with every underscore shown as a space.
pub open spec fn spaced(s: Seq<char>) -> Seq<char> {
    replaced(s, "_"@, " "@)
}

/// A title as shown: underscores become spaces.
pub fn format_title(title: &str) -> (r: String)
    ensures
        r@ == spaced(title@),
{
    proof {
        reveal_strlit("_");
    }
    replace_text(title, "_", " ")
}

/// HTML of a link.
pub open spec fn link_html(href: Seq<char>, text: Seq<char>) -> Seq<char> {
    "<a href=\""@ + href + "\">"@ + text + "</a>"@
}

/// Header cells of a table: each title with underscores shown as spaces.
pub open spec fn header_cells_html(h: Seq<Seq<char>>) -> Seq<char>
    decreases h.len(),
{
    if h.len() == 0 {
        Seq::empty()
    } else {
        header_cells_html(h.drop_last()) + "<th>"@ + spaced(h.last()) + "</th>"@
    }
}

/// Data cells of one row.
pub open spec fn cells_html(row: Seq<Seq<char>>) -> Seq<char>
    decreases row.len(),
{
    if row.len() == 0 {
        Seq::empty()
    } else {
        cells_html(row.drop_last()) + "<td>"@ + row.last() + "</td>"@
    }
}

/// Data rows of a table.
pub open spec fn rows_html(rows: Seq<Seq<Seq<char>>>) -> Seq<char>
    decreases rows.len(),
{
    if rows.len() == 0 {
        Seq::empty()
    } else {
        rows_html(rows.drop_last()) + "<tr>"@ + cells_html(rows.last()) + "</tr>"@
    }
}

/// HTML of a table with a header row and data rows.
pub open spec fn table_html(header: Seq<Seq<char>>, rows: Seq<Seq<Seq<char>>>) -> Seq<char> {
    "<table class=\"custom-table\"><thead><tr>"@ + header_cells_html(header)
        + "</tr></thead><tbody>"@ + rows_html(rows) + "</tbody></table>"@
}

impl TextLink {
    /// `<a href="HREF">TEXT</a>`.
    pub fn html(&self) -> (r: String)
        ensures
            r@ == link_html(self.href(), self.text()),
    {
        let mut r = String::from_str("<a href=\"");
        r.append(self.get_href().as_str());
        r.append("\">");
        r.append(self.get_text().as_str());
        r.append("</a>");
        r
    }
}

impl ToHtmlDepth for TextLink {
    fn to_html(&self, depth: usize) -> String {
        self.html()
    }
}

impl ToHtmlDepth for String {
    fn to_html(&self, depth: usize) -> String {
        self.clone()
    }
}

/// Header cells for the titles `h`.
fn header_cells(h: &Vec<String>) -> (r: String)
    ensures
        r@ == header_cells_html(h@.map_values(|s: String| s@)),
{
    let ghost hv = h@.map_values(|s: String| s@);
    let mut r = String::new();
    let mut i: usize = 0;
    while i < h.len()
        invariant
            hv == h@.map_values(|s: String| s@),
            i <= h@.len(),
            r@ == header_cells_html(hv.subrange(0, i as int)),
        decreases h@.len() - i,
    {
        let t = format_title(h[i].as_str());
        r.append("<th>");
        r.append(t.as_str());
        r.append("</th>");
        proof {
            assert(hv.subrange(0, i + 1).drop_last() =~= hv.subrange(0, i as int));
        }
        i += 1;
    }
    assert(hv.subrange(0, h@.len() as int) =~= hv);
    r
}

/// Data cells of one row.
fn row_cells(row: &Vec<String>) -> (r: String)
    ensures
        r@ == cells_html(row@.map_values(|s: String| s@)),
{
    let ghost rv = row@.map_values(|s: String| s@);
    let mut r = String::new();
    let mut i: usize = 0;
    while i < row.len()
        invariant
            rv == row@.map_values(|s: String| s@),
            i <= row@.len(),
            r@ == cells_html(rv.subrange(0, i as int)),
        decreases row@.len() - i,
    {
        r.append("<td>");
        r.append(row[i].as_str());
        r.append("</td>");
        proof {
            assert(rv.subrange(0, i + 1).drop_last() =~= rv.subrange(0, i as int));
        }
        i += 1;
    }
    assert(rv.subrange(0, row@.len() as int) =~= rv);
    r
}

impl Array {
    /// The table as an HTML `<table>`: header titles with underscores shown as spaces,
    /// data cells as they are.
    pub fn html(&self) -> (r: String)
        ensures
            r@ == table_html(self.header(), self.data()),
    {
        let header = self.get_header();
        let data = self.get_data();
        let ghost dv = self.data();
        let mut r = String::from_str("<table class=\"custom-table\"><thead><tr>");
        let h = header_cells(header);
        r.append(h.as_str());
        r.append("</tr></thead><tbody>");
        let ghost before = r@;
        let mut i: usize = 0;
        while i < data.len()
            invariant
                dv == crate::presentation::rows_view(data@),
                i <= data@.len(),
                r@ == before + rows_html(dv.subrange(0, i as int)),
            decreases data@.len() - i,
        {
            let cells = row_cells(&data[i]);
            r.append("<tr>");
            r.append(cells.as_str());
            r.append("</tr>");
            proof {
                assert(dv.subrange(0, i + 1).drop_last() =~= dv.subrange(0, i as int));
                assert(dv[i as int] == data@[i as int]@.map_values(|s: String| s@));
            }
            i += 1;
        }
        r.append("</tbody></table>");
        assert(dv.subrange(0, data@.len() as int) =~= dv);
        r
    }
}

impl ToHtmlDepth for Array {
    fn to_html(&self, depth: usize) -> String {
        self.html()
    }
}

/// Decimal digit for `d < 10`.
pub open spec fn digit_char(d: nat) -> char {
    if d == 0 { '0' } else if d == 1 { '1' } else if d == 2 { '2' } else if d == 3 { '3' }
    else if d == 4 { '4' } else if d == 5 { '5' } else if d == 6 { '6' } else if d == 7 { '7' }
    else if d == 8 { '8' } else { '9' }
}

/// Decimal notation of `n`, without leading zeros.
pub open spec fn decimal(n: nat) -> Seq<char>
    decreases n,
{
    if n < 10 {
        seq![digit_char(n)]
    } else {
        decimal(n / 10).push(digit_char(n % 10))
    }
}

/// Relies on the `Display` of u64 (through `to_string`): its decimal notation.
#[verifier::external_body]
fn decimal_text(n: u64) -> (r: String)
    ensures
        r@ == decimal(n as nat),
{
    n.to_string()
}

/// What std's `DefaultHasher`, freshly made, yields for a string.
pub uninterp spec fn text_hash_of(s: Seq<char>) -> u64;

/// Relies on std::hash::DefaultHasher::new, whose instances all start alike, hashing a
/// `str`: the result depends on the text alone.
#[verifier::external_body]
fn text_hash(s: &str) -> (r: u64)
    ensures
        r == text_hash_of(s@),
{
    let mut hasher = std::collections::hash_map::DefaultHasher::new();
    s.hash(&mut hasher);
    hasher.finish()
}

/// `s` with each line break shown as `<br>`.
pub open spec fn breaks_to_html(s: Seq<char>) -> Seq<char> {
    replaced(s, "\n"@, "<br>"@)
}

/// A block that folds `inner` away under `summary`.
pub open spec fn details_html(summary: Seq<char>, inner: Seq<char>) -> Seq<char> {
    "<details><summary>"@ + summary + "</summary>"@ + inner + "</details>"@
}

pub open spec fn text_content_html(t: TextContent) -> Seq<char>
    decreases t, 0int,
{
    match t {
        TextContent::Raw(s) => s@,
        TextContent::Link(l) => link_html(l.href(), l.text()),
        TextContent::Collapsable(c) => details_html(
            c.summary@,
            text_contents_html(c.content@, c.content@.len() as int),
        ),
    }
}

/// HTML of the first `i` text pieces, one after the other.
pub open spec fn text_contents_html(items: Seq<TextContent>, i: int) -> Seq<char>
    decreases items, i,
{
    if i <= 0 || i > items.len() {
        Seq::empty()
    } else {
        text_contents_html(items, i - 1) + text_content_html(items[i - 1])
    }
}

/// HTML of a text: its pieces one after the other, line breaks shown as `<br>`.
pub open spec fn text_html(t: Text) -> Seq<char> {
    breaks_to_html(text_contents_html(t.0@, t.0@.len() as int))
}

pub open spec fn image_html(path: Seq<char>) -> Seq<char> {
    "<img src=\""@ + path + "\"/>"@
}

pub open spec fn content_html(c: Content) -> Seq<char>
    decreases c, 0int,
{
    match c {
        Content::Text(t) => text_html(t),
        Content::Image(s) => image_html(s@),
        Content::Array(a) => table_html(a.header(), a.data()),
        Content::Collapsable(k) => details_html(k.summary@, contents_html(k.content@, k.content@.len() as int)),
    }
}

/// HTML of the first `i` pieces of content, one after the other.
pub open spec fn contents_html(items: Seq<Content>, i: int) -> Seq<char>
    decreases items, i,
{
    if i <= 0 || i > items.len() {
        Seq::empty()
    } else {
        contents_html(items, i - 1) + content_html(items[i - 1])
    }
}

/// The heading depth of a section's children.
pub open spec fn deeper(depth: nat) -> nat {
    if depth < usize::MAX { depth + 1 } else { depth }
}

/// Anchor of a section: the hash of its title followed by the HTML of what it holds.
pub open spec fn anchor_of(title: Seq<char>, inner: Seq<char>) -> Seq<char> {
    decimal(text_hash_of(title + inner) as nat)
}

/// HTML of a section at heading depth `depth`: a heading carrying its anchor, then what
/// it holds, one level deeper.
pub open spec fn element_html(e: Element, depth: nat) -> Seq<char>
    decreases e, 0int,
{
    let inner = content_elements_html(e.content@, e.content@.len() as int, deeper(depth));
    "<h"@ + decimal(depth) + " id=\""@ + anchor_of(e.title@, inner) + "\">"@ + spaced(e.title@)
        + "</h"@ + decimal(depth) + ">"@ + inner
}

pub open spec fn content_element_html(c: ContentElement, depth: nat) -> Seq<char>
    decreases c, 0int,
{
    match c {
        ContentElement::Content(k) => content_html(k),
        ContentElement::Element(e) => element_html(e, depth),
    }
}

/// HTML of the first `i` items of a section, one after the other.
pub open spec fn content_elements_html(items: Seq<ContentElement>, i: int, depth: nat) -> Seq<char>
    decreases items, i,
{
    if i <= 0 || i > items.len() {
        Seq::empty()
    } else {
        content_elements_html(items, i - 1, depth) + content_element_html(items[i - 1], depth)
    }
}

/// HTML of the first `i` sections, separated by line breaks.
pub open spec fn elements_html(items: Seq<Element>, i: int, depth: nat) -> Seq<char>
    decreases i,
{
    if i <= 0 || i > items.len() {
        Seq::empty()
    } else if i == 1 {
        element_html(items[0], depth)
    } else {
        elements_html(items, i - 1, depth) + "\n"@ + element_html(items[i - 1], depth)
    }
}

/// Table-of-contents entry of a section: a link to its anchor, then the entries of
/// its subsections in a nested list.
pub open spec fn element_toc(e: Element, depth: nat) -> Seq<char>
    decreases e, 0int,
{
    let n = e.content@.len() as int;
    let inner = content_elements_html(e.content@, n, deeper(depth));
    let head = "<li><a href=\"#"@ + anchor_of(e.title@, inner) + "\">- "@ + spaced(e.title@)
        + "</a></li>"@;
    if n > 0 {
        head + "<ul>"@ + content_elements_toc(e.content@, n, deeper(depth)) + "</ul>"@
    } else {
        head
    }
}

pub open spec fn content_element_toc(c: ContentElement, depth: nat) -> Seq<char>
    decreases c, 0int,
{
    match c {
        ContentElement::Content(_) => Seq::empty(),
        ContentElement::Element(e) => element_toc(e, depth),
    }
}

/// Table-of-contents entries of the first `i` items of a section.
pub open spec fn content_elements_toc(items: Seq<ContentElement>, i: int, depth: nat) -> Seq<char>
    decreases items, i,
{
    if i <= 0 || i > items.len() {
        Seq::empty()
    } else {
        content_elements_toc(items, i - 1, depth) + content_element_toc(items[i - 1], depth)
    }
}

/// Table-of-contents entries of the first `i` sections.
pub open spec fn elements_toc(items: Seq<Element>, i: int, depth: nat) -> Seq<char>
    decreases i,
{
    if i <= 0 || i > items.len() {
        Seq::empty()
    } else {
        elements_toc(items, i - 1, depth) + element_toc(items[i - 1], depth)
    }
}

/// Table of contents of a list of sections: empty without sections.
pub open spec fn list_toc(l: ListElement, depth: nat) -> Seq<char> {
    let n = l.elements@.len() as int;
    if n == 0 {
        Seq::empty()
    } else {
        "<ul>"@ + elements_toc(l.elements@, n, depth) + "</ul>"@
    }
}

/// HTML of a text piece.
pub fn text_content_to_html(t: &TextContent) -> (r: String)
    ensures
        r@ == text_content_html(*t),
    decreases t,
{
    match t {
        TextContent::Raw(s) => s.clone(),
        TextContent::Link(l) => l.html(),
        TextContent::Collapsable(c) => {
            proof {
                assert(decreases_to!(*t => t->Collapsable_0));
            }
            text_collapsable_to_html(c)
        },
    }
}

/// HTML of a folding block of text pieces.
pub fn text_collapsable_to_html(c: &Collapsable<TextContent>) -> (r: String)
    ensures
        r@ == details_html(c.summary@, text_contents_html(c.content@, c.content@.len() as int)),
    decreases c,
{
    let mut r = String::from_str("<details><summary>");
    r.append(c.summary.as_str());
    r.append("</summary>");
    let ghost before = r@;
    let mut i: usize = 0;
    while i < c.content.len()
        invariant
            i <= c.content@.len(),
            r@ == before + text_contents_html(c.content@, i as int),
        decreases c.content@.len() - i,
    {
        proof {
            assert(decreases_to!(*c => c.content));
            assert(decreases_to!(c.content => c.content@));
            assert(decreases_to!(c.content@ => c.content@[i as int]));
        }
        let h = text_content_to_html(&c.content[i]);
        r.append(h.as_str());
        i += 1;
    }
    r.append("</details>");
    r
}

/// HTML of a text.
pub fn text_to_html(t: &Text) -> (r: String)
    ensures
        r@ == text_html(*t),
{
    let mut r = String::new();
    let mut i: usize = 0;
    while i < t.0.len()
        invariant
            i <= t.0@.len(),
            r@ == text_contents_html(t.0@, i as int),
        decreases t.0@.len() - i,
    {
        let h = text_content_to_html(&t.0[i]);
        r.append(h.as_str());
        i += 1;
    }
    proof {
        reveal_strlit("\n");
    }
    replace_text(r.as_str(), "\n", "<br>")
}

/// HTML of a piece of content.
pub fn content_to_html(c: &Content) -> (r: String)
    ensures
        r@ == content_html(*c),
    decreases c,
{
    match c {
        Content::Text(t) => text_to_html(t),
        Content::Image(s) => {
            let mut r = String::from_str("<img src=\"");
            r.append(s.as_str());
            r.append("\"/>");
            r
        },
        Content::Array(a) => a.html(),
        Content::Collapsable(k) => {
            proof {
                assert(decreases_to!(*c => c->Collapsable_0));
            }
            collapsable_to_html(k)
        },
    }
}

/// HTML of a folding block of content.
pub fn collapsable_to_html(k: &Collapsable<Content>) -> (r: String)
    ensures
        r@ == details_html(k.summary@, contents_html(k.content@, k.content@.len() as int)),
    decreases k,
{
    let mut r = String::from_str("<details><summary>");
    r.append(k.summary.as_str());
    r.append("</summary>");
    let ghost before = r@;
    let mut i: usize = 0;
    while i < k.content.len()
        invariant
            i <= k.content@.len(),
            r@ == before + contents_html(k.content@, i as int),
        decreases k.content@.len() - i,
    {
        proof {
            assert(decreases_to!(*k => k.content));
            assert(decreases_to!(k.content => k.content@));
            assert(decreases_to!(k.content@ => k.content@[i as int]));
        }
        let h = content_to_html(&k.content[i]);
        r.append(h.as_str());
        i += 1;
    }
    r.append("</details>");
    r
}

/// Heading depth of a section's children.
fn deeper_depth(depth: usize) -> (r: usize)
    ensures
        r == deeper(depth as nat),
{
    if depth < usize::MAX { depth + 1 } else { depth }
}

/// HTML of the items of a section, at heading depth `depth`.
fn content_elements_to_html(items: &Vec<ContentElement>, depth: usize) -> (r: String)
    ensures
        r@ == content_elements_html(items@, items@.len() as int, depth as nat),
    decreases items, 1int,
{
    let mut r = String::new();
    let mut i: usize = 0;
    while i < items.len()
        invariant
            i <= items@.len(),
            r@ == content_elements_html(items@, i as int, depth as nat),
        decreases items@.len() - i,
    {
        proof {
            assert(decreases_to!(*items => items@));
            assert(decreases_to!(items@ => items@[i as int]));
        }
        let h = content_element_to_html(&items[i], depth);
        r.append(h.as_str());
        i += 1;
    }
    r
}

/// HTML of an item of a section.
pub fn content_element_to_html(c: &ContentElement, depth: usize) -> (r: String)
    ensures
        r@ == content_element_html(*c, depth as nat),
    decreases c, 2int,
{
    match c {
        ContentElement::Content(k) => content_to_html(k),
        ContentElement::Element(e) => {
            proof {
                assert(decreases_to!(*c => c->Element_0));
            }
            element_to_html(e, depth)
        },
    }
}

/// HTML of a section at heading depth `depth`.
pub fn element_to_html(e: &Element, depth: usize) -> (r: String)
    ensures
        r@ == element_html(*e, depth as nat),
    decreases e, 2int,
{
    proof {
        assert(decreases_to!(*e => e.content));
    }
    let inner = content_elements_to_html(&e.content, deeper_depth(depth));
    let mut key = e.title.clone();
    key.append(inner.as_str());
    let anchor = decimal_text(text_hash(key.as_str()));
    let level = decimal_text(depth as u64);
    let mut r = String::from_str("<h");
    r.append(level.as_str());
    r.append(" id=\"");
    r.append(anchor.as_str());
    r.append("\">");
    let title = format_title(e.title.as_str());
    r.append(title.as_str());
    r.append("</h");
    r.append(level.as_str());
    r.append(">");
    r.append(inner.as_str());
    r
}

/// Table-of-contents entries of the items of a section, at heading depth `depth`.
fn content_elements_toc_text(items: &Vec<ContentElement>, depth: usize) -> (r: String)
    ensures
        r@ == content_elements_toc(items@, items@.len() as int, depth as nat),
    decreases items, 1int,
{
    let mut r = String::new();
    let mut i: usize = 0;
    while i < items.len()
        invariant
            i <= items@.len(),
            r@ == content_elements_toc(items@, i as int, depth as nat),
        decreases items@.len() - i,
    {
        proof {
            assert(decreases_to!(*items => items@));
            assert(decreases_to!(items@ => items@[i as int]));
        }
        let h = content_element_toc_text(&items[i], depth);
        r.append(h.as_str());
        i += 1;
    }
    r
}

/// Table-of-contents entries of an item of a section.
pub fn content_element_toc_text(c: &ContentElement, depth: usize) -> (r: String)
    ensures
        r@ == content_element_toc(*c, depth as nat),
    decreases c, 2int,
{
    match c {
        ContentElement::Content(_) => String::new(),
        ContentElement::Element(e) => {
            proof {
                assert(decreases_to!(*c => c->Element_0));
            }
            element_toc_text(e, depth)
        },
    }
}

/// Table-of-contents entry of a section at heading depth `depth`.
pub fn element_toc_text(e: &Element, depth: usize) -> (r: String)
    ensures
        r@ == element_toc(*e, depth as nat),
    decreases e, 2int,
{
    proof {
        assert(decreases_to!(*e => e.content));
    }
    let inner = content_elements_to_html(&e.content, deeper_depth(depth));
    let mut key = e.title.clone();
    key.append(inner.as_str());
    let anchor = decimal_text(text_hash(key.as_str()));
    let mut r = String::from_str("<li><a href=\"#");
    r.append(anchor.as_str());
    r.append("\">- ");
    let title = format_title(e.title.as_str());
    r.append(title.as_str());
    r.append("</a></li>");
    if e.content.len() > 0 {
        let children = content_elements_toc_text(&e.content, deeper_depth(depth));
        r.append("<ul>");
        r.append(children.as_str());
        r.append("</ul>");
    }
    r
}

impl ListElement {
    /// HTML of the sections, separated by line breaks.
    pub fn html(&self, depth: usize) -> (r: String)
        ensures
            r@ == elements_html(self.elements@, self.elements@.len() as int, depth as nat),
    {
        let mut r = String::new();
        let mut i: usize = 0;
        while i < self.elements.len()
            invariant
                i <= self.elements@.len(),
                r@ == elements_html(self.elements@, i as int, depth as nat),
            decreases self.elements@.len() - i,
        {
            if i > 0 {
                r.append("\n");
            }
            let h = element_to_html(&self.elements[i], depth);
            r.append(h.as_str());
            i += 1;
        }
        r
    }

    /// Table of contents of the sections: a list of their entries, empty without sections.
    pub fn toc(&self, depth: usize) -> (r: String)
        ensures
            r@ == list_toc(*self, depth as nat),
    {
        if self.elements.len() == 0 {
            return String::new();
        }
        let mut r = String::from_str("<ul>");
        let ghost before = r@;
        let mut i: usize = 0;
        while i < self.elements.len()
            invariant
                i <= self.elements@.len(),
                r@ == before + elements_toc(self.elements@, i as int, depth as nat),
                before == "<ul>"@,
            decreases self.elements@.len() - i,
        {
            let h = element_toc_text(&self.elements[i], depth);
            r.append(h.as_str());
            i += 1;
        }
        r.append("</ul>");
        r
    }
}

/// Marker in a page template where the table of contents goes.
pub open spec fn toc_marker() -> Seq<char> {
    "<!--table of contents-->"@
}

/// Marker in a page template where the sections go.
pub open spec fn contents_marker() -> Seq<char> {
    "<!--contents-->"@
}

impl crate::document::Ir {
    /// The page: `template` with its table-of-contents marker, then its contents marker,
    /// replaced by the table of contents and by the HTML of the sections, from heading
    /// depth 1.
    pub fn to_html(&self, template: &str) -> (r: String)
        ensures
            r@ == replaced(
                replaced(template@, toc_marker(), list_toc(self.elements, 1)),
                contents_marker(),
                elements_html(self.elements.elements@, self.elements.elements@.len() as int, 1),
            ),
    {
        let contents = self.elements.html(1);
        let toc = self.elements.toc(1);
        proof {
            reveal_strlit("<!--table of contents-->");
            reveal_strlit("<!--contents-->");
        }
        let page = replace_text(template, "<!--table of contents-->", toc.as_str());
        replace_text(page.as_str(), "<!--contents-->", contents.as_str())
    }
}

impl ToHtmlDepth for TextContent {
    fn to_html(&self, depth: usize) -> String {
        text_content_to_html(self)
    }
}

impl ToHtmlDepth for Text {
    fn to_html(&self, depth: usize) -> String {
        text_to_html(self)
    }
}

impl ToHtmlDepth for Content {
    fn to_html(&self, depth: usize) -> String {
        content_to_html(self)
    }
}

impl ToHtmlDepth for ContentElement {
    fn to_html(&self, depth: usize) -> String {
        content_element_to_html(self, depth)
    }
}

impl ToHtmlDepth for Element {
    fn to_html(&self, depth: usize) -> String {
        element_to_html(self, depth)
    }
}

impl ToHtmlDepth for ListElement {
    fn to_html(&self, depth: usize) -> String {
        self.html(depth)
    }
}

impl ToHtmlDepth for Collapsable<Content> {
    fn to_html(&self, depth: usize) -> String {
        collapsable_to_html(self)
    }
}

impl ToHtmlDepth for Collapsable<TextContent> {
    fn to_html(&self, depth: usize) -> String {
        text_collapsable_to_html(self)
    }
}

impl ToTableOfContent for ListElement {
    fn get_table_of_content(&self, depth: usize) -> String {
        self.toc(depth)
    }
}

impl ToTableOfContent for Element {
    fn get_table_of_content(&self, depth: usize) -> String {
        element_toc_text(self, depth)
    }
}

impl ToTableOfContent for ContentElement {
    fn get_table_of_content(&self, depth: usize) -> String {
        content_element_toc_text(self, depth)
    }
}

} // verus!
