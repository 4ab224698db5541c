use vstd::prelude::*;
use crate::presentation::{Array, TextLink};

verus! {

/// A titled section: its title and what it contains, subsections included.
#[derive(Debug, PartialEq, Eq, Hash, PartialOrd, Ord)]
pub struct Element {
    pub title: String,
    pub content: Vec<ContentElement>,
}

/// A sequence of sections.
#[derive(Debug, PartialEq, Eq, Hash, PartialOrd, Ord)]
pub struct ListElement {
    pub elements: Vec<Element>,
}

/// A whole document: its top-level sections.
#[derive(Debug, PartialEq, Eq, Hash, PartialOrd, Ord)]
pub struct Ir {
    pub elements: ListElement,
}

/// What a section holds: a piece of content or a subsection.
#[derive(Debug, PartialEq, Eq, Hash, PartialOrd, Ord)]
pub enum ContentElement {
    Content(Content),
    Element(Element),
}

/// A piece of content: text, an image path, a table, or a block that folds away.
#[derive(Debug, PartialEq, Eq, Hash, PartialOrd, Ord)]
pub enum Content {
    Text(Text),
    Image(String),
    Array(Array),
    Collapsable(Collapsable<Content>),
}

/// A block shown under a one-line summary, its items revealed on demand. Its items
/// never enter a table of contents.
#[derive(Debug, PartialEq, Eq, Hash, PartialOrd, Ord)]
pub struct Collapsable<T> {
    pub summary: String,
    pub content: Vec<T>,
}

/// A run of text pieces.
#[derive(Debug, PartialEq, Eq, Hash, PartialOrd, Ord)]
pub struct Text(pub Vec<TextContent>);

/// A piece of text: raw text, a link, or a folding block of text pieces.
#[derive(Debug, PartialEq, Eq, Hash, PartialOrd, Ord)]
pub enum TextContent {
    Raw(String),
    Link(TextLink),
    Collapsable(Collapsable<TextContent>),
}

impl Element {
    pub fn new(title: String, content: Vec<ContentElement>) -> (r: Element)
        ensures
            r == (Element { title, content }),
    {
        Element { title, content }
    }

    pub fn get_title(&self) -> (r: &String)
        ensures
            r == &self.title,
    {
        &self.title
    }

    pub fn get_content(&self) -> (r: &Vec<ContentElement>)
        ensures
            r == &self.content,
    {
        &self.content
    }
}

impl ListElement {
    pub fn add_element(&mut self, element: Element)
        ensures
            final(self).elements@ == old(self).elements@.push(element),
    {
        self.elements.push(element);
    }

    pub fn add_elements(&mut self, elements: ListElement)
        ensures
            final(self).elements@ == old(self).elements@ + elements.elements@,
    {
        let mut other = elements.elements;
        self.elements.append(&mut other);
    }

    pub fn get_elements(&self) -> (r: &Vec<Element>)
        ensures
            r == &self.elements,
    {
        &self.elements
    }
}

impl Default for ListElement {
    fn default() -> (r: ListElement)
        ensures
            r.elements@.len() == 0,
    {
        ListElement { elements: Vec::new() }
    }
}

impl From<Vec<Element>> for ListElement {
    fn from(elements: Vec<Element>) -> (r: ListElement)
        ensures
            r.elements == elements,
    {
        ListElement { elements }
    }
}

impl vstd::std_specs::convert::FromSpecImpl<Vec<Element>> for ListElement {
    open spec fn obeys_from_spec() -> bool {
        true
    }

    open spec fn from_spec(v: Vec<Element>) -> ListElement {
        ListElement { elements: v }
    }
}

impl Ir {
    pub fn add_elements(&mut self, element: ListElement)
        ensures
            final(self).elements.elements@ == old(self).elements.elements@ + element.elements@,
    {
        self.elements.add_elements(element);
    }

    pub fn add_element(&mut self, element: Element)
        ensures
            final(self).elements.elements@ == old(self).elements.elements@.push(element),
    {
        self.elements.add_element(element);
    }

    pub fn get_elements(&self) -> (r: &ListElement)
        ensures
            r == &self.elements,
    {
        &self.elements
    }
}

impl Default for Ir {
    fn default() -> (r: Ir)
        ensures
            r.elements.elements@.len() == 0,
    {
        Ir { elements: ListElement { elements: Vec::new() } }
    }
}

impl From<ListElement> for Ir {
    fn from(elements: ListElement) -> (r: Ir)
        ensures
            r.elements == elements,
    {
        Ir { elements }
    }
}

impl vstd::std_specs::convert::FromSpecImpl<ListElement> for Ir {
    open spec fn obeys_from_spec() -> bool {
        true
    }

    open spec fn from_spec(v: ListElement) -> Ir {
        Ir { elements: v }
    }
}

impl From<Content> for ContentElement {
    fn from(content: Content) -> (r: ContentElement)
        ensures
            r == ContentElement::Content(content),
    {
        ContentElement::Content(content)
    }
}

impl vstd::std_specs::convert::FromSpecImpl<Content> for ContentElement {
    open spec fn obeys_from_spec() -> bool {
        true
    }

    open spec fn from_spec(v: Content) -> ContentElement {
        ContentElement::Content(v)
    }
}

impl From<Element> for ContentElement {
    fn from(element: Element) -> (r: ContentElement)
        ensures
            r == ContentElement::Element(element),
    {
        ContentElement::Element(element)
    }
}

impl vstd::std_specs::convert::FromSpecImpl<Element> for ContentElement {
    open spec fn obeys_from_spec() -> bool {
        true
    }

    open spec fn from_spec(v: Element) -> ContentElement {
        ContentElement::Element(v)
    }
}

impl Content {
    /// An image, by its path.
    pub fn new_image(path: &str) -> (r: Content)
        ensures
            r is Image && r->Image_0@ == path@,
    {
        Content::Image(String::from_str(path))
    }
}

impl From<Text> for Content {
    fn from(text: Text) -> (r: Content)
        ensures
            r == Content::Text(text),
    {
        Content::Text(text)
    }
}

impl vstd::std_specs::convert::FromSpecImpl<Text> for Content {
    open spec fn obeys_from_spec() -> bool {
        true
    }

    open spec fn from_spec(v: Text) -> Content {
        Content::Text(v)
    }
}

impl From<Array> for Content {
    fn from(array: Array) -> (r: Content)
        ensures
            r == Content::Array(array),
    {
        Content::Array(array)
    }
}

impl vstd::std_specs::convert::FromSpecImpl<Array> for Content {
    open spec fn obeys_from_spec() -> bool {
        true
    }

    open spec fn from_spec(v: Array) -> Content {
        Content::Array(v)
    }
}

impl From<Collapsable<Content>> for Content {
    fn from(collapsable: Collapsable<Content>) -> (r: Content)
        ensures
            r == Content::Collapsable(collapsable),
    {
        Content::Collapsable(collapsable)
    }
}

impl vstd::std_specs::convert::FromSpecImpl<Collapsable<Content>> for Content {
    open spec fn obeys_from_spec() -> bool {
        true
    }

    open spec fn from_spec(v: Collapsable<Content>) -> Content {
        Content::Collapsable(v)
    }
}

impl<T> Collapsable<T> {
    pub fn new(summary: String, content: Vec<T>) -> (r: Collapsable<T>)
        ensures
            r == (Collapsable { summary, content }),
    {
        Collapsable { summary, content }
    }

    pub fn get_summary(&self) -> (r: &String)
        ensures
            r == &self.summary,
    {
        &self.summary
    }

    pub fn get_content(&self) -> (r: &Vec<T>)
        ensures
            r == &self.content,
    {
        &self.content
    }
}

impl Text {
    pub fn get_content(&self) -> (r: &Vec<TextContent>)
        ensures
            r == &self.0,
    {
        &self.0
    }
}

impl From<Vec<TextContent>> for Text {
    fn from(content: Vec<TextContent>) -> (r: Text)
        ensures
            r == Text(content),
    {
        Text(content)
    }
}

impl vstd::std_specs::convert::FromSpecImpl<Vec<TextContent>> for Text {
    open spec fn obeys_from_spec() -> bool {
        true
    }

    open spec fn from_spec(v: Vec<TextContent>) -> Text {
        Text(v)
    }
}

impl From<String> for TextContent {
    fn from(s: String) -> (r: TextContent)
        ensures
            r == TextContent::Raw(s),
    {
        TextContent::Raw(s)
    }
}

impl vstd::std_specs::convert::FromSpecImpl<String> for TextContent {
    open spec fn obeys_from_spec() -> bool {
        true
    }

    open spec fn from_spec(v: String) -> TextContent {
        TextContent::Raw(v)
    }
}

impl From<TextLink> for TextContent {
    fn from(l: TextLink) -> (r: TextContent)
        ensures
            r == TextContent::Link(l),
    {
        TextContent::Link(l)
    }
}

impl vstd::std_specs::convert::FromSpecImpl<TextLink> for TextContent {
    open spec fn obeys_from_spec() -> bool {
        true
    }

    open spec fn from_spec(v: TextLink) -> TextContent {
        TextContent::Link(v)
    }
}

impl From<Collapsable<TextContent>> for TextContent {
    fn from(c: Collapsable<TextContent>) -> (r: TextContent)
        ensures
            r == TextContent::Collapsable(c),
    {
        TextContent::Collapsable(c)
    }
}

impl vstd::std_specs::convert::FromSpecImpl<Collapsable<TextContent>> for TextContent {
    open spec fn obeys_from_spec() -> bool {
        true
    }

    open spec fn from_spec(v: Collapsable<TextContent>) -> TextContent {
        TextContent::Collapsable(v)
    }
}

} // verus!
