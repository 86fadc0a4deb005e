//! The source tree: a FictionBook document as its parser hands it over,
//! reduced to the parts that the conversion reads.

use vstd::prelude::*;

verus! {

#[derive(Debug, PartialEq, Eq)]
pub struct FictionBook {
    pub description: Description,
    pub bodies: Vec<Body>,
    pub binaries: Vec<Binary>,
}

#[derive(Debug, PartialEq, Eq)]
pub struct Description {
    pub title_info: TitleInfo,
}

#[derive(Debug, PartialEq, Eq)]
pub struct TitleInfo {
    pub book_title: String,
    pub date: Option<Date>,
    pub authors: Vec<Author>,
    pub lang: String,
    pub cover_page: Option<Covers>,
    pub annotation: Option<Annotation>,
}

#[derive(Debug, PartialEq, Eq)]
pub struct Binary {
    pub id: String,
}

#[derive(Debug, PartialEq, Eq)]
pub struct Covers {
    pub images: Vec<InlineImage>,
}

#[derive(Debug, PartialEq, Eq)]
pub struct Date {
    pub iso_date: Option<String>,
    pub display_date: Option<String>,
}

#[derive(Debug, PartialEq, Eq)]
pub enum Author {
    Verbose(VerboseAuthorDetails),
    Anonymous(AnonymousAuthorDetails),
}

#[derive(Debug, PartialEq, Eq)]
pub struct VerboseAuthorDetails {
    pub first_name: String,
    pub middle_name: Option<String>,
    pub last_name: String,
    pub nickname: Option<String>,
}

#[derive(Debug, PartialEq, Eq)]
pub struct AnonymousAuthorDetails {
    pub nickname: Option<String>,
}

#[derive(Debug, PartialEq, Eq)]
pub struct Body {
    pub name: Option<String>,
    pub lang: Option<String>,
    pub title: Option<Title>,
    pub epigraphs: Vec<Epigraph>,
    pub sections: Vec<Section>,
}

#[derive(Debug, PartialEq, Eq)]
pub struct Section {
    pub id: Option<String>,
    pub content: Option<SectionContent>,
}

#[derive(Debug, PartialEq, Eq)]
pub struct SectionContent {
    pub title: Option<Title>,
    pub epigraphs: Vec<Epigraph>,
    pub image: Option<Image>,
    pub annotation: Option<Annotation>,
    pub content: Vec<SectionPart>,
    pub sections: Vec<Section>,
}

#[derive(Debug, PartialEq, Eq)]
pub enum SectionPart {
    Paragraph(Paragraph),
    Poem(Poem),
    Subtitle(Paragraph),
    Cite(Cite),
    Table(Table),
    Image(Image),
    EmptyLine,
}

#[derive(Debug, PartialEq, Eq)]
pub struct Annotation {
    pub id: Option<String>,
    pub elements: Vec<AnnotationElement>,
}

#[derive(Debug, PartialEq, Eq)]
pub enum AnnotationElement {
    Paragraph(Paragraph),
    Poem(Poem),
    Cite(Cite),
    Subtitle(Paragraph),
    Table(Table),
    EmptyLine,
}

#[derive(Debug, PartialEq, Eq)]
pub struct Epigraph {
    pub id: Option<String>,
    pub elements: Vec<EpigraphElement>,
    pub text_authors: Vec<Paragraph>,
}

#[derive(Debug, PartialEq, Eq)]
pub enum EpigraphElement {
    Paragraph(Paragraph),
    Poem(Poem),
    Cite(Cite),
    EmptyLine,
}

#[derive(Debug, PartialEq, Eq)]
pub struct Cite {
    pub id: Option<String>,
    pub elements: Vec<CiteElement>,
    pub text_authors: Vec<Paragraph>,
}

#[derive(Debug, PartialEq, Eq)]
pub enum CiteElement {
    Paragraph(Paragraph),
    Poem(Poem),
    Subtitle(Paragraph),
    Table(Table),
    EmptyLine,
}

#[derive(Debug, PartialEq, Eq)]
pub struct Poem {
    pub id: Option<String>,
    pub title: Option<Title>,
    pub epigraphs: Vec<Epigraph>,
    pub stanzas: Vec<PoemStanza>,
    pub text_authors: Vec<Paragraph>,
}

#[derive(Debug, PartialEq, Eq)]
pub enum PoemStanza {
    Subtitle(Paragraph),
    Stanza(Stanza),
}

#[derive(Debug, PartialEq, Eq)]
pub struct Stanza {
    pub title: Option<Title>,
    pub subtitle: Option<Paragraph>,
    pub lines: Vec<Paragraph>,
}

#[derive(Debug, PartialEq, Eq)]
pub struct Title {
    pub elements: Vec<TitleElement>,
}

#[derive(Debug, PartialEq, Eq)]
pub enum TitleElement {
    Paragraph(Paragraph),
    EmptyLine,
}

#[derive(Debug, PartialEq, Eq)]
pub struct Paragraph {
    pub id: Option<String>,
    pub elements: Vec<StyleElement>,
}

#[derive(Debug, PartialEq, Eq)]
pub struct Table {
    pub id: Option<String>,
    pub rows: Vec<TableRow>,
}

#[derive(Debug, PartialEq, Eq)]
pub struct TableRow {
    pub cells: Vec<TableCellElement>,
}

#[derive(Debug, PartialEq, Eq)]
pub enum TableCellElement {
    Head(TableCell),
    Data(TableCell),
}

#[derive(Debug, PartialEq, Eq)]
pub struct TableCell {
    pub id: Option<String>,
    pub elements: Vec<StyleElement>,
}

#[derive(Debug, PartialEq, Eq)]
pub struct Image {
    pub href: Option<String>,
    pub alt: Option<String>,
    pub title: Option<String>,
    pub id: Option<String>,
}

#[derive(Debug, PartialEq, Eq)]
pub struct InlineImage {
    pub href: Option<String>,
    pub alt: Option<String>,
}

/// Inline markup. Every wrapper holds markup of the same kind.
#[derive(Debug, PartialEq, Eq)]
pub enum StyleElement {
    Strong(Vec<StyleElement>),
    Emphasis(Vec<StyleElement>),
    Style(Vec<StyleElement>),
    Link(Link),
    Strikethrough(Vec<StyleElement>),
    Subscript(Vec<StyleElement>),
    Superscript(Vec<StyleElement>),
    Code(Vec<StyleElement>),
    Image(InlineImage),
    Text(String),
}

#[derive(Debug, PartialEq, Eq)]
pub struct Link {
    pub href: Option<String>,
    pub kind: Option<String>,
    pub elements: Vec<StyleLinkElement>,
}

/// Inline markup inside a link: as `StyleElement`, without links.
#[derive(Debug, PartialEq, Eq)]
pub enum StyleLinkElement {
    Strong(Vec<StyleLinkElement>),
    Emphasis(Vec<StyleLinkElement>),
    Style(Vec<StyleLinkElement>),
    Strikethrough(Vec<StyleLinkElement>),
    Subscript(Vec<StyleLinkElement>),
    Superscript(Vec<StyleLinkElement>),
    Code(Vec<StyleLinkElement>),
    Image(InlineImage),
    Text(String),
}

} // verus!
