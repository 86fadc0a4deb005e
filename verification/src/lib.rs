//! Conversion of a parsed FictionBook document tree into a normalized book
//! model in which footnote links, image references and hyperlinks are
//! resolved.
//!
//! Every converter comes with a contract over the deep views of the values
//! it builds: the view of the result equals a specification function applied
//! to the source value and to the view of the lookup context.

pub mod outside;
pub mod seqs;
pub mod text;
pub mod source;
pub mod context;
pub mod span;
pub mod inline;
pub mod block;
pub mod verse;
pub mod section;
pub mod book;
pub mod laws;

pub use crate::span::{
    bold_text, code_text, hydrate_text, italic_text, strikethrough_text, subscript_text,
    superscript_text, BaselineShift, FontStyle, FootnoteLink, FootnoteType, Href, InlineImage,
    Link, Span, Text, TextDecoration, TextStyle,
};
pub use crate::block::{Image, Paragraph, Table, TableCell, TableRow, Title, TitleElement};
pub use crate::book::{Author, Book, Date};
pub use crate::context::{Anchors, BinaryIds, Context};
pub use crate::section::{
    Annotation, AnnotationElement, Chapter, Content, Footnote, Footnotes,
};
pub use crate::text::non_empty;
pub use crate::verse::{Cite, CiteElement, Epigraph, EpigraphElement, Poem, PoemElement, Stanza};
