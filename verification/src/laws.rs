//! Laws of the conversion, proved from the specification functions that the
//! contracts of the converters use.

use vstd::prelude::*;
use crate::block::{paragraph_of, row_of, table_of, title_of};
use crate::book::{
    author_of, book_of, composed_name, family_of, full_name_of, given_of, middle_of, nickname_of,
    with_part, Book,
};
use crate::context::ContextView;
use crate::inline::{
    as_spans, classified, image_part, images_in, link_head, texts_in, values_joined,
};
use crate::outside::uuid_text;
use crate::section::{
    annotation_of, chapter_of, content_of, contents_each, contents_of, footnote_of, ContentView,
};
use crate::seqs::{lemma_somes_from, lemma_somes_len, somes};
use crate::verse::{cite_of, epigraph_of, poem_of, stanza_of};
use crate::source;
use crate::span::{
    styled_text, FontStyle, FootnoteLinkView, FootnoteType, HrefView, InlineImageView, LinkView,
    SpanView, TextDecoration, TextStyle, TextView, BOLD_WEIGHT,
};

verus! {

/// A source author is dropped exactly when it has no given, middle or
/// family name and no nickname; an author that is kept has a full name.
pub proof fn lemma_author_kept_iff_named(a: source::Author)
    ensures
        author_of(a) is None <==> (given_of(a).len() == 0 && middle_of(a).len() == 0 && family_of(
            a,
        ).len() == 0 && nickname_of(a) is None),
        author_of(a) matches Some(v) ==> v.full_name.len() > 0,
{
    let composed = composed_name(given_of(a), middle_of(a), family_of(a));
    assert(composed == with_part(with_part(given_of(a), middle_of(a)), family_of(a)));
    assert(full_name_of(a) matches Some(n) ==> n.len() > 0);
}

/// A source author without any name text yields no author.
pub proof fn lemma_nameless_author_dropped(a: source::Author)
    requires
        given_of(a).len() == 0,
        middle_of(a).len() == 0,
        family_of(a).len() == 0,
        nickname_of(a) is None,
    ensures
        author_of(a) is None,
{
    lemma_author_kept_iff_named(a);
}

/// The book has no more authors than the source document.
pub proof fn lemma_authors_shrink(
    book: source::FictionBook,
    book_id: u128,
    binaries: Map<Seq<char>, u128>,
)
    ensures
        book_of(book, book_id, binaries).authors.len()
            <= book.description.title_info.authors@.len(),
{
    let authors = book.description.title_info.authors;
    lemma_somes_len(Seq::new(authors@.len(), |i: int| author_of(authors@[i])));
}

/// Strong text inside emphasis, or around it, is both bold and italic.
pub proof fn lemma_weight_and_style_independent(t: TextView)
    ensures
        styled_text(styled_text(t, TextStyle::Italic), TextStyle::Bold).font_weight == Some(
            BOLD_WEIGHT,
        ),
        styled_text(styled_text(t, TextStyle::Italic), TextStyle::Bold).font_style == Some(
            FontStyle::Italic,
        ),
        styled_text(styled_text(t, TextStyle::Bold), TextStyle::Italic) == styled_text(
            styled_text(t, TextStyle::Italic),
            TextStyle::Bold,
        ),
{
}

/// Making text bold twice is the same as making it bold once.
pub proof fn lemma_bold_idempotent(t: TextView)
    ensures
        styled_text(styled_text(t, TextStyle::Bold), TextStyle::Bold) == styled_text(
            t,
            TextStyle::Bold,
        ),
{
}

/// Of two font styles the one applied last stays, and likewise of two
/// baseline shifts; a second strike-through adds a second decoration.
pub proof fn lemma_last_style_wins(t: TextView)
    ensures
        styled_text(styled_text(t, TextStyle::Code), TextStyle::Italic).font_style == Some(
            FontStyle::Italic,
        ),
        styled_text(styled_text(t, TextStyle::Italic), TextStyle::Code).font_style == Some(
            FontStyle::Code,
        ),
        styled_text(styled_text(t, TextStyle::Subscript), TextStyle::Superscript)
            == styled_text(t, TextStyle::Superscript),
        styled_text(
            styled_text(t, TextStyle::Strikethrough),
            TextStyle::Strikethrough,
        ).decorations == t.decorations.push(TextDecoration::LineThrough).push(
            TextDecoration::LineThrough,
        ),
{
}

/// A link to a known binary that holds no text becomes one image without
/// alternative text, followed by the images that stood inside the link:
/// every span of the result is an image.
pub proof fn lemma_link_to_binary_is_image(
    href: HrefView,
    note_kind: bool,
    content: Seq<SpanView>,
    ctx: ContextView,
)
    requires
        ctx.binaries.contains_key(href.text()),
        texts_in(content).len() == 0,
    ensures
        classified(href, note_kind, content, ctx) == seq![
            SpanView::Image(
                InlineImageView { id: uuid_text(ctx.binaries[href.text()]), alt: Seq::empty() },
            ),
        ] + images_in(content),
        forall|k: int|
            0 <= k < classified(href, note_kind, content, ctx).len() ==> classified(
                href,
                note_kind,
                content,
                ctx,
            )[k] is Image,
        images_in(content).len() == 0 ==> classified(href, note_kind, content, ctx).len() == 1,
{
    let texts = texts_in(content);
    assert(values_joined(texts) =~= Seq::empty());
    let result = classified(href, note_kind, content, ctx);
    assert forall|k: int| 0 <= k < result.len() implies result[k] is Image by {
        if k > 0 {
            let parts = Seq::new(content.len(), |i: int| image_part(content[i]));
            lemma_somes_from(parts, k - 1);
        }
    }
}

/// A link with text whose target is no binary becomes a footnote link
/// where the target is the anchor of a footnote, a comment link where it
/// is the anchor of a comment, its bare text where the link is marked as a
/// note, and a link otherwise.
pub proof fn lemma_link_classes(
    href: HrefView,
    note_kind: bool,
    texts: Seq<TextView>,
    ctx: ContextView,
)
    requires
        !ctx.binaries.contains_key(href.text()),
        texts.len() > 0,
    ensures
        ctx.notes.contains(href.text()) ==> link_head(href, note_kind, texts, ctx) == seq![
            SpanView::Footnote(
                FootnoteLinkView { id: href.text(), kind: FootnoteType::Note, content: texts },
            ),
        ],
        !ctx.notes.contains(href.text()) && ctx.comments.contains(href.text()) ==> link_head(
            href,
            note_kind,
            texts,
            ctx,
        ) == seq![
            SpanView::Footnote(
                FootnoteLinkView { id: href.text(), kind: FootnoteType::Comment, content: texts },
            ),
        ],
        !ctx.notes.contains(href.text()) && !ctx.comments.contains(href.text()) && note_kind
            ==> link_head(href, note_kind, texts, ctx) == as_spans(texts),
        !ctx.notes.contains(href.text()) && !ctx.comments.contains(href.text()) && !note_kind
            ==> link_head(href, note_kind, texts, ctx) == seq![
            SpanView::Link(LinkView { href, content: texts }),
        ],
{
}

/// Two books converted from the same source document, identifier and
/// binary identifiers have the same view.
pub proof fn lemma_conversion_is_function(
    book: source::FictionBook,
    book_id: u128,
    binaries: Map<Seq<char>, u128>,
    first: Book,
    second: Book,
)
    requires
        first.deep_view() == book_of(book, book_id, binaries),
        second.deep_view() == book_of(book, book_id, binaries),
    ensures
        first.deep_view() == second.deep_view(),
{
}

/// A paragraph that is kept has at least one span.
pub proof fn lemma_paragraph_not_empty(p: source::Paragraph, ctx: ContextView)
    ensures
        paragraph_of(p, ctx) matches Some(v) ==> v.content.len() > 0,
{
}

/// No paragraph or subtitle in the content of a section is empty.
pub proof fn lemma_no_empty_paragraph_in_content(
    parts: Vec<source::SectionPart>,
    ctx: ContextView,
    k: int,
)
    requires
        0 <= k < contents_of(parts, ctx).len(),
    ensures
        match contents_of(parts, ctx)[k] {
            ContentView::Paragraph(p) => p.content.len() > 0,
            ContentView::Subtitle(p) => p.content.len() > 0,
            _ => true,
        },
{
    let each = contents_each(parts, ctx);
    lemma_somes_from(each, k);
    let j = choose|j: int| 0 <= j < each.len() && each[j] == Some(somes(each)[k]);
    assert(each[j] == content_of(parts@[j], ctx));
}

/// A chapter that is kept has content or sub-chapters.
pub proof fn lemma_chapter_not_empty(section: source::Section, ctx: ContextView)
    ensures
        chapter_of(section, ctx) matches Some(c) ==> c.content.len() > 0 || c.sub_chapters.len()
            > 0,
{
}

/// A footnote that is kept has an anchor and content.
pub proof fn lemma_footnote_not_empty(section: source::Section, ctx: ContextView)
    ensures
        footnote_of(section, ctx) matches Some(pair) ==> pair.0.len() > 0 && pair.1.content.len()
            > 0,
{
}

/// A title, an annotation, a stanza, a poem, an epigraph or a citation
/// that is kept has content.
pub proof fn lemma_containers_not_empty(
    title: source::Title,
    annotation: source::Annotation,
    stanza: source::Stanza,
    poem: source::Poem,
    epigraph: source::Epigraph,
    cite: source::Cite,
    ctx: ContextView,
)
    ensures
        title_of(title, ctx) matches Some(v) ==> v.content.len() > 0,
        annotation_of(annotation, ctx) matches Some(v) ==> v.content.len() > 0,
        stanza_of(stanza, ctx) matches Some(v) ==> v.content.len() > 0,
        poem_of(poem, ctx) matches Some(v) ==> v.content.len() > 0,
        epigraph_of(epigraph, ctx) matches Some(v) ==> v.content.len() > 0,
        cite_of(cite, ctx) matches Some(v) ==> v.content.len() > 0,
{
}

/// A table that is kept has rows, and none of its rows is without cells.
pub proof fn lemma_table_not_empty(t: source::Table, ctx: ContextView)
    ensures
        table_of(t, ctx) matches Some(v) ==> v.rows.len() > 0 && forall|k: int|
            0 <= k < v.rows.len() ==> (#[trigger] v.rows[k]).cells.len() > 0,
{
    if let Some(v) = table_of(t, ctx) {
        let each = Seq::new(t.rows@.len(), |i: int| row_of(t.rows@[i], ctx));
        assert forall|k: int| 0 <= k < v.rows.len() implies (#[trigger] v.rows[k]).cells.len()
            > 0 by {
            lemma_somes_from(each, k);
            let j = choose|j: int| 0 <= j < each.len() && each[j] == Some(somes(each)[k]);
            assert(each[j] == row_of(t.rows@[j], ctx));
        }
    }
}

} // verus!
