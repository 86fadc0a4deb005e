//! Annotations, section content, chapters and footnotes.

use vstd::prelude::*;
use crate::block::{
    image_of, optional_image_of, optional_title_of, paragraph_of, table_of, Image, ImageView,
    Paragraph, ParagraphView, Table, TableView, Title, TitleView,
};
use crate::context::{Anchors, Context, ContextView};
use crate::seqs::{empty_vec, lemma_somes_ends, lemma_somes_step, push_some, somes};
use crate::source;
use crate::text::{copy_or_empty, filled, text_or_empty};
use crate::verse::{
    cite_of, epigraphs_of, poem_of, Cite, CiteView, Epigraph, EpigraphView, Poem, PoemView,
};

verus! {

#[derive(Debug, PartialEq, Eq)]
pub enum AnnotationElement {
    Paragraph(Paragraph),
    Poem(Poem),
    Cite(Cite),
    Subtitle(Paragraph),
    Table(Table),
    EmptyLine,
}

pub enum AnnotationElementView {
    Paragraph(ParagraphView),
    Poem(PoemView),
    Cite(CiteView),
    Subtitle(ParagraphView),
    Table(TableView),
    EmptyLine,
}

impl DeepView for AnnotationElement {
    type V = AnnotationElementView;

    open spec fn deep_view(&self) -> AnnotationElementView {
        match self {
            AnnotationElement::Paragraph(p) => AnnotationElementView::Paragraph(p.deep_view()),
            AnnotationElement::Poem(p) => AnnotationElementView::Poem(p.deep_view()),
            AnnotationElement::Cite(c) => AnnotationElementView::Cite(c.deep_view()),
            AnnotationElement::Subtitle(p) => AnnotationElementView::Subtitle(p.deep_view()),
            AnnotationElement::Table(t) => AnnotationElementView::Table(t.deep_view()),
            AnnotationElement::EmptyLine => AnnotationElementView::EmptyLine,
        }
    }
}

#[derive(Debug, PartialEq, Eq)]
pub struct Annotation {
    pub anchor: String,
    pub content: Vec<AnnotationElement>,
}

pub struct AnnotationView {
    pub anchor: Seq<char>,
    pub content: Seq<AnnotationElementView>,
}

impl DeepView for Annotation {
    type V = AnnotationView;

    open spec fn deep_view(&self) -> AnnotationView {
        AnnotationView { anchor: self.anchor@, content: self.content.deep_view() }
    }
}

/// One piece of the content of a chapter or of a footnote.
#[derive(Debug, PartialEq, Eq)]
pub enum Content {
    Paragraph(Paragraph),
    Poem(Poem),
    Subtitle(Paragraph),
    Cite(Cite),
    Table(Table),
    Image(Image),
    EmptyLine,
}

pub enum ContentView {
    Paragraph(ParagraphView),
    Poem(PoemView),
    Subtitle(ParagraphView),
    Cite(CiteView),
    Table(TableView),
    Image(ImageView),
    EmptyLine,
}

impl DeepView for Content {
    type V = ContentView;

    open spec fn deep_view(&self) -> ContentView {
        match self {
            Content::Paragraph(p) => ContentView::Paragraph(p.deep_view()),
            Content::Poem(p) => ContentView::Poem(p.deep_view()),
            Content::Subtitle(p) => ContentView::Subtitle(p.deep_view()),
            Content::Cite(c) => ContentView::Cite(c.deep_view()),
            Content::Table(t) => ContentView::Table(t.deep_view()),
            Content::Image(i) => ContentView::Image(i.deep_view()),
            Content::EmptyLine => ContentView::EmptyLine,
        }
    }
}

#[derive(Debug, PartialEq, Eq)]
pub struct Chapter {
    pub anchor: String,
    pub title: Option<Title>,
    pub annotation: Option<Annotation>,
    pub cover: Option<Image>,
    pub epigraphs: Vec<Epigraph>,
    pub content: Vec<Content>,
    pub sub_chapters: Vec<Chapter>,
}

pub struct ChapterView {
    pub anchor: Seq<char>,
    pub title: Option<TitleView>,
    pub annotation: Option<AnnotationView>,
    pub cover: Option<ImageView>,
    pub epigraphs: Seq<EpigraphView>,
    pub content: Seq<ContentView>,
    pub sub_chapters: Seq<ChapterView>,
}

/// The view of a chapter.
pub open spec fn chapter_view(c: Chapter) -> ChapterView
    decreases c,
{
    ChapterView {
        anchor: c.anchor@,
        title: c.title.deep_view(),
        annotation: c.annotation.deep_view(),
        cover: c.cover.deep_view(),
        epigraphs: c.epigraphs.deep_view(),
        content: c.content.deep_view(),
        sub_chapters: Seq::new(
            c.sub_chapters@.len(),
            |i: int|
                if 0 <= i < c.sub_chapters@.len() {
                    chapter_view(c.sub_chapters@[i])
                } else {
                    arbitrary()
                },
        ),
    }
}

impl DeepView for Chapter {
    type V = ChapterView;

    open spec fn deep_view(&self) -> ChapterView {
        chapter_view(*self)
    }
}

/// The view of a chapter holds the deep view of its sub-chapters.
pub proof fn lemma_chapter_view(c: Chapter)
    ensures
        c.deep_view().sub_chapters == c.sub_chapters.deep_view(),
{
    assert(chapter_view(c).sub_chapters =~= c.sub_chapters.deep_view());
}

#[derive(Debug, PartialEq, Eq)]
pub struct Footnote {
    pub title: Option<Title>,
    pub content: Vec<Content>,
}

pub struct FootnoteView {
    pub title: Option<TitleView>,
    pub content: Seq<ContentView>,
}

impl DeepView for Footnote {
    type V = FootnoteView;

    open spec fn deep_view(&self) -> FootnoteView {
        FootnoteView { title: self.title.deep_view(), content: self.content.deep_view() }
    }
}

/// A collection of footnotes, each under its anchor. No anchor occurs
/// twice in `content`.
#[derive(Debug, PartialEq, Eq)]
pub struct Footnotes {
    pub title: Option<Title>,
    pub content: Vec<(String, Footnote)>,
}

pub struct FootnotesView {
    pub title: Option<TitleView>,
    pub content: Map<Seq<char>, FootnoteView>,
}

/// The views of a list of footnotes with their anchors.
pub open spec fn entry_views(entries: Seq<(String, Footnote)>) -> Seq<(Seq<char>, FootnoteView)> {
    Seq::new(entries.len(), |i: int| (entries[i].0@, entries[i].1.deep_view()))
}

/// The mapping that a list of footnotes with their anchors stands for: a
/// later footnote replaces an earlier one with the same anchor.
pub open spec fn notes_map(pairs: Seq<(Seq<char>, FootnoteView)>) -> Map<Seq<char>, FootnoteView>
    decreases pairs.len(),
{
    if pairs.len() == 0 {
        Map::empty()
    } else {
        notes_map(pairs.drop_last()).insert(pairs.last().0, pairs.last().1)
    }
}

/// No anchor occurs twice.
pub open spec fn distinct_anchors(entries: Seq<(String, Footnote)>) -> bool {
    forall|i: int, j: int|
        0 <= i < j < entries.len() ==> (#[trigger] entries[i]).0@ != (#[trigger] entries[j]).0@
}

impl DeepView for Footnotes {
    type V = FootnotesView;

    open spec fn deep_view(&self) -> FootnotesView {
        FootnotesView {
            title: self.title.deep_view(),
            content: notes_map(entry_views(self.content@)),
        }
    }
}

impl Footnotes {
    /// No anchor occurs twice in `content`.
    pub open spec fn wf(&self) -> bool {
        distinct_anchors(self.content@)
    }
}

/// What one element of a source annotation becomes.
pub open spec fn annotation_element_of(
    e: source::AnnotationElement,
    ctx: ContextView,
) -> Option<AnnotationElementView> {
    match e {
        source::AnnotationElement::Paragraph(p) => match paragraph_of(p, ctx) {
            Some(v) => Some(AnnotationElementView::Paragraph(v)),
            None => None,
        },
        source::AnnotationElement::Poem(p) => match poem_of(p, ctx) {
            Some(v) => Some(AnnotationElementView::Poem(v)),
            None => None,
        },
        source::AnnotationElement::Cite(c) => match cite_of(c, ctx) {
            Some(v) => Some(AnnotationElementView::Cite(v)),
            None => None,
        },
        source::AnnotationElement::Subtitle(p) => match paragraph_of(p, ctx) {
            Some(v) => Some(AnnotationElementView::Subtitle(v)),
            None => None,
        },
        source::AnnotationElement::Table(t) => match table_of(t, ctx) {
            Some(v) => Some(AnnotationElementView::Table(v)),
            None => None,
        },
        source::AnnotationElement::EmptyLine => Some(AnnotationElementView::EmptyLine),
    }
}

/// The annotation that a source annotation becomes: none where no element
/// is left.
pub open spec fn annotation_of(a: source::Annotation, ctx: ContextView) -> Option<AnnotationView> {
    let content = somes(
        Seq::new(a.elements@.len(), |i: int| annotation_element_of(a.elements@[i], ctx)),
    );
    if content.len() == 0 {
        None
    } else {
        Some(AnnotationView { anchor: text_or_empty(a.id), content })
    }
}

/// The annotation of an optional source annotation.
pub open spec fn optional_annotation_of(
    a: Option<source::Annotation>,
    ctx: ContextView,
) -> Option<AnnotationView> {
    match a {
        Some(a) => annotation_of(a, ctx),
        None => None,
    }
}

/// What one part of a source section becomes. An empty line always stays.
pub open spec fn content_of(part: source::SectionPart, ctx: ContextView) -> Option<ContentView> {
    match part {
        source::SectionPart::Paragraph(p) => match paragraph_of(p, ctx) {
            Some(v) => Some(ContentView::Paragraph(v)),
            None => None,
        },
        source::SectionPart::Poem(p) => match poem_of(p, ctx) {
            Some(v) => Some(ContentView::Poem(v)),
            None => None,
        },
        source::SectionPart::Subtitle(p) => match paragraph_of(p, ctx) {
            Some(v) => Some(ContentView::Subtitle(v)),
            None => None,
        },
        source::SectionPart::Cite(c) => match cite_of(c, ctx) {
            Some(v) => Some(ContentView::Cite(v)),
            None => None,
        },
        source::SectionPart::Table(t) => match table_of(t, ctx) {
            Some(v) => Some(ContentView::Table(v)),
            None => None,
        },
        source::SectionPart::Image(i) => match image_of(i, ctx.binaries) {
            Some(v) => Some(ContentView::Image(v)),
            None => None,
        },
        source::SectionPart::EmptyLine => Some(ContentView::EmptyLine),
    }
}

/// What each part of a source section becomes.
pub open spec fn contents_each(parts: Vec<source::SectionPart>, ctx: ContextView) -> Seq<
    Option<ContentView>,
> {
    Seq::new(parts@.len(), |i: int| content_of(parts@[i], ctx))
}

/// The content that is left of the parts of a source section.
pub open spec fn contents_of(parts: Vec<source::SectionPart>, ctx: ContextView) -> Seq<
    ContentView,
> {
    somes(contents_each(parts, ctx))
}

/// What each source section becomes as a chapter.
pub open spec fn chapters_each(sections: Vec<source::Section>, ctx: ContextView) -> Seq<
    Option<ChapterView>,
>
    decreases sections, 0int,
{
    Seq::new(
        sections@.len(),
        |i: int|
            if 0 <= i < sections@.len() {
                chapter_of(sections@[i], ctx)
            } else {
                None
            },
    )
}

/// The chapters that are left of a list of source sections.
pub open spec fn chapters_of(sections: Vec<source::Section>, ctx: ContextView) -> Seq<
    ChapterView,
>
    decreases sections, 1int,
{
    somes(chapters_each(sections, ctx))
}

/// The chapter that a source section becomes: none where it has neither
/// content nor sub-chapters of its own.
pub open spec fn chapter_of(section: source::Section, ctx: ContextView) -> Option<ChapterView>
    decreases section, 0int,
{
    match section.content {
        None => None,
        Some(sc) => {
            let content = contents_of(sc.content, ctx);
            let sub_chapters = chapters_of(sc.sections, ctx);
            if content.len() == 0 && sub_chapters.len() == 0 {
                None
            } else {
                Some(
                    ChapterView {
                        anchor: text_or_empty(section.id),
                        title: optional_title_of(sc.title, ctx),
                        annotation: optional_annotation_of(sc.annotation, ctx),
                        cover: optional_image_of(sc.image, ctx.binaries),
                        epigraphs: epigraphs_of(sc.epigraphs, ctx),
                        content,
                        sub_chapters,
                    },
                )
            }
        },
    }
}

/// The footnote that a source section becomes, with its anchor: none where
/// the section has no id or no content.
pub open spec fn footnote_of(section: source::Section, ctx: ContextView) -> Option<
    (Seq<char>, FootnoteView),
> {
    match (filled(section.id), section.content) {
        (Some(id), Some(sc)) => {
            let content = contents_of(sc.content, ctx);
            if content.len() == 0 {
                None
            } else {
                Some((id, FootnoteView { title: optional_title_of(sc.title, ctx), content }))
            }
        },
        _ => None,
    }
}

/// The footnotes of each section of a source body, with their anchors.
pub open spec fn footnotes_each(sections: Vec<source::Section>, ctx: ContextView) -> Seq<
    Option<(Seq<char>, FootnoteView)>,
> {
    Seq::new(sections@.len(), |i: int| footnote_of(sections@[i], ctx))
}

/// The collection of footnotes that a source body becomes: none where no
/// footnote is left.
pub open spec fn footnotes_of(body: source::Body, ctx: ContextView) -> Option<FootnotesView> {
    let pairs = somes(footnotes_each(body.sections, ctx));
    if pairs.len() == 0 {
        None
    } else {
        Some(FootnotesView { title: optional_title_of(body.title, ctx), content: notes_map(pairs) })
    }
}

impl AnnotationElement {
    /// Converts one element of a source annotation.
    pub fn from_fb2(value: &source::AnnotationElement, ctx: &Context) -> (r: Option<
        AnnotationElement,
    >)
        ensures
            r.deep_view() == annotation_element_of(*value, ctx@),
    {
        match value {
            source::AnnotationElement::Paragraph(p) => match Paragraph::from_fb2(p, ctx) {
                Some(p) => Some(AnnotationElement::Paragraph(p)),
                None => None,
            },
            source::AnnotationElement::Poem(p) => match Poem::from_fb2(p, ctx) {
                Some(p) => Some(AnnotationElement::Poem(p)),
                None => None,
            },
            source::AnnotationElement::Cite(c) => match Cite::from_fb2(c, ctx) {
                Some(c) => Some(AnnotationElement::Cite(c)),
                None => None,
            },
            source::AnnotationElement::Subtitle(s) => match Paragraph::from_fb2(s, ctx) {
                Some(s) => Some(AnnotationElement::Subtitle(s)),
                None => None,
            },
            source::AnnotationElement::Table(t) => match Table::from_fb2(t, ctx) {
                Some(t) => Some(AnnotationElement::Table(t)),
                None => None,
            },
            source::AnnotationElement::EmptyLine => Some(AnnotationElement::EmptyLine),
        }
    }
}

impl Annotation {
    /// Converts a source annotation. One without elements is dropped.
    pub fn from_fb2(value: &source::Annotation, ctx: &Context) -> (r: Option<Annotation>)
        ensures
            r.deep_view() == annotation_of(*value, ctx@),
    {
        let ghost each = Seq::new(
            value.elements@.len(),
            |i: int| annotation_element_of(value.elements@[i], ctx@),
        );
        let mut content: Vec<AnnotationElement> = empty_vec();
        let n: usize = value.elements.len();
        let mut i: usize = 0;
        proof {
            lemma_somes_ends(each);
        }
        while i < n
            invariant
                n == value.elements.len(),
                i <= n,
                each == Seq::new(
                    value.elements@.len(),
                    |i: int| annotation_element_of(value.elements@[i], ctx@),
                ),
                content.deep_view() == somes(each.take(i as int)),
            decreases n - i,
        {
            proof {
                lemma_somes_step(each, i as int);
            }
            push_some(&mut content, AnnotationElement::from_fb2(&value.elements[i], ctx));
            i += 1;
        }
        if content.len() == 0 {
            None
        } else {
            Some(Annotation { anchor: copy_or_empty(&value.id), content })
        }
    }

    /// Converts an optional source annotation.
    pub fn from_fb2_optional(value: &Option<source::Annotation>, ctx: &Context) -> (r: Option<
        Annotation,
    >)
        ensures
            r.deep_view() == optional_annotation_of(*value, ctx@),
    {
        match value {
            Some(a) => Annotation::from_fb2(a, ctx),
            None => None,
        }
    }
}

impl Content {
    /// Converts one part of a source section.
    pub fn from_fb2(value: &source::SectionPart, ctx: &Context) -> (r: Option<Content>)
        ensures
            r.deep_view() == content_of(*value, ctx@),
    {
        match value {
            source::SectionPart::Paragraph(p) => match Paragraph::from_fb2(p, ctx) {
                Some(p) => Some(Content::Paragraph(p)),
                None => None,
            },
            source::SectionPart::Poem(p) => match Poem::from_fb2(p, ctx) {
                Some(p) => Some(Content::Poem(p)),
                None => None,
            },
            source::SectionPart::Subtitle(p) => match Paragraph::from_fb2(p, ctx) {
                Some(s) => Some(Content::Subtitle(s)),
                None => None,
            },
            source::SectionPart::Cite(c) => match Cite::from_fb2(c, ctx) {
                Some(c) => Some(Content::Cite(c)),
                None => None,
            },
            source::SectionPart::Table(t) => match Table::from_fb2(t, ctx) {
                Some(t) => Some(Content::Table(t)),
                None => None,
            },
            source::SectionPart::Image(i) => match Image::from_fb2(i, ctx.binaries) {
                Some(i) => Some(Content::Image(i)),
                None => None,
            },
            source::SectionPart::EmptyLine => Some(Content::EmptyLine),
        }
    }

    /// Converts the parts of a source section and keeps what is left of
    /// them.
    pub fn from_fb2_all(parts: &Vec<source::SectionPart>, ctx: &Context) -> (r: Vec<Content>)
        ensures
            r.deep_view() == contents_of(*parts, ctx@),
    {
        let ghost each = contents_each(*parts, ctx@);
        let mut out: Vec<Content> = empty_vec();
        let n: usize = parts.len();
        let mut i: usize = 0;
        proof {
            lemma_somes_ends(each);
        }
        while i < n
            invariant
                n == parts.len(),
                i <= n,
                each == contents_each(*parts, ctx@),
                out.deep_view() == somes(each.take(i as int)),
            decreases n - i,
        {
            proof {
                lemma_somes_step(each, i as int);
            }
            push_some(&mut out, Content::from_fb2(&parts[i], ctx));
            i += 1;
        }
        out
    }
}

impl Chapter {
    /// Converts a source section into a chapter, sub-sections first. A
    /// chapter with neither content nor sub-chapters is dropped.
    pub fn from_fb2(section: &source::Section, ctx: &Context) -> (r: Option<Chapter>)
        ensures
            r.deep_view() == chapter_of(*section, ctx@),
        decreases section,
    {
        let section_content = match &section.content {
            Some(sc) => sc,
            None => {
                return None;
            },
        };
        let content = Content::from_fb2_all(&section_content.content, ctx);
        let sub_chapters = Chapter::from_fb2_all(&section_content.sections, ctx);
        if content.len() == 0 && sub_chapters.len() == 0 {
            return None;
        }
        let title = Title::from_fb2_optional(&section_content.title, ctx);
        let annotation = Annotation::from_fb2_optional(&section_content.annotation, ctx);
        let cover = Image::from_fb2_optional(&section_content.image, ctx.binaries);
        let epigraphs = Epigraph::from_fb2_all(&section_content.epigraphs, ctx);
        let chapter = Chapter {
            anchor: copy_or_empty(&section.id),
            title,
            annotation,
            cover,
            epigraphs,
            content,
            sub_chapters,
        };
        proof {
            lemma_chapter_view(chapter);
        }
        Some(chapter)
    }

    /// Converts a list of source sections and keeps the chapters that are
    /// left.
    pub fn from_fb2_all(sections: &Vec<source::Section>, ctx: &Context) -> (r: Vec<Chapter>)
        ensures
            r.deep_view() == chapters_of(*sections, ctx@),
        decreases sections,
    {
        let ghost each = chapters_each(*sections, ctx@);
        let mut out: Vec<Chapter> = empty_vec();
        let n: usize = sections.len();
        let mut i: usize = 0;
        proof {
            lemma_somes_ends(each);
        }
        while i < n
            invariant
                n == sections.len(),
                i <= n,
                each == chapters_each(*sections, ctx@),
                out.deep_view() == somes(each.take(i as int)),
            decreases n - i,
        {
            proof {
                lemma_somes_step(each, i as int);
            }
            push_some(&mut out, Chapter::from_fb2(&sections[i], ctx));
            i += 1;
        }
        out
    }
}

impl Footnote {
    /// Converts a source section into a footnote under its anchor. A
    /// section without an id or without content is no footnote.
    pub fn from_fb2(value: &source::Section, ctx: &Context) -> (r: Option<(String, Footnote)>)
        ensures
            match r {
                Some(pair) => footnote_of(*value, ctx@) == Some((pair.0@, pair.1.deep_view())),
                None => footnote_of(*value, ctx@) is None,
            },
    {
        let id = match &value.id {
            Some(id) => id,
            None => {
                return None;
            },
        };
        if id.as_str().is_empty() {
            return None;
        }
        let section_content = match &value.content {
            Some(sc) => sc,
            None => {
                return None;
            },
        };
        let content = Content::from_fb2_all(&section_content.content, ctx);
        if content.len() == 0 {
            return None;
        }
        let title = Title::from_fb2_optional(&section_content.title, ctx);
        Some((id.clone(), Footnote { title, content }))
    }
}

/// Replacing the footnote of an anchor that occurs once is an insertion
/// into the mapping.
proof fn lemma_notes_map_update(entries: Seq<(String, Footnote)>, j: int, entry: (String, Footnote))
    requires
        distinct_anchors(entries),
        0 <= j < entries.len(),
        entries[j].0@ == entry.0@,
    ensures
        distinct_anchors(entries.update(j, entry)),
        notes_map(entry_views(entries.update(j, entry))) == notes_map(entry_views(entries)).insert(
            entry.0@,
            entry.1.deep_view(),
        ),
    decreases entries.len(),
{
    let updated = entries.update(j, entry);
    let last = entries.len() - 1;
    assert(entry_views(updated).drop_last() =~= entry_views(updated.drop_last()));
    assert(entry_views(entries).drop_last() =~= entry_views(entries.drop_last()));
    if j == last {
        assert(updated.drop_last() =~= entries.drop_last());
        assert(notes_map(entry_views(updated)) =~= notes_map(entry_views(entries)).insert(
            entry.0@,
            entry.1.deep_view(),
        ));
    } else {
        let rest = entries.drop_last();
        assert(distinct_anchors(rest)) by {
            assert forall|a: int, b: int| 0 <= a < b < rest.len() implies (#[trigger] rest[a]).0@
                != (#[trigger] rest[b]).0@ by {
                assert(rest[a] == entries[a]);
                assert(rest[b] == entries[b]);
            }
        }
        lemma_notes_map_update(rest, j, entry);
        assert(updated.drop_last() =~= rest.update(j, entry));
        assert(entries[j].0@ != entries[last].0@);
        assert(notes_map(entry_views(updated)) =~= notes_map(entry_views(entries)).insert(
            entry.0@,
            entry.1.deep_view(),
        ));
    }
}

/// Puts the footnote under its anchor, in place of an earlier one.
fn put_note(entries: &mut Vec<(String, Footnote)>, anchor: String, note: Footnote)
    requires
        distinct_anchors(old(entries)@),
    ensures
        distinct_anchors(final(entries)@),
        final(entries)@.len() > 0,
        notes_map(entry_views(final(entries)@)) == notes_map(entry_views(old(entries)@)).insert(
            anchor@,
            note.deep_view(),
        ),
{
    let n: usize = entries.len();
    let mut i: usize = 0;
    while i < n
        invariant
            n == entries.len(),
            i <= n,
            *entries == *old(entries),
            forall|j: int| 0 <= j < i ==> entries@[j].0@ != anchor@,
            distinct_anchors(entries@),
        decreases n - i,
    {
        if entries[i].0 == anchor {
            proof {
                lemma_notes_map_update(entries@, i as int, (anchor, note));
            }
            entries.set(i, (anchor, note));
            return ;
        }
        i += 1;
    }
    let ghost before = entries@;
    entries.push((anchor, note));
    proof {
        assert(entry_views(entries@).drop_last() =~= entry_views(before));
    }
}

impl Footnotes {
    /// Converts a source body of footnotes. A body without footnotes is
    /// dropped.
    pub fn from_fb2(body: &source::Body, ctx: &Context) -> (r: Option<Footnotes>)
        ensures
            r.deep_view() == footnotes_of(*body, ctx@),
            r matches Some(f) ==> f.wf(),
    {
        let ghost each = footnotes_each(body.sections, ctx@);
        let mut content: Vec<(String, Footnote)> = Vec::new();
        let n: usize = body.sections.len();
        let mut i: usize = 0;
        proof {
            lemma_somes_ends(each);
            assert(entry_views(content@) =~= Seq::empty());
        }
        while i < n
            invariant
                n == body.sections.len(),
                i <= n,
                each == footnotes_each(body.sections, ctx@),
                distinct_anchors(content@),
                notes_map(entry_views(content@)) == notes_map(somes(each.take(i as int))),
                content@.len() == 0 <==> somes(each.take(i as int)).len() == 0,
            decreases n - i,
        {
            proof {
                lemma_somes_step(each, i as int);
            }
            match Footnote::from_fb2(&body.sections[i], ctx) {
                Some(pair) => {
                    let ghost found = somes(each.take(i as int)).push((pair.0@, pair.1.deep_view()));
                    proof {
                        assert(found.drop_last() =~= somes(each.take(i as int)));
                    }
                    put_note(&mut content, pair.0, pair.1);
                },
                None => {},
            }
            i += 1;
        }
        if content.len() == 0 {
            return None;
        }
        let title = Title::from_fb2_optional(&body.title, ctx);
        Some(Footnotes { title, content })
    }

    /// The anchors of the footnotes.
    pub fn anchors(&self) -> (r: Anchors)
        ensures
            r@ == self.deep_view().content.dom(),
    {
        let ghost pairs = entry_views(self.content@);
        let mut out = Anchors::new();
        let n: usize = self.content.len();
        let mut i: usize = 0;
        proof {
            assert(notes_map(pairs.take(0)).dom() =~= Set::empty());
        }
        while i < n
            invariant
                n == self.content.len(),
                i <= n,
                pairs == entry_views(self.content@),
                out@ == notes_map(pairs.take(i as int)).dom(),
            decreases n - i,
        {
            proof {
                assert(pairs.take(i + 1).drop_last() =~= pairs.take(i as int));
            }
            out.insert(self.content[i].0.clone());
            i += 1;
        }
        proof {
            assert(pairs.take(n as int) =~= pairs);
        }
        out
    }
}

} // verus!
