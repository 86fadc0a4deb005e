//! Poems, epigraphs and citations. A poem may open with epigraphs, and an
//! epigraph or a citation may hold poems, so these are converted together.

use vstd::prelude::*;
use crate::block::{
    optional_paragraph_of, optional_title_of, paragraph_of, paragraphs_of, table_of, Paragraph,
    ParagraphView, Table, TableView, Title, TitleView,
};
use crate::context::{Context, ContextView};
use crate::seqs::{empty_vec, lemma_somes_ends, lemma_somes_step, push_some, somes};
use crate::source;
use crate::text::{copy_or_empty, text_or_empty};

verus! {

#[derive(Debug, PartialEq, Eq)]
pub struct Stanza {
    pub title: Option<Title>,
    pub subtitle: Option<Paragraph>,
    pub content: Vec<Paragraph>,
}

pub struct StanzaView {
    pub title: Option<TitleView>,
    pub subtitle: Option<ParagraphView>,
    pub content: Seq<ParagraphView>,
}

impl DeepView for Stanza {
    type V = StanzaView;

    open spec fn deep_view(&self) -> StanzaView {
        StanzaView {
            title: self.title.deep_view(),
            subtitle: self.subtitle.deep_view(),
            content: self.content.deep_view(),
        }
    }
}

#[derive(Debug, PartialEq, Eq)]
pub enum PoemElement {
    Subtitle(Paragraph),
    Stanza(Stanza),
}

pub enum PoemElementView {
    Subtitle(ParagraphView),
    Stanza(StanzaView),
}

impl DeepView for PoemElement {
    type V = PoemElementView;

    open spec fn deep_view(&self) -> PoemElementView {
        match self {
            PoemElement::Subtitle(p) => PoemElementView::Subtitle(p.deep_view()),
            PoemElement::Stanza(s) => PoemElementView::Stanza(s.deep_view()),
        }
    }
}

#[derive(Debug, PartialEq, Eq)]
pub struct Poem {
    pub anchor: String,
    pub title: Option<Title>,
    pub epigraphs: Vec<Epigraph>,
    pub authors: Vec<Paragraph>,
    pub content: Vec<PoemElement>,
}

pub struct PoemView {
    pub anchor: Seq<char>,
    pub title: Option<TitleView>,
    pub epigraphs: Seq<EpigraphView>,
    pub authors: Seq<ParagraphView>,
    pub content: Seq<PoemElementView>,
}

#[derive(Debug, PartialEq, Eq)]
pub struct Epigraph {
    pub anchor: String,
    pub authors: Vec<Paragraph>,
    pub content: Vec<EpigraphElement>,
}

pub struct EpigraphView {
    pub anchor: Seq<char>,
    pub authors: Seq<ParagraphView>,
    pub content: Seq<EpigraphElementView>,
}

#[derive(Debug, PartialEq, Eq)]
pub enum EpigraphElement {
    Paragraph(Paragraph),
    Poem(Poem),
    Cite(Cite),
    EmptyLine,
}

pub enum EpigraphElementView {
    Paragraph(ParagraphView),
    Poem(PoemView),
    Cite(CiteView),
    EmptyLine,
}

#[derive(Debug, PartialEq, Eq)]
pub struct Cite {
    pub anchor: String,
    pub content: Vec<CiteElement>,
    pub authors: Vec<Paragraph>,
}

pub struct CiteView {
    pub anchor: Seq<char>,
    pub content: Seq<CiteElementView>,
    pub authors: Seq<ParagraphView>,
}

#[derive(Debug, PartialEq, Eq)]
pub enum CiteElement {
    Paragraph(Paragraph),
    Poem(Poem),
    Subtitle(Paragraph),
    Table(Table),
    EmptyLine,
}

pub enum CiteElementView {
    Paragraph(ParagraphView),
    Poem(PoemView),
    Subtitle(ParagraphView),
    Table(TableView),
    EmptyLine,
}

/// The view of a poem.
pub open spec fn poem_view(p: Poem) -> PoemView
    decreases p, 0int,
{
    PoemView {
        anchor: p.anchor@,
        title: p.title.deep_view(),
        epigraphs: epigraph_views(p.epigraphs),
        authors: p.authors.deep_view(),
        content: p.content.deep_view(),
    }
}

/// The views of a list of epigraphs.
pub open spec fn epigraph_views(es: Vec<Epigraph>) -> Seq<EpigraphView>
    decreases es, 0int,
{
    Seq::new(
        es@.len(),
        |i: int|
            if 0 <= i < es@.len() {
                epigraph_view(es@[i])
            } else {
                arbitrary()
            },
    )
}

/// The view of an epigraph.
pub open spec fn epigraph_view(e: Epigraph) -> EpigraphView
    decreases e, 0int,
{
    EpigraphView {
        anchor: e.anchor@,
        authors: e.authors.deep_view(),
        content: Seq::new(
            e.content@.len(),
            |i: int|
                if 0 <= i < e.content@.len() {
                    epigraph_element_view(e.content@[i])
                } else {
                    arbitrary()
                },
        ),
    }
}

/// The view of an element of an epigraph.
pub open spec fn epigraph_element_view(e: EpigraphElement) -> EpigraphElementView
    decreases e, 0int,
{
    match e {
        EpigraphElement::Paragraph(p) => EpigraphElementView::Paragraph(p.deep_view()),
        EpigraphElement::Poem(p) => EpigraphElementView::Poem(poem_view(p)),
        EpigraphElement::Cite(c) => EpigraphElementView::Cite(cite_view(c)),
        EpigraphElement::EmptyLine => EpigraphElementView::EmptyLine,
    }
}

/// The view of a citation.
pub open spec fn cite_view(c: Cite) -> CiteView
    decreases c, 0int,
{
    CiteView {
        anchor: c.anchor@,
        content: Seq::new(
            c.content@.len(),
            |i: int|
                if 0 <= i < c.content@.len() {
                    cite_element_view(c.content@[i])
                } else {
                    arbitrary()
                },
        ),
        authors: c.authors.deep_view(),
    }
}

/// The view of an element of a citation.
pub open spec fn cite_element_view(e: CiteElement) -> CiteElementView
    decreases e, 0int,
{
    match e {
        CiteElement::Paragraph(p) => CiteElementView::Paragraph(p.deep_view()),
        CiteElement::Poem(p) => CiteElementView::Poem(poem_view(p)),
        CiteElement::Subtitle(p) => CiteElementView::Subtitle(p.deep_view()),
        CiteElement::Table(t) => CiteElementView::Table(t.deep_view()),
        CiteElement::EmptyLine => CiteElementView::EmptyLine,
    }
}

impl DeepView for Poem {
    type V = PoemView;

    open spec fn deep_view(&self) -> PoemView {
        poem_view(*self)
    }
}

impl DeepView for Epigraph {
    type V = EpigraphView;

    open spec fn deep_view(&self) -> EpigraphView {
        epigraph_view(*self)
    }
}

impl DeepView for EpigraphElement {
    type V = EpigraphElementView;

    open spec fn deep_view(&self) -> EpigraphElementView {
        epigraph_element_view(*self)
    }
}

impl DeepView for Cite {
    type V = CiteView;

    open spec fn deep_view(&self) -> CiteView {
        cite_view(*self)
    }
}

impl DeepView for CiteElement {
    type V = CiteElementView;

    open spec fn deep_view(&self) -> CiteElementView {
        cite_element_view(*self)
    }
}

/// The view of a poem holds the deep view of its epigraphs.
pub proof fn lemma_poem_view(p: Poem)
    ensures
        p.deep_view().epigraphs == p.epigraphs.deep_view(),
{
    assert(epigraph_views(p.epigraphs) =~= p.epigraphs.deep_view());
}

/// The view of an epigraph holds the deep view of its elements.
pub proof fn lemma_epigraph_view(e: Epigraph)
    ensures
        e.deep_view().content == e.content.deep_view(),
{
    assert(epigraph_view(e).content =~= e.content.deep_view());
}

/// The view of a citation holds the deep view of its elements.
pub proof fn lemma_cite_view(c: Cite)
    ensures
        c.deep_view().content == c.content.deep_view(),
{
    assert(cite_view(c).content =~= c.content.deep_view());
}

/// The stanza that a source stanza becomes: none where no line is left.
pub open spec fn stanza_of(s: source::Stanza, ctx: ContextView) -> Option<StanzaView> {
    let content = paragraphs_of(s.lines, ctx);
    if content.len() == 0 {
        None
    } else {
        Some(
            StanzaView {
                title: optional_title_of(s.title, ctx),
                subtitle: optional_paragraph_of(s.subtitle, ctx),
                content,
            },
        )
    }
}

/// What a stanza or a subtitle of a source poem becomes.
pub open spec fn poem_element_of(e: source::PoemStanza, ctx: ContextView) -> Option<
    PoemElementView,
> {
    match e {
        source::PoemStanza::Subtitle(p) => match paragraph_of(p, ctx) {
            Some(v) => Some(PoemElementView::Subtitle(v)),
            None => None,
        },
        source::PoemStanza::Stanza(s) => match stanza_of(s, ctx) {
            Some(v) => Some(PoemElementView::Stanza(v)),
            None => None,
        },
    }
}

/// The poem that a source poem becomes: none where no stanza or subtitle is
/// left.
pub open spec fn poem_of(p: source::Poem, ctx: ContextView) -> Option<PoemView>
    decreases p, 0int,
{
    let content = somes(Seq::new(p.stanzas@.len(), |i: int| poem_element_of(p.stanzas@[i], ctx)));
    if content.len() == 0 {
        None
    } else {
        Some(
            PoemView {
                anchor: text_or_empty(p.id),
                title: optional_title_of(p.title, ctx),
                epigraphs: epigraphs_of(p.epigraphs, ctx),
                authors: paragraphs_of(p.text_authors, ctx),
                content,
            },
        )
    }
}

/// What each source epigraph becomes.
pub open spec fn epigraphs_each(es: Vec<source::Epigraph>, ctx: ContextView) -> Seq<
    Option<EpigraphView>,
>
    decreases es, 0int,
{
    Seq::new(
        es@.len(),
        |i: int|
            if 0 <= i < es@.len() {
                epigraph_of(es@[i], ctx)
            } else {
                None
            },
    )
}

/// The epigraphs that are left of a list of source epigraphs.
pub open spec fn epigraphs_of(es: Vec<source::Epigraph>, ctx: ContextView) -> Seq<EpigraphView>
    decreases es, 1int,
{
    somes(epigraphs_each(es, ctx))
}

/// What each element of a source epigraph becomes.
pub open spec fn epigraph_elements_each(
    es: Vec<source::EpigraphElement>,
    ctx: ContextView,
) -> Seq<Option<EpigraphElementView>>
    decreases es, 0int,
{
    Seq::new(
        es@.len(),
        |i: int|
            if 0 <= i < es@.len() {
                epigraph_element_of(es@[i], ctx)
            } else {
                None
            },
    )
}

/// The epigraph that a source epigraph becomes: none where no element is
/// left.
pub open spec fn epigraph_of(e: source::Epigraph, ctx: ContextView) -> Option<EpigraphView>
    decreases e, 0int,
{
    let content = somes(epigraph_elements_each(e.elements, ctx));
    if content.len() == 0 {
        None
    } else {
        Some(
            EpigraphView {
                anchor: text_or_empty(e.id),
                authors: paragraphs_of(e.text_authors, ctx),
                content,
            },
        )
    }
}

/// What one element of a source epigraph becomes.
pub open spec fn epigraph_element_of(e: source::EpigraphElement, ctx: ContextView) -> Option<
    EpigraphElementView,
>
    decreases e, 0int,
{
    match e {
        source::EpigraphElement::Paragraph(p) => match paragraph_of(p, ctx) {
            Some(v) => Some(EpigraphElementView::Paragraph(v)),
            None => None,
        },
        source::EpigraphElement::Poem(p) => match poem_of(p, ctx) {
            Some(v) => Some(EpigraphElementView::Poem(v)),
            None => None,
        },
        source::EpigraphElement::Cite(c) => match cite_of(c, ctx) {
            Some(v) => Some(EpigraphElementView::Cite(v)),
            None => None,
        },
        source::EpigraphElement::EmptyLine => Some(EpigraphElementView::EmptyLine),
    }
}

/// What each element of a source citation becomes.
pub open spec fn cite_elements_each(es: Vec<source::CiteElement>, ctx: ContextView) -> Seq<
    Option<CiteElementView>,
>
    decreases es, 0int,
{
    Seq::new(
        es@.len(),
        |i: int|
            if 0 <= i < es@.len() {
                cite_element_of(es@[i], ctx)
            } else {
                None
            },
    )
}

/// The citation that a source citation becomes: none where no element is
/// left.
pub open spec fn cite_of(c: source::Cite, ctx: ContextView) -> Option<CiteView>
    decreases c, 0int,
{
    let content = somes(cite_elements_each(c.elements, ctx));
    if content.len() == 0 {
        None
    } else {
        Some(
            CiteView {
                anchor: text_or_empty(c.id),
                content,
                authors: paragraphs_of(c.text_authors, ctx),
            },
        )
    }
}

/// What one element of a source citation becomes.
pub open spec fn cite_element_of(e: source::CiteElement, ctx: ContextView) -> Option<
    CiteElementView,
>
    decreases e, 0int,
{
    match e {
        source::CiteElement::Paragraph(p) => match paragraph_of(p, ctx) {
            Some(v) => Some(CiteElementView::Paragraph(v)),
            None => None,
        },
        source::CiteElement::Poem(p) => match poem_of(p, ctx) {
            Some(v) => Some(CiteElementView::Poem(v)),
            None => None,
        },
        source::CiteElement::Subtitle(p) => match paragraph_of(p, ctx) {
            Some(v) => Some(CiteElementView::Subtitle(v)),
            None => None,
        },
        source::CiteElement::Table(t) => match table_of(t, ctx) {
            Some(v) => Some(CiteElementView::Table(v)),
            None => None,
        },
        source::CiteElement::EmptyLine => Some(CiteElementView::EmptyLine),
    }
}

impl Stanza {
    /// Converts a source stanza. One without lines is dropped.
    pub fn from_fb2(value: &source::Stanza, ctx: &Context) -> (r: Option<Stanza>)
        ensures
            r.deep_view() == stanza_of(*value, ctx@),
    {
        let content = Paragraph::from_fb2_all(&value.lines, ctx);
        if content.len() == 0 {
            return None;
        }
        let title = Title::from_fb2_optional(&value.title, ctx);
        let subtitle = Paragraph::from_fb2_optional(&value.subtitle, ctx);
        Some(Stanza { title, subtitle, content })
    }
}

impl PoemElement {
    /// Converts a stanza or a subtitle of a source poem.
    pub fn from_fb2(value: &source::PoemStanza, ctx: &Context) -> (r: Option<PoemElement>)
        ensures
            r.deep_view() == poem_element_of(*value, ctx@),
    {
        match value {
            source::PoemStanza::Subtitle(s) => match Paragraph::from_fb2(s, ctx) {
                Some(s) => Some(PoemElement::Subtitle(s)),
                None => None,
            },
            source::PoemStanza::Stanza(s) => match Stanza::from_fb2(s, ctx) {
                Some(s) => Some(PoemElement::Stanza(s)),
                None => None,
            },
        }
    }
}

impl Poem {
    /// Converts a source poem. One without stanzas or subtitles is dropped.
    pub fn from_fb2(value: &source::Poem, ctx: &Context) -> (r: Option<Poem>)
        ensures
            r.deep_view() == poem_of(*value, ctx@),
        decreases value,
    {
        let ghost each = Seq::new(
            value.stanzas@.len(),
            |i: int| poem_element_of(value.stanzas@[i], ctx@),
        );
        let mut content: Vec<PoemElement> = empty_vec();
        let n: usize = value.stanzas.len();
        let mut i: usize = 0;
        proof {
            lemma_somes_ends(each);
        }
        while i < n
            invariant
                n == value.stanzas.len(),
                i <= n,
                each == Seq::new(
                    value.stanzas@.len(),
                    |i: int| poem_element_of(value.stanzas@[i], ctx@),
                ),
                content.deep_view() == somes(each.take(i as int)),
            decreases n - i,
        {
            proof {
                lemma_somes_step(each, i as int);
            }
            push_some(&mut content, PoemElement::from_fb2(&value.stanzas[i], ctx));
            i += 1;
        }
        if content.len() == 0 {
            return None;
        }
        let title = Title::from_fb2_optional(&value.title, ctx);
        let epigraphs = Epigraph::from_fb2_all(&value.epigraphs, ctx);
        let authors = Paragraph::from_fb2_all(&value.text_authors, ctx);
        let poem = Poem { anchor: copy_or_empty(&value.id), title, epigraphs, authors, content };
        proof {
            lemma_poem_view(poem);
        }
        Some(poem)
    }
}

impl Epigraph {
    /// Converts a source epigraph. One without elements is dropped.
    pub fn from_fb2(value: &source::Epigraph, ctx: &Context) -> (r: Option<Epigraph>)
        ensures
            r.deep_view() == epigraph_of(*value, ctx@),
        decreases value,
    {
        let ghost each = epigraph_elements_each(value.elements, ctx@);
        let mut content: Vec<EpigraphElement> = empty_vec();
        let n: usize = value.elements.len();
        let mut i: usize = 0;
        proof {
            lemma_somes_ends(each);
        }
        while i < n
            invariant
                n == value.elements.len(),
                i <= n,
                each == epigraph_elements_each(value.elements, ctx@),
                content.deep_view() == somes(each.take(i as int)),
            decreases n - i,
        {
            proof {
                lemma_somes_step(each, i as int);
            }
            push_some(&mut content, EpigraphElement::from_fb2(&value.elements[i], ctx));
            i += 1;
        }
        if content.len() == 0 {
            return None;
        }
        let authors = Paragraph::from_fb2_all(&value.text_authors, ctx);
        let epigraph = Epigraph { anchor: copy_or_empty(&value.id), authors, content };
        proof {
            lemma_epigraph_view(epigraph);
        }
        Some(epigraph)
    }

    /// Converts a list of source epigraphs and keeps those that are not
    /// empty.
    pub fn from_fb2_all(values: &Vec<source::Epigraph>, ctx: &Context) -> (r: Vec<Epigraph>)
        ensures
            r.deep_view() == epigraphs_of(*values, ctx@),
        decreases values,
    {
        let ghost each = epigraphs_each(*values, ctx@);
        let mut out: Vec<Epigraph> = empty_vec();
        let n: usize = values.len();
        let mut i: usize = 0;
        proof {
            lemma_somes_ends(each);
        }
        while i < n
            invariant
                n == values.len(),
                i <= n,
                each == epigraphs_each(*values, ctx@),
                out.deep_view() == somes(each.take(i as int)),
            decreases n - i,
        {
            proof {
                lemma_somes_step(each, i as int);
            }
            push_some(&mut out, Epigraph::from_fb2(&values[i], ctx));
            i += 1;
        }
        out
    }
}

impl EpigraphElement {
    /// Converts one element of a source epigraph.
    pub fn from_fb2(value: &source::EpigraphElement, ctx: &Context) -> (r: Option<
        EpigraphElement,
    >)
        ensures
            r.deep_view() == epigraph_element_of(*value, ctx@),
        decreases value,
    {
        match value {
            source::EpigraphElement::Paragraph(p) => match Paragraph::from_fb2(p, ctx) {
                Some(p) => Some(EpigraphElement::Paragraph(p)),
                None => None,
            },
            source::EpigraphElement::Poem(p) => match Poem::from_fb2(p, ctx) {
                Some(p) => Some(EpigraphElement::Poem(p)),
                None => None,
            },
            source::EpigraphElement::Cite(c) => match Cite::from_fb2(c, ctx) {
                Some(c) => Some(EpigraphElement::Cite(c)),
                None => None,
            },
            source::EpigraphElement::EmptyLine => Some(EpigraphElement::EmptyLine),
        }
    }
}

impl Cite {
    /// Converts a source citation. One without elements is dropped.
    pub fn from_fb2(value: &source::Cite, ctx: &Context) -> (r: Option<Cite>)
        ensures
            r.deep_view() == cite_of(*value, ctx@),
        decreases value,
    {
        let ghost each = cite_elements_each(value.elements, ctx@);
        let mut content: Vec<CiteElement> = empty_vec();
        let n: usize = value.elements.len();
        let mut i: usize = 0;
        proof {
            lemma_somes_ends(each);
        }
        while i < n
            invariant
                n == value.elements.len(),
                i <= n,
                each == cite_elements_each(value.elements, ctx@),
                content.deep_view() == somes(each.take(i as int)),
            decreases n - i,
        {
            proof {
                lemma_somes_step(each, i as int);
            }
            push_some(&mut content, CiteElement::from_fb2(&value.elements[i], ctx));
            i += 1;
        }
        if content.len() == 0 {
            return None;
        }
        let authors = Paragraph::from_fb2_all(&value.text_authors, ctx);
        let cite = Cite { anchor: copy_or_empty(&value.id), content, authors };
        proof {
            lemma_cite_view(cite);
        }
        Some(cite)
    }
}

impl CiteElement {
    /// Converts one element of a source citation.
    pub fn from_fb2(value: &source::CiteElement, ctx: &Context) -> (r: Option<CiteElement>)
        ensures
            r.deep_view() == cite_element_of(*value, ctx@),
        decreases value,
    {
        match value {
            source::CiteElement::Paragraph(p) => match Paragraph::from_fb2(p, ctx) {
                Some(p) => Some(CiteElement::Paragraph(p)),
                None => None,
            },
            source::CiteElement::Poem(p) => match Poem::from_fb2(p, ctx) {
                Some(p) => Some(CiteElement::Poem(p)),
                None => None,
            },
            source::CiteElement::Subtitle(s) => match Paragraph::from_fb2(s, ctx) {
                Some(s) => Some(CiteElement::Subtitle(s)),
                None => None,
            },
            source::CiteElement::Table(t) => match Table::from_fb2(t, ctx) {
                Some(t) => Some(CiteElement::Table(t)),
                None => None,
            },
            source::CiteElement::EmptyLine => Some(CiteElement::EmptyLine),
        }
    }
}

} // verus!
