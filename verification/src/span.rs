//! Inline content: styled text, inline images, links and footnote links,
//! with their views, and the style changes that the wrappers of the source
//! markup apply.

use vstd::prelude::*;
use crate::seqs::lemma_deep_push;

verus! {

/// The weight that strong text gets.
pub const BOLD_WEIGHT: u32 = 600;

#[derive(Clone, Copy, Debug, PartialEq, Eq)]
pub enum FontStyle {
    Normal,
    Italic,
    Code,
}

#[derive(Clone, Copy, Debug, PartialEq, Eq)]
pub enum BaselineShift {
    Baseline,
    Subscript,
    Superscript,
}

#[derive(Clone, Copy, Debug, PartialEq, Eq)]
pub enum TextDecoration {
    Underline,
    LineThrough,
}

#[derive(Clone, Copy, Debug, PartialEq, Eq)]
pub enum FootnoteType {
    Note,
    Comment,
}

/// One change of style, as a wrapper of the source markup asks for it.
#[derive(Clone, Copy, Debug, PartialEq, Eq)]
pub enum TextStyle {
    Bold,
    Italic,
    Code,
    Subscript,
    Superscript,
    Strikethrough,
}

#[derive(Clone, Debug, PartialEq, Eq)]
pub struct Text {
    pub value: String,
    pub font_weight: Option<u32>,
    pub font_style: Option<FontStyle>,
    pub baseline_shift: Option<BaselineShift>,
    pub decorations: Vec<TextDecoration>,
}

pub struct TextView {
    pub value: Seq<char>,
    pub font_weight: Option<u32>,
    pub font_style: Option<FontStyle>,
    pub baseline_shift: Option<BaselineShift>,
    pub decorations: Seq<TextDecoration>,
}

impl DeepView for Text {
    type V = TextView;

    open spec fn deep_view(&self) -> TextView {
        TextView {
            value: self.value@,
            font_weight: self.font_weight,
            font_style: self.font_style,
            baseline_shift: self.baseline_shift,
            decorations: self.decorations@,
        }
    }
}

#[derive(Clone, Debug, PartialEq, Eq)]
pub struct InlineImage {
    pub id: String,
    pub alt: String,
}

pub struct InlineImageView {
    pub id: Seq<char>,
    pub alt: Seq<char>,
}

impl DeepView for InlineImage {
    type V = InlineImageView;

    open spec fn deep_view(&self) -> InlineImageView {
        InlineImageView { id: self.id@, alt: self.alt@ }
    }
}

/// A link target: an anchor of the same document, or an address outside it.
#[derive(Clone, Debug, PartialEq, Eq)]
pub enum Href {
    Local(String),
    Remote(String),
}

pub enum HrefView {
    Local(Seq<char>),
    Remote(Seq<char>),
}

impl DeepView for Href {
    type V = HrefView;

    open spec fn deep_view(&self) -> HrefView {
        match self {
            Href::Local(id) => HrefView::Local(id@),
            Href::Remote(url) => HrefView::Remote(url@),
        }
    }
}

impl HrefView {
    /// The anchor or the address, whichever the target holds.
    pub open spec fn text(self) -> Seq<char> {
        match self {
            HrefView::Local(id) => id,
            HrefView::Remote(url) => url,
        }
    }
}

#[derive(Clone, Debug, PartialEq, Eq)]
pub struct Link {
    pub href: Href,
    pub content: Vec<Text>,
}

pub struct LinkView {
    pub href: HrefView,
    pub content: Seq<TextView>,
}

impl DeepView for Link {
    type V = LinkView;

    open spec fn deep_view(&self) -> LinkView {
        LinkView { href: self.href.deep_view(), content: self.content.deep_view() }
    }
}

#[derive(Clone, Debug, PartialEq, Eq)]
pub struct FootnoteLink {
    pub id: String,
    pub kind: FootnoteType,
    pub content: Vec<Text>,
}

pub struct FootnoteLinkView {
    pub id: Seq<char>,
    pub kind: FootnoteType,
    pub content: Seq<TextView>,
}

impl DeepView for FootnoteLink {
    type V = FootnoteLinkView;

    open spec fn deep_view(&self) -> FootnoteLinkView {
        FootnoteLinkView { id: self.id@, kind: self.kind, content: self.content.deep_view() }
    }
}

/// The smallest unit of inline content.
#[derive(Clone, Debug, PartialEq, Eq)]
pub enum Span {
    Text(Text),
    Image(InlineImage),
    Link(Link),
    Footnote(FootnoteLink),
}

pub enum SpanView {
    Text(TextView),
    Image(InlineImageView),
    Link(LinkView),
    Footnote(FootnoteLinkView),
}

impl DeepView for Span {
    type V = SpanView;

    open spec fn deep_view(&self) -> SpanView {
        match self {
            Span::Text(t) => SpanView::Text(t.deep_view()),
            Span::Image(i) => SpanView::Image(i.deep_view()),
            Span::Link(l) => SpanView::Link(l.deep_view()),
            Span::Footnote(f) => SpanView::Footnote(f.deep_view()),
        }
    }
}

/// `t` after one change of style. Weight, font style and baseline shift are
/// overwritten; a decoration is added to those already there.
pub open spec fn styled_text(t: TextView, style: TextStyle) -> TextView {
    match style {
        TextStyle::Bold => TextView { font_weight: Some(BOLD_WEIGHT), ..t },
        TextStyle::Italic => TextView { font_style: Some(FontStyle::Italic), ..t },
        TextStyle::Code => TextView { font_style: Some(FontStyle::Code), ..t },
        TextStyle::Subscript => TextView { baseline_shift: Some(BaselineShift::Subscript), ..t },
        TextStyle::Superscript => TextView {
            baseline_shift: Some(BaselineShift::Superscript),
            ..t
        },
        TextStyle::Strikethrough => TextView {
            decorations: t.decorations.push(TextDecoration::LineThrough),
            ..t
        },
    }
}

/// Each text of `ts` after the change of style.
pub open spec fn styled_texts(ts: Seq<TextView>, style: TextStyle) -> Seq<TextView> {
    Seq::new(ts.len(), |i: int| styled_text(ts[i], style))
}

/// `s` after one change of style: every text in it is changed, an image is
/// left as it is.
pub open spec fn styled_span(s: SpanView, style: TextStyle) -> SpanView {
    match s {
        SpanView::Text(t) => SpanView::Text(styled_text(t, style)),
        SpanView::Image(i) => SpanView::Image(i),
        SpanView::Link(l) => SpanView::Link(
            LinkView { href: l.href, content: styled_texts(l.content, style) },
        ),
        SpanView::Footnote(f) => SpanView::Footnote(
            FootnoteLinkView { id: f.id, kind: f.kind, content: styled_texts(f.content, style) },
        ),
    }
}

/// Each span of `ss` after the change of style.
pub open spec fn styled_spans(ss: Seq<SpanView>, style: TextStyle) -> Seq<SpanView> {
    Seq::new(ss.len(), |i: int| styled_span(ss[i], style))
}

impl Text {
    /// A text of the given value without any style.
    pub fn plain(value: String) -> (r: Text)
        ensures
            r.deep_view() == plain_text(value@),
    {
        Text {
            value,
            font_weight: None,
            font_style: None,
            baseline_shift: None,
            decorations: Vec::new(),
        }
    }

    /// A text from a source string: none for the empty string.
    pub fn from_fb2(value: String) -> (r: Option<Text>)
        ensures
            r.deep_view() == text_of(value@),
    {
        if value.as_str().is_empty() {
            None
        } else {
            Some(Text::plain(value))
        }
    }

    /// A copy of this text.
    pub fn copied(&self) -> (r: Text)
        ensures
            r.deep_view() == self.deep_view(),
    {
        let mut decorations: Vec<TextDecoration> = Vec::new();
        let n: usize = self.decorations.len();
        let mut i: usize = 0;
        while i < n
            invariant
                n == self.decorations.len(),
                i <= n,
                decorations@ == self.decorations@.take(i as int),
            decreases n - i,
        {
            decorations.push(self.decorations[i]);
            assert(self.decorations@.take(i + 1) =~= self.decorations@.take(i as int).push(
                self.decorations@[i as int],
            ));
            i += 1;
        }
        assert(self.decorations@.take(n as int) =~= self.decorations@);
        Text {
            value: self.value.clone(),
            font_weight: self.font_weight,
            font_style: self.font_style,
            baseline_shift: self.baseline_shift,
            decorations,
        }
    }

    /// A copy of this text after one change of style.
    pub fn styled(&self, style: TextStyle) -> (r: Text)
        ensures
            r.deep_view() == styled_text(self.deep_view(), style),
    {
        let mut r = self.copied();
        match style {
            TextStyle::Bold => {
                r.font_weight = Some(BOLD_WEIGHT);
            },
            TextStyle::Italic => {
                r.font_style = Some(FontStyle::Italic);
            },
            TextStyle::Code => {
                r.font_style = Some(FontStyle::Code);
            },
            TextStyle::Subscript => {
                r.baseline_shift = Some(BaselineShift::Subscript);
            },
            TextStyle::Superscript => {
                r.baseline_shift = Some(BaselineShift::Superscript);
            },
            TextStyle::Strikethrough => {
                r.decorations.push(TextDecoration::LineThrough);
            },
        }
        r
    }
}

/// The view of a text without any style.
pub open spec fn plain_text(value: Seq<char>) -> TextView {
    TextView {
        value,
        font_weight: None,
        font_style: None,
        baseline_shift: None,
        decorations: Seq::empty(),
    }
}

/// The text that a source string becomes: none for the empty string.
pub open spec fn text_of(value: Seq<char>) -> Option<TextView> {
    if value.len() == 0 {
        None
    } else {
        Some(plain_text(value))
    }
}

/// Copies of the texts after one change of style.
pub fn styled_all_texts(texts: &Vec<Text>, style: TextStyle) -> (r: Vec<Text>)
    ensures
        r.deep_view() == styled_texts(texts.deep_view(), style),
{
    let mut out: Vec<Text> = Vec::new();
    let n: usize = texts.len();
    let mut i: usize = 0;
    while i < n
        invariant
            n == texts.len(),
            i <= n,
            out.deep_view() == styled_texts(texts.deep_view(), style).take(i as int),
        decreases n - i,
    {
        let t = texts[i].styled(style);
        let ghost before = out;
        out.push(t);
        proof {
            lemma_deep_push(before, out, t);
            assert(out.deep_view() =~= styled_texts(texts.deep_view(), style).take(i + 1));
        }
        i += 1;
    }
    assert(out.deep_view() =~= styled_texts(texts.deep_view(), style));
    out
}

impl InlineImage {
    /// A copy of this image.
    pub fn copied(&self) -> (r: InlineImage)
        ensures
            r.deep_view() == self.deep_view(),
    {
        InlineImage { id: self.id.clone(), alt: self.alt.clone() }
    }
}

impl Href {
    /// A copy of this target.
    pub fn copied(&self) -> (r: Href)
        ensures
            r.deep_view() == self.deep_view(),
    {
        match self {
            Href::Local(id) => Href::Local(id.clone()),
            Href::Remote(url) => Href::Remote(url.clone()),
        }
    }

    /// The anchor or the address, whichever the target holds.
    pub fn as_ref(&self) -> (r: &str)
        ensures
            r@ == self.deep_view().text(),
    {
        match self {
            Href::Local(id) => id.as_str(),
            Href::Remote(url) => url.as_str(),
        }
    }
}

impl Span {
    /// A copy of this span after one change of style.
    pub fn styled(&self, style: TextStyle) -> (r: Span)
        ensures
            r.deep_view() == styled_span(self.deep_view(), style),
    {
        match self {
            Span::Text(t) => Span::Text(t.styled(style)),
            Span::Image(i) => Span::Image(i.copied()),
            Span::Link(l) => Span::Link(
                Link { href: l.href.copied(), content: styled_all_texts(&l.content, style) },
            ),
            Span::Footnote(f) => Span::Footnote(
                FootnoteLink {
                    id: f.id.clone(),
                    kind: f.kind,
                    content: styled_all_texts(&f.content, style),
                },
            ),
        }
    }
}

/// Copies of the spans after one change of style.
pub fn styled_all(spans: &Vec<Span>, style: TextStyle) -> (r: Vec<Span>)
    ensures
        r.deep_view() == styled_spans(spans.deep_view(), style),
{
    let mut out: Vec<Span> = Vec::new();
    let n: usize = spans.len();
    let mut i: usize = 0;
    while i < n
        invariant
            n == spans.len(),
            i <= n,
            out.deep_view() == styled_spans(spans.deep_view(), style).take(i as int),
        decreases n - i,
    {
        let s = spans[i].styled(style);
        let ghost before = out;
        out.push(s);
        proof {
            lemma_deep_push(before, out, s);
            assert(out.deep_view() =~= styled_spans(spans.deep_view(), style).take(i + 1));
        }
        i += 1;
    }
    assert(out.deep_view() =~= styled_spans(spans.deep_view(), style));
    out
}

/// Applies one change of style to every text that the span holds.
pub fn hydrate_text(span: Span, style: TextStyle) -> (r: Span)
    ensures
        r.deep_view() == styled_span(span.deep_view(), style),
{
    span.styled(style)
}

/// Sets the weight of every text in the span to `BOLD_WEIGHT`.
pub fn bold_text(span: Span) -> (r: Span)
    ensures
        r.deep_view() == styled_span(span.deep_view(), TextStyle::Bold),
{
    hydrate_text(span, TextStyle::Bold)
}

/// Lowers every text in the span below the baseline.
pub fn subscript_text(span: Span) -> (r: Span)
    ensures
        r.deep_view() == styled_span(span.deep_view(), TextStyle::Subscript),
{
    hydrate_text(span, TextStyle::Subscript)
}

/// Raises every text in the span above the baseline.
pub fn superscript_text(span: Span) -> (r: Span)
    ensures
        r.deep_view() == styled_span(span.deep_view(), TextStyle::Superscript),
{
    hydrate_text(span, TextStyle::Superscript)
}

/// Sets every text in the span in italics.
pub fn italic_text(span: Span) -> (r: Span)
    ensures
        r.deep_view() == styled_span(span.deep_view(), TextStyle::Italic),
{
    hydrate_text(span, TextStyle::Italic)
}

/// Sets every text in the span in the code font.
pub fn code_text(span: Span) -> (r: Span)
    ensures
        r.deep_view() == styled_span(span.deep_view(), TextStyle::Code),
{
    hydrate_text(span, TextStyle::Code)
}

/// Strikes every text in the span through.
pub fn strikethrough_text(span: Span) -> (r: Span)
    ensures
        r.deep_view() == styled_span(span.deep_view(), TextStyle::Strikethrough),
{
    hydrate_text(span, TextStyle::Strikethrough)
}

} // verus!
