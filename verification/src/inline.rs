//! Flattening of inline markup into spans, and the classification of links.

use vstd::prelude::*;
use vstd::string::*;
use crate::context::{BinaryIds, Context, ContextView};
use crate::outside::{format_uuid, uuid_text};
use crate::seqs::{joined, lemma_deep_append, lemma_deep_push, lemma_joined_step, lemma_somes_step, somes};
use crate::source;
use crate::span::{
    styled_all, styled_spans, text_of, FootnoteLink, FootnoteLinkView, FootnoteType, Href,
    HrefView, InlineImage, InlineImageView, Link, LinkView, Span, SpanView, Text, TextStyle,
    TextView,
};
use crate::text::{after_marker, copy_or_empty, strip_marker, text_or_empty};

verus! {

/// The identifier text of the binary that `href` points to: `href` is an
/// anchor marker followed by the id of a known binary.
pub open spec fn binary_of(href: Option<String>, binaries: Map<Seq<char>, u128>) -> Option<
    Seq<char>,
> {
    match href {
        Some(h) => match after_marker(h@) {
            Some(key) => if binaries.contains_key(key) {
                Some(uuid_text(binaries[key]))
            } else {
                None
            },
            None => None,
        },
        None => None,
    }
}

/// The inline image that a source image becomes: none unless its reference
/// leads to a known binary.
pub open spec fn inline_image_of(
    image: source::InlineImage,
    binaries: Map<Seq<char>, u128>,
) -> Option<InlineImageView> {
    match binary_of(image.href, binaries) {
        Some(id) => Some(InlineImageView { id, alt: text_or_empty(image.alt) }),
        None => None,
    }
}

/// The link target that a source reference becomes: none for the empty
/// string, a local anchor after a marker, else a remote address.
pub open spec fn href_of(href: Seq<char>) -> Option<HrefView> {
    if href.len() == 0 {
        None
    } else {
        match after_marker(href) {
            Some(id) => Some(HrefView::Local(id)),
            None => Some(HrefView::Remote(href)),
        }
    }
}

/// The span of an optional image: one span or none.
pub open spec fn image_span(image: Option<InlineImageView>) -> Seq<SpanView> {
    match image {
        Some(i) => seq![SpanView::Image(i)],
        None => Seq::empty(),
    }
}

/// The span of an optional text: one span or none.
pub open spec fn text_span(text: Option<TextView>) -> Seq<SpanView> {
    match text {
        Some(t) => seq![SpanView::Text(t)],
        None => Seq::empty(),
    }
}

/// The spans of one piece of markup inside a link.
pub open spec fn link_spans_of(
    element: source::StyleLinkElement,
    binaries: Map<Seq<char>, u128>,
) -> Seq<SpanView>
    decreases element, 0int,
{
    match element {
        source::StyleLinkElement::Strong(es) => styled_spans(
            link_spans_of_all(es, binaries),
            TextStyle::Bold,
        ),
        source::StyleLinkElement::Emphasis(es) => styled_spans(
            link_spans_of_all(es, binaries),
            TextStyle::Italic,
        ),
        source::StyleLinkElement::Style(es) => link_spans_of_all(es, binaries),
        source::StyleLinkElement::Strikethrough(es) => styled_spans(
            link_spans_of_all(es, binaries),
            TextStyle::Strikethrough,
        ),
        source::StyleLinkElement::Subscript(es) => styled_spans(
            link_spans_of_all(es, binaries),
            TextStyle::Subscript,
        ),
        source::StyleLinkElement::Superscript(es) => styled_spans(
            link_spans_of_all(es, binaries),
            TextStyle::Superscript,
        ),
        source::StyleLinkElement::Code(es) => styled_spans(
            link_spans_of_all(es, binaries),
            TextStyle::Code,
        ),
        source::StyleLinkElement::Image(i) => image_span(inline_image_of(i, binaries)),
        source::StyleLinkElement::Text(t) => text_span(text_of(t@)),
    }
}

/// The spans of each piece of markup inside a link, piece by piece.
pub open spec fn link_spans_each(
    elements: Vec<source::StyleLinkElement>,
    binaries: Map<Seq<char>, u128>,
) -> Seq<Seq<SpanView>>
    decreases elements, 0int,
{
    Seq::new(
        elements@.len(),
        |i: int|
            if 0 <= i < elements@.len() {
                link_spans_of(elements@[i], binaries)
            } else {
                Seq::empty()
            },
    )
}

/// The spans of a list of markup inside a link, in order.
pub open spec fn link_spans_of_all(
    elements: Vec<source::StyleLinkElement>,
    binaries: Map<Seq<char>, u128>,
) -> Seq<SpanView>
    decreases elements, 1int,
{
    joined(link_spans_each(elements, binaries))
}

/// The text that a span is, if it is one.
pub open spec fn text_part(s: SpanView) -> Option<TextView> {
    match s {
        SpanView::Text(t) => Some(t),
        _ => None,
    }
}

/// The span itself, if it is an image.
pub open spec fn image_part(s: SpanView) -> Option<SpanView> {
    match s {
        SpanView::Image(_) => Some(s),
        _ => None,
    }
}

/// The texts among the spans, in order.
pub open spec fn texts_in(spans: Seq<SpanView>) -> Seq<TextView> {
    somes(Seq::new(spans.len(), |i: int| text_part(spans[i])))
}

/// The image spans among the spans, in order.
pub open spec fn images_in(spans: Seq<SpanView>) -> Seq<SpanView> {
    somes(Seq::new(spans.len(), |i: int| image_part(spans[i])))
}

/// The values of the texts, one after the other.
pub open spec fn values_joined(texts: Seq<TextView>) -> Seq<char> {
    joined(Seq::new(texts.len(), |i: int| texts[i].value))
}

/// Each text as a span of its own.
pub open spec fn as_spans(texts: Seq<TextView>) -> Seq<SpanView> {
    Seq::new(texts.len(), |i: int| SpanView::Text(texts[i]))
}

/// What a link with a target becomes, before the images inside it: an image
/// where the target is a known binary; else, if the link holds text, a
/// footnote link, a comment link, the bare text of a note marker, or a link.
pub open spec fn link_head(
    href: HrefView,
    note_kind: bool,
    texts: Seq<TextView>,
    ctx: ContextView,
) -> Seq<SpanView> {
    let key = href.text();
    if ctx.binaries.contains_key(key) {
        seq![
            SpanView::Image(
                InlineImageView { id: uuid_text(ctx.binaries[key]), alt: values_joined(texts) },
            ),
        ]
    } else if texts.len() == 0 {
        Seq::empty()
    } else if ctx.notes.contains(key) {
        seq![
            SpanView::Footnote(
                FootnoteLinkView { id: key, kind: FootnoteType::Note, content: texts },
            ),
        ]
    } else if ctx.comments.contains(key) {
        seq![
            SpanView::Footnote(
                FootnoteLinkView { id: key, kind: FootnoteType::Comment, content: texts },
            ),
        ]
    } else if note_kind {
        as_spans(texts)
    } else {
        seq![SpanView::Link(LinkView { href, content: texts })]
    }
}

/// What a link with a target becomes: its head, then the images that stood
/// inside the link.
pub open spec fn classified(
    href: HrefView,
    note_kind: bool,
    content: Seq<SpanView>,
    ctx: ContextView,
) -> Seq<SpanView> {
    link_head(href, note_kind, texts_in(content), ctx) + images_in(content)
}

/// Whether the `kind` attribute of a link marks it as a note.
pub open spec fn is_note_kind(kind: Option<String>) -> bool {
    match kind {
        Some(k) => k@ == "note"@,
        None => false,
    }
}

/// The target of a source link, if it has one that can be read.
pub open spec fn link_target(href: Option<String>) -> Option<HrefView> {
    match href {
        Some(h) => href_of(h@),
        None => None,
    }
}

/// The spans of a source link: classified where it has a target, else the
/// spans of its content as they are.
pub open spec fn link_of(link: source::Link, ctx: ContextView) -> Seq<SpanView> {
    let content = link_spans_of_all(link.elements, ctx.binaries);
    match link_target(link.href) {
        Some(href) => classified(href, is_note_kind(link.kind), content, ctx),
        None => content,
    }
}

/// The spans of one piece of inline markup.
pub open spec fn spans_of(element: source::StyleElement, ctx: ContextView) -> Seq<SpanView>
    decreases element, 0int,
{
    match element {
        source::StyleElement::Strong(es) => styled_spans(spans_of_all(es, ctx), TextStyle::Bold),
        source::StyleElement::Emphasis(es) => styled_spans(
            spans_of_all(es, ctx),
            TextStyle::Italic,
        ),
        source::StyleElement::Style(es) => spans_of_all(es, ctx),
        source::StyleElement::Link(l) => link_of(l, ctx),
        source::StyleElement::Strikethrough(es) => styled_spans(
            spans_of_all(es, ctx),
            TextStyle::Strikethrough,
        ),
        source::StyleElement::Subscript(es) => styled_spans(
            spans_of_all(es, ctx),
            TextStyle::Subscript,
        ),
        source::StyleElement::Superscript(es) => styled_spans(
            spans_of_all(es, ctx),
            TextStyle::Superscript,
        ),
        source::StyleElement::Code(es) => styled_spans(spans_of_all(es, ctx), TextStyle::Code),
        source::StyleElement::Image(i) => image_span(inline_image_of(i, ctx.binaries)),
        source::StyleElement::Text(t) => text_span(text_of(t@)),
    }
}

/// The spans of each piece of inline markup, piece by piece.
pub open spec fn spans_each(elements: Vec<source::StyleElement>, ctx: ContextView) -> Seq<
    Seq<SpanView>,
>
    decreases elements, 0int,
{
    Seq::new(
        elements@.len(),
        |i: int|
            if 0 <= i < elements@.len() {
                spans_of(elements@[i], ctx)
            } else {
                Seq::empty()
            },
    )
}

/// The spans of a list of inline markup, in order.
pub open spec fn spans_of_all(elements: Vec<source::StyleElement>, ctx: ContextView) -> Seq<
    SpanView,
>
    decreases elements, 1int,
{
    joined(spans_each(elements, ctx))
}

/// The identifier text of the binary that `href` points to.
pub fn resolve_binary(href: &Option<String>, binaries: &BinaryIds) -> (r: Option<String>)
    ensures
        r.deep_view() == binary_of(*href, binaries@),
{
    match href {
        Some(h) => match strip_marker(h.as_str()) {
            Some(key) => match binaries.get(&key) {
                Some(id) => Some(format_uuid(id)),
                None => None,
            },
            None => None,
        },
        None => None,
    }
}

impl InlineImage {
    /// Resolves a source image against the known binaries.
    pub fn from_fb2(value: &source::InlineImage, binary_ids: &BinaryIds) -> (r: Option<
        InlineImage,
    >)
        ensures
            r.deep_view() == inline_image_of(*value, binary_ids@),
    {
        match resolve_binary(&value.href, binary_ids) {
            Some(id) => Some(InlineImage { id, alt: copy_or_empty(&value.alt) }),
            None => None,
        }
    }
}

impl Href {
    /// Reads a source reference as a link target.
    pub fn from_fb2(href: String) -> (r: Option<Href>)
        ensures
            r.deep_view() == href_of(href@),
    {
        if href.as_str().is_empty() {
            return None;
        }
        match strip_marker(href.as_str()) {
            Some(id) => Some(Href::Local(id)),
            None => Some(Href::Remote(href)),
        }
    }
}

/// Whether the `kind` attribute of a link marks it as a note.
pub fn note_kind(kind: &Option<String>) -> (r: bool)
    ensures
        r == is_note_kind(*kind),
{
    match kind {
        Some(k) => {
            let note = "note".to_owned();
            *k == note
        },
        None => false,
    }
}

/// The texts among the spans, copied.
pub fn texts_among(spans: &Vec<Span>) -> (r: Vec<Text>)
    ensures
        r.deep_view() == texts_in(spans.deep_view()),
{
    let ghost parts = Seq::new(
        spans.deep_view().len(),
        |i: int| text_part(spans.deep_view()[i]),
    );
    let mut out: Vec<Text> = Vec::new();
    let n: usize = spans.len();
    let mut i: usize = 0;
    proof {
        assert(parts.take(0) =~= Seq::empty());
        assert(out.deep_view() =~= Seq::empty());
    }
    while i < n
        invariant
            n == spans.len(),
            i <= n,
            parts == Seq::new(spans.deep_view().len(), |i: int| text_part(spans.deep_view()[i])),
            out.deep_view() == somes(parts.take(i as int)),
        decreases n - i,
    {
        proof {
            lemma_somes_step(parts, i as int);
        }
        match &spans[i] {
            Span::Text(t) => {
                let ghost before = out;
                let c = t.copied();
                out.push(c);
                proof {
                    lemma_deep_push(before, out, c);
                }
            },
            _ => {},
        }
        i += 1;
    }
    proof {
        assert(parts.take(n as int) =~= parts);
    }
    out
}

/// The image spans among the spans, copied.
pub fn images_among(spans: &Vec<Span>) -> (r: Vec<Span>)
    ensures
        r.deep_view() == images_in(spans.deep_view()),
{
    let ghost parts = Seq::new(
        spans.deep_view().len(),
        |i: int| image_part(spans.deep_view()[i]),
    );
    let mut out: Vec<Span> = Vec::new();
    let n: usize = spans.len();
    let mut i: usize = 0;
    proof {
        assert(parts.take(0) =~= Seq::empty());
        assert(out.deep_view() =~= Seq::empty());
    }
    while i < n
        invariant
            n == spans.len(),
            i <= n,
            parts == Seq::new(spans.deep_view().len(), |i: int| image_part(spans.deep_view()[i])),
            out.deep_view() == somes(parts.take(i as int)),
        decreases n - i,
    {
        proof {
            lemma_somes_step(parts, i as int);
        }
        match &spans[i] {
            Span::Image(img) => {
                let ghost before = out;
                let c = Span::Image(img.copied());
                out.push(c);
                proof {
                    lemma_deep_push(before, out, c);
                }
            },
            _ => {},
        }
        i += 1;
    }
    proof {
        assert(parts.take(n as int) =~= parts);
    }
    out
}

/// The values of the texts, one after the other.
pub fn join_values(texts: &Vec<Text>) -> (r: String)
    ensures
        r@ == values_joined(texts.deep_view()),
{
    let ghost values = Seq::new(texts.deep_view().len(), |i: int| texts.deep_view()[i].value);
    let mut out = String::new();
    let n: usize = texts.len();
    let mut i: usize = 0;
    proof {
        assert(values.take(0) =~= Seq::empty());
    }
    while i < n
        invariant
            n == texts.len(),
            i <= n,
            values == Seq::new(texts.deep_view().len(), |i: int| texts.deep_view()[i].value),
            out@ == joined(values.take(i as int)),
        decreases n - i,
    {
        proof {
            lemma_joined_step(values, i as int);
        }
        out.append(texts[i].value.as_str());
        i += 1;
    }
    proof {
        assert(values.take(n as int) =~= values);
    }
    out
}

/// Each text as a span of its own.
pub fn texts_as_spans(texts: Vec<Text>) -> (r: Vec<Span>)
    ensures
        r.deep_view() == as_spans(texts.deep_view()),
{
    let mut out: Vec<Span> = Vec::new();
    let n: usize = texts.len();
    let mut i: usize = 0;
    while i < n
        invariant
            n == texts.len(),
            i <= n,
            out.deep_view() == as_spans(texts.deep_view()).take(i as int),
        decreases n - i,
    {
        let ghost before = out;
        let s = Span::Text(texts[i].copied());
        out.push(s);
        proof {
            lemma_deep_push(before, out, s);
            assert(out.deep_view() =~= as_spans(texts.deep_view()).take(i + 1));
        }
        i += 1;
    }
    assert(out.deep_view() =~= as_spans(texts.deep_view()));
    out
}

/// One span as a list.
fn single(span: Span) -> (r: Vec<Span>)
    ensures
        r.deep_view() == seq![span.deep_view()],
{
    let mut out: Vec<Span> = Vec::new();
    out.push(span);
    assert(out.deep_view() =~= seq![span.deep_view()]);
    out
}

/// No span.
fn no_spans() -> (r: Vec<Span>)
    ensures
        r.deep_view() == Seq::<SpanView>::empty(),
{
    let out: Vec<Span> = Vec::new();
    assert(out.deep_view() =~= Seq::<SpanView>::empty());
    out
}

/// Appends `added` to `spans`.
fn extend(spans: &mut Vec<Span>, added: Vec<Span>)
    ensures
        final(spans).deep_view() == old(spans).deep_view() + added.deep_view(),
{
    let ghost before = *spans;
    let mut added = added;
    let ghost moved = added;
    spans.append(&mut added);
    proof {
        lemma_deep_append(before, *spans, moved);
    }
}

impl Span {
    /// Classifies a link that has a target. `content` holds the spans of
    /// what stands inside the link.
    pub fn from_link(href: Href, note_kind: bool, content: &Vec<Span>, ctx: &Context) -> (r: Vec<
        Span,
    >)
        ensures
            r.deep_view() == classified(href.deep_view(), note_kind, content.deep_view(), ctx@),
    {
        let texts = texts_among(content);
        let images = images_among(content);
        let key = href.as_ref().to_owned();
        let mut spans = match ctx.binaries.get(&key) {
            Some(id) => single(
                Span::Image(InlineImage { id: format_uuid(id), alt: join_values(&texts) }),
            ),
            None => {
                if texts.len() == 0 {
                    no_spans()
                } else if ctx.notes.contains(&key) {
                    single(
                        Span::Footnote(
                            FootnoteLink { id: key, kind: FootnoteType::Note, content: texts },
                        ),
                    )
                } else if ctx.comments.contains(&key) {
                    single(
                        Span::Footnote(
                            FootnoteLink { id: key, kind: FootnoteType::Comment, content: texts },
                        ),
                    )
                } else if note_kind {
                    texts_as_spans(texts)
                } else {
                    single(Span::Link(Link { href, content: texts }))
                }
            },
        };
        extend(&mut spans, images);
        spans
    }

    /// Flattens one piece of markup inside a link.
    pub fn from_fb2_link(element: &source::StyleLinkElement, binary_ids: &BinaryIds) -> (r: Vec<
        Span,
    >)
        ensures
            r.deep_view() == link_spans_of(*element, binary_ids@),
        decreases element,
    {
        match element {
            source::StyleLinkElement::Strong(es) => styled_all(
                &Span::from_fb2_link_all(es, binary_ids),
                TextStyle::Bold,
            ),
            source::StyleLinkElement::Emphasis(es) => styled_all(
                &Span::from_fb2_link_all(es, binary_ids),
                TextStyle::Italic,
            ),
            source::StyleLinkElement::Style(es) => Span::from_fb2_link_all(es, binary_ids),
            source::StyleLinkElement::Strikethrough(es) => styled_all(
                &Span::from_fb2_link_all(es, binary_ids),
                TextStyle::Strikethrough,
            ),
            source::StyleLinkElement::Subscript(es) => styled_all(
                &Span::from_fb2_link_all(es, binary_ids),
                TextStyle::Subscript,
            ),
            source::StyleLinkElement::Superscript(es) => styled_all(
                &Span::from_fb2_link_all(es, binary_ids),
                TextStyle::Superscript,
            ),
            source::StyleLinkElement::Code(es) => styled_all(
                &Span::from_fb2_link_all(es, binary_ids),
                TextStyle::Code,
            ),
            source::StyleLinkElement::Image(i) => match InlineImage::from_fb2(i, binary_ids) {
                Some(i) => single(Span::Image(i)),
                None => no_spans(),
            },
            source::StyleLinkElement::Text(t) => match Text::from_fb2(t.clone()) {
                Some(text) => single(Span::Text(text)),
                None => no_spans(),
            },
        }
    }

    /// Flattens a list of markup inside a link.
    pub fn from_fb2_link_all(
        elements: &Vec<source::StyleLinkElement>,
        binary_ids: &BinaryIds,
    ) -> (r: Vec<Span>)
        ensures
            r.deep_view() == link_spans_of_all(*elements, binary_ids@),
        decreases elements,
    {
        let ghost each = link_spans_each(*elements, binary_ids@);
        let mut out = no_spans();
        let n: usize = elements.len();
        let mut i: usize = 0;
        proof {
            assert(each.take(0) =~= Seq::empty());
        }
        while i < n
            invariant
                n == elements.len(),
                i <= n,
                each == link_spans_each(*elements, binary_ids@),
                out.deep_view() == joined(each.take(i as int)),
            decreases n - i,
        {
            proof {
                lemma_joined_step(each, i as int);
            }
            let added = Span::from_fb2_link(&elements[i], binary_ids);
            extend(&mut out, added);
            i += 1;
        }
        proof {
            assert(each.take(n as int) =~= each);
        }
        out
    }

    /// Flattens one piece of inline markup.
    pub fn from_fb2(element: &source::StyleElement, ctx: &Context) -> (r: Vec<Span>)
        ensures
            r.deep_view() == spans_of(*element, ctx@),
        decreases element,
    {
        match element {
            source::StyleElement::Strong(es) => styled_all(
                &Span::from_fb2_all(es, ctx),
                TextStyle::Bold,
            ),
            source::StyleElement::Emphasis(es) => styled_all(
                &Span::from_fb2_all(es, ctx),
                TextStyle::Italic,
            ),
            source::StyleElement::Style(es) => Span::from_fb2_all(es, ctx),
            source::StyleElement::Link(l) => {
                let content = Span::from_fb2_link_all(&l.elements, ctx.binaries);
                let href = match &l.href {
                    Some(h) => Href::from_fb2(h.clone()),
                    None => None,
                };
                match href {
                    Some(href) => Span::from_link(href, note_kind(&l.kind), &content, ctx),
                    None => content,
                }
            },
            source::StyleElement::Strikethrough(es) => styled_all(
                &Span::from_fb2_all(es, ctx),
                TextStyle::Strikethrough,
            ),
            source::StyleElement::Subscript(es) => styled_all(
                &Span::from_fb2_all(es, ctx),
                TextStyle::Subscript,
            ),
            source::StyleElement::Superscript(es) => styled_all(
                &Span::from_fb2_all(es, ctx),
                TextStyle::Superscript,
            ),
            source::StyleElement::Code(es) => styled_all(
                &Span::from_fb2_all(es, ctx),
                TextStyle::Code,
            ),
            source::StyleElement::Image(i) => match InlineImage::from_fb2(i, ctx.binaries) {
                Some(i) => single(Span::Image(i)),
                None => no_spans(),
            },
            source::StyleElement::Text(t) => match Text::from_fb2(t.clone()) {
                Some(text) => single(Span::Text(text)),
                None => no_spans(),
            },
        }
    }

    /// Flattens a list of inline markup.
    pub fn from_fb2_all(elements: &Vec<source::StyleElement>, ctx: &Context) -> (r: Vec<Span>)
        ensures
            r.deep_view() == spans_of_all(*elements, ctx@),
        decreases elements,
    {
        let ghost each = spans_each(*elements, ctx@);
        let mut out = no_spans();
        let n: usize = elements.len();
        let mut i: usize = 0;
        proof {
            assert(each.take(0) =~= Seq::empty());
        }
        while i < n
            invariant
                n == elements.len(),
                i <= n,
                each == spans_each(*elements, ctx@),
                out.deep_view() == joined(each.take(i as int)),
            decreases n - i,
        {
            proof {
                lemma_joined_step(each, i as int);
            }
            let added = Span::from_fb2(&elements[i], ctx);
            extend(&mut out, added);
            i += 1;
        }
        proof {
            assert(each.take(n as int) =~= each);
        }
        out
    }
}

} // verus!
