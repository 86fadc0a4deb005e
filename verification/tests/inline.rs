use protobook::source::{InlineImage as SourceImage, Link as SourceLink, StyleElement, StyleLinkElement};
use protobook::{
    bold_text, code_text, hydrate_text, italic_text, non_empty, strikethrough_text,
    subscript_text, superscript_text, Anchors, BaselineShift, BinaryIds, Context, FontStyle,
    FootnoteLink, FootnoteType, Href, InlineImage, Link, Span, Text, TextDecoration, TextStyle,
};

const COVER: u128 = 0x1234_5678_9abc_def0_1122_3344_5566_7788;
const COVER_TEXT: &str = "12345678-9abc-def0-1122-334455667788";

fn plain(value: &str) -> Text {
    Text {
        value: value.to_string(),
        font_weight: None,
        font_style: None,
        baseline_shift: None,
        decorations: vec![],
    }
}

fn text(value: &str) -> StyleElement {
    StyleElement::Text(value.to_string())
}

fn binaries() -> BinaryIds {
    let mut ids = BinaryIds::new();
    ids.insert("cover.jpg".to_string(), COVER);
    ids
}

fn context<'a>(ids: &'a BinaryIds, notes: &[&str], comments: &[&str]) -> Context<'a> {
    let mut n = Anchors::new();
    for a in notes {
        n.insert(a.to_string());
    }
    let mut c = Anchors::new();
    for a in comments {
        c.insert(a.to_string());
    }
    Context { binaries: ids, notes: n, comments: c }
}

fn link(href: Option<&str>, kind: Option<&str>, elements: Vec<StyleLinkElement>) -> StyleElement {
    StyleElement::Link(SourceLink {
        href: href.map(|h| h.to_string()),
        kind: kind.map(|k| k.to_string()),
        elements,
    })
}

#[test]
fn non_empty_keeps_only_filled_strings() {
    assert_eq!(non_empty(String::new()), None);
    assert_eq!(non_empty("a".to_string()), Some("a".to_string()));
    assert_eq!(non_empty(" ".to_string()), Some(" ".to_string()));
}

#[test]
fn text_from_empty_string_is_absent() {
    assert_eq!(Text::from_fb2(String::new()), None);
    assert_eq!(Text::from_fb2("x".to_string()), Some(plain("x")));
}

#[test]
fn href_is_local_after_marker_and_remote_otherwise() {
    assert_eq!(Href::from_fb2(String::new()), None);
    assert_eq!(Href::from_fb2("#n1".to_string()), Some(Href::Local("n1".to_string())));
    assert_eq!(Href::from_fb2("#".to_string()), Some(Href::Local(String::new())));
    assert_eq!(
        Href::from_fb2("https://example.org/a#b".to_string()),
        Some(Href::Remote("https://example.org/a#b".to_string()))
    );
    assert_eq!(Href::Local("n1".to_string()).as_ref(), "n1");
    assert_eq!(Href::Remote("u".to_string()).as_ref(), "u");
}

#[test]
fn href_marker_is_stripped_by_characters() {
    assert_eq!(Href::from_fb2("#сноска".to_string()), Some(Href::Local("сноска".to_string())));
}

#[test]
fn binary_ids_later_entry_replaces_earlier() {
    let mut ids = BinaryIds::new();
    assert_eq!(ids.get(&"a".to_string()), None);
    ids.insert("a".to_string(), 1);
    ids.insert("b".to_string(), 2);
    ids.insert("a".to_string(), 3);
    assert_eq!(ids.get(&"a".to_string()), Some(3));
    assert_eq!(ids.get(&"b".to_string()), Some(2));
    assert_eq!(ids.get(&"c".to_string()), None);
}

#[test]
fn anchors_contain_what_was_inserted() {
    let mut a = Anchors::new();
    assert!(!a.contains(&"n1".to_string()));
    a.insert("n1".to_string());
    assert!(a.contains(&"n1".to_string()));
    assert!(!a.contains(&"n2".to_string()));
}

#[test]
fn inline_image_needs_marker_and_known_binary() {
    let ids = binaries();
    let image = |href: Option<&str>| SourceImage {
        href: href.map(|h| h.to_string()),
        alt: Some("alt".to_string()),
    };
    assert_eq!(InlineImage::from_fb2(&image(None), &ids), None);
    assert_eq!(InlineImage::from_fb2(&image(Some("")), &ids), None);
    assert_eq!(InlineImage::from_fb2(&image(Some("cover.jpg")), &ids), None);
    assert_eq!(InlineImage::from_fb2(&image(Some("#other.jpg")), &ids), None);
    assert_eq!(
        InlineImage::from_fb2(&image(Some("#cover.jpg")), &ids),
        Some(InlineImage { id: COVER_TEXT.to_string(), alt: "alt".to_string() })
    );
    let bare = SourceImage { href: Some("#cover.jpg".to_string()), alt: None };
    assert_eq!(
        InlineImage::from_fb2(&bare, &ids),
        Some(InlineImage { id: COVER_TEXT.to_string(), alt: String::new() })
    );
}

#[test]
fn identifier_text_is_what_uuid_prints() {
    let ids = binaries();
    let bare = SourceImage { href: Some("#cover.jpg".to_string()), alt: None };
    let image = InlineImage::from_fb2(&bare, &ids).unwrap();
    assert_eq!(image.id, uuid::Uuid::from_u128(COVER).to_string());
    assert_ne!(image.id, COVER.to_string());
}

#[test]
fn strong_emphasis_text_is_bold_and_italic() {
    let ids = BinaryIds::new();
    let ctx = context(&ids, &[], &[]);
    let element = StyleElement::Strong(vec![StyleElement::Emphasis(vec![text("x")])]);
    let spans = Span::from_fb2(&element, &ctx);
    let mut expected = plain("x");
    expected.font_weight = Some(600);
    expected.font_style = Some(FontStyle::Italic);
    assert_eq!(spans, vec![Span::Text(expected)]);
}

#[test]
fn outer_font_style_wins() {
    let ids = BinaryIds::new();
    let ctx = context(&ids, &[], &[]);
    let element = StyleElement::Emphasis(vec![StyleElement::Code(vec![text("x")])]);
    let spans = Span::from_fb2(&element, &ctx);
    let mut expected = plain("x");
    expected.font_style = Some(FontStyle::Italic);
    assert_eq!(spans, vec![Span::Text(expected)]);

    let element = StyleElement::Code(vec![StyleElement::Emphasis(vec![text("x")])]);
    let spans = Span::from_fb2(&element, &ctx);
    let mut expected = plain("x");
    expected.font_style = Some(FontStyle::Code);
    assert_eq!(spans, vec![Span::Text(expected)]);
}

#[test]
fn outer_baseline_shift_wins() {
    let ids = BinaryIds::new();
    let ctx = context(&ids, &[], &[]);
    let element = StyleElement::Superscript(vec![StyleElement::Subscript(vec![text("x")])]);
    let spans = Span::from_fb2(&element, &ctx);
    let mut expected = plain("x");
    expected.baseline_shift = Some(BaselineShift::Superscript);
    assert_eq!(spans, vec![Span::Text(expected)]);
}

#[test]
fn strikethrough_adds_a_decoration_each_time() {
    let ids = BinaryIds::new();
    let ctx = context(&ids, &[], &[]);
    let element =
        StyleElement::Strikethrough(vec![StyleElement::Strikethrough(vec![text("x")])]);
    let spans = Span::from_fb2(&element, &ctx);
    let mut expected = plain("x");
    expected.decorations = vec![TextDecoration::LineThrough, TextDecoration::LineThrough];
    assert_eq!(spans, vec![Span::Text(expected)]);
}

#[test]
fn style_wrapper_changes_nothing() {
    let ids = BinaryIds::new();
    let ctx = context(&ids, &[], &[]);
    let element = StyleElement::Style(vec![text("a"), text(""), text("b")]);
    let spans = Span::from_fb2(&element, &ctx);
    assert_eq!(spans, vec![Span::Text(plain("a")), Span::Text(plain("b"))]);
}

#[test]
fn bold_twice_is_bold_once() {
    let once = bold_text(Span::Text(plain("x")));
    let twice = bold_text(bold_text(Span::Text(plain("x"))));
    assert_eq!(once, twice);
    match once {
        Span::Text(t) => assert_eq!(t.font_weight, Some(600)),
        _ => panic!("a text span stays a text span"),
    }
}

#[test]
fn each_style_sets_its_own_field() {
    let styled = |s: Span| match s {
        Span::Text(t) => t,
        _ => panic!("a text span stays a text span"),
    };
    let t = styled(italic_text(Span::Text(plain("x"))));
    assert_eq!(t.font_style, Some(FontStyle::Italic));
    assert_eq!(t.font_weight, None);
    let t = styled(code_text(Span::Text(plain("x"))));
    assert_eq!(t.font_style, Some(FontStyle::Code));
    let t = styled(subscript_text(Span::Text(plain("x"))));
    assert_eq!(t.baseline_shift, Some(BaselineShift::Subscript));
    let t = styled(superscript_text(Span::Text(plain("x"))));
    assert_eq!(t.baseline_shift, Some(BaselineShift::Superscript));
    let t = styled(strikethrough_text(Span::Text(plain("x"))));
    assert_eq!(t.decorations, vec![TextDecoration::LineThrough]);
    assert_eq!(t.value, "x");
}

#[test]
fn style_reaches_text_inside_links_and_footnotes_but_not_images() {
    let image = Span::Image(InlineImage { id: "i".to_string(), alt: "a".to_string() });
    assert_eq!(hydrate_text(image.clone(), TextStyle::Bold), image);

    let link = Span::Link(Link {
        href: Href::Remote("u".to_string()),
        content: vec![plain("a"), plain("b")],
    });
    let mut a = plain("a");
    a.font_weight = Some(600);
    let mut b = plain("b");
    b.font_weight = Some(600);
    assert_eq!(
        hydrate_text(link, TextStyle::Bold),
        Span::Link(Link { href: Href::Remote("u".to_string()), content: vec![a, b] })
    );

    let note = Span::Footnote(FootnoteLink {
        id: "n".to_string(),
        kind: FootnoteType::Comment,
        content: vec![plain("a")],
    });
    let mut a = plain("a");
    a.font_style = Some(FontStyle::Code);
    assert_eq!(
        hydrate_text(note, TextStyle::Code),
        Span::Footnote(FootnoteLink {
            id: "n".to_string(),
            kind: FootnoteType::Comment,
            content: vec![a],
        })
    );
}

#[test]
fn link_to_binary_without_text_is_one_image() {
    let ids = binaries();
    let ctx = context(&ids, &[], &[]);
    let spans = Span::from_fb2(&link(Some("cover.jpg"), None, vec![]), &ctx);
    assert_eq!(
        spans,
        vec![Span::Image(InlineImage { id: COVER_TEXT.to_string(), alt: String::new() })]
    );
}

#[test]
fn link_to_binary_takes_its_text_as_alt() {
    let ids = binaries();
    let ctx = context(&ids, &["cover.jpg"], &[]);
    let elements = vec![
        StyleLinkElement::Text("see ".to_string()),
        StyleLinkElement::Strong(vec![StyleLinkElement::Text("this".to_string())]),
    ];
    let spans = Span::from_fb2(&link(Some("cover.jpg"), Some("note"), elements), &ctx);
    assert_eq!(
        spans,
        vec![Span::Image(InlineImage { id: COVER_TEXT.to_string(), alt: "see this".to_string() })]
    );
}

#[test]
fn link_to_footnote_anchor_is_a_note() {
    let ids = binaries();
    let ctx = context(&ids, &["n1"], &["n1", "c1"]);
    let elements = vec![StyleLinkElement::Text("1".to_string())];
    let spans = Span::from_fb2(&link(Some("#n1"), Some("note"), elements), &ctx);
    assert_eq!(
        spans,
        vec![Span::Footnote(FootnoteLink {
            id: "n1".to_string(),
            kind: FootnoteType::Note,
            content: vec![plain("1")],
        })]
    );
}

#[test]
fn link_to_comment_anchor_is_a_comment() {
    let ids = binaries();
    let ctx = context(&ids, &["n1"], &["c1"]);
    let elements = vec![StyleLinkElement::Text("*".to_string())];
    let spans = Span::from_fb2(&link(Some("#c1"), None, elements), &ctx);
    assert_eq!(
        spans,
        vec![Span::Footnote(FootnoteLink {
            id: "c1".to_string(),
            kind: FootnoteType::Comment,
            content: vec![plain("*")],
        })]
    );
}

#[test]
fn unknown_note_link_keeps_only_its_text() {
    let ids = binaries();
    let ctx = context(&ids, &["n1"], &["c1"]);
    let elements = vec![
        StyleLinkElement::Text("a".to_string()),
        StyleLinkElement::Emphasis(vec![StyleLinkElement::Text("b".to_string())]),
    ];
    let spans = Span::from_fb2(&link(Some("#n9"), Some("note"), elements), &ctx);
    let mut b = plain("b");
    b.font_style = Some(FontStyle::Italic);
    assert_eq!(spans, vec![Span::Text(plain("a")), Span::Text(b)]);
}

#[test]
fn other_link_with_text_is_a_link() {
    let ids = binaries();
    let ctx = context(&ids, &["n1"], &["c1"]);
    let elements = vec![StyleLinkElement::Text("site".to_string())];
    let spans = Span::from_fb2(&link(Some("https://example.org"), None, elements), &ctx);
    assert_eq!(
        spans,
        vec![Span::Link(Link {
            href: Href::Remote("https://example.org".to_string()),
            content: vec![plain("site")],
        })]
    );
    let elements = vec![StyleLinkElement::Text("there".to_string())];
    let spans = Span::from_fb2(&link(Some("#sec2"), Some("other"), elements), &ctx);
    assert_eq!(
        spans,
        vec![Span::Link(Link {
            href: Href::Local("sec2".to_string()),
            content: vec![plain("there")],
        })]
    );
}

#[test]
fn link_without_text_leaves_only_its_images() {
    let ids = binaries();
    let ctx = context(&ids, &["n1"], &[]);
    let image = SourceImage { href: Some("#cover.jpg".to_string()), alt: Some("c".to_string()) };
    let spans = Span::from_fb2(&link(Some("#n1"), None, vec![StyleLinkElement::Image(image)]), &ctx);
    assert_eq!(
        spans,
        vec![Span::Image(InlineImage { id: COVER_TEXT.to_string(), alt: "c".to_string() })]
    );
    assert_eq!(Span::from_fb2(&link(Some("#n1"), None, vec![]), &ctx), vec![]);
}

#[test]
fn images_inside_a_link_come_after_it() {
    let ids = binaries();
    let ctx = context(&ids, &[], &[]);
    let image = SourceImage { href: Some("#cover.jpg".to_string()), alt: None };
    let elements = vec![
        StyleLinkElement::Image(image),
        StyleLinkElement::Text("t".to_string()),
    ];
    let spans = Span::from_fb2(&link(Some("#x"), None, elements), &ctx);
    assert_eq!(
        spans,
        vec![
            Span::Link(Link { href: Href::Local("x".to_string()), content: vec![plain("t")] }),
            Span::Image(InlineImage { id: COVER_TEXT.to_string(), alt: String::new() }),
        ]
    );
}

#[test]
fn link_without_target_is_spliced() {
    let ids = binaries();
    let ctx = context(&ids, &["n1"], &[]);
    let image = SourceImage { href: Some("#cover.jpg".to_string()), alt: None };
    let elements = || {
        vec![
            StyleLinkElement::Image(SourceImage { href: image.href.clone(), alt: None }),
            StyleLinkElement::Text("t".to_string()),
        ]
    };
    let expected = vec![
        Span::Image(InlineImage { id: COVER_TEXT.to_string(), alt: String::new() }),
        Span::Text(plain("t")),
    ];
    assert_eq!(Span::from_fb2(&link(None, Some("note"), elements()), &ctx), expected);
    assert_eq!(Span::from_fb2(&link(Some(""), None, elements()), &ctx), expected);
}

#[test]
fn classified_link_drops_links_and_footnotes_in_its_content() {
    let ids = binaries();
    let ctx = context(&ids, &[], &[]);
    let content = vec![
        Span::Link(Link { href: Href::Remote("u".to_string()), content: vec![plain("in")] }),
        Span::Text(plain("t")),
    ];
    let spans = Span::from_link(Href::Remote("v".to_string()), false, &content, &ctx);
    assert_eq!(
        spans,
        vec![Span::Link(Link { href: Href::Remote("v".to_string()), content: vec![plain("t")] })]
    );
}

#[test]
fn link_markup_is_flattened_in_order() {
    let ids = binaries();
    let element = StyleLinkElement::Style(vec![
        StyleLinkElement::Subscript(vec![StyleLinkElement::Text("a".to_string())]),
        StyleLinkElement::Superscript(vec![StyleLinkElement::Text("b".to_string())]),
        StyleLinkElement::Code(vec![StyleLinkElement::Text("c".to_string())]),
        StyleLinkElement::Strikethrough(vec![StyleLinkElement::Text("d".to_string())]),
        StyleLinkElement::Text(String::new()),
    ]);
    let spans = Span::from_fb2_link(&element, &ids);
    let mut a = plain("a");
    a.baseline_shift = Some(BaselineShift::Subscript);
    let mut b = plain("b");
    b.baseline_shift = Some(BaselineShift::Superscript);
    let mut c = plain("c");
    c.font_style = Some(FontStyle::Code);
    let mut d = plain("d");
    d.decorations = vec![TextDecoration::LineThrough];
    assert_eq!(spans, vec![Span::Text(a), Span::Text(b), Span::Text(c), Span::Text(d)]);
}
