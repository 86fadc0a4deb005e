use protobook::source;
use protobook::source::{StyleElement, TableCellElement};
use protobook::{
    Anchors, Annotation, AnnotationElement, BinaryIds, Chapter, Cite, CiteElement, Content,
    Context, Epigraph, EpigraphElement, Footnote, Footnotes, Image, Paragraph, Poem, PoemElement,
    Span, Stanza, Table, TableCell, TableRow, Text, Title, TitleElement,
};

const PICTURE: u128 = 7;
const PICTURE_TEXT: &str = "00000000-0000-0000-0000-000000000007";

fn binaries() -> BinaryIds {
    let mut ids = BinaryIds::new();
    ids.insert("p.png".to_string(), PICTURE);
    ids
}

fn bare(ids: &BinaryIds) -> Context<'_> {
    Context { binaries: ids, notes: Anchors::new(), comments: Anchors::new() }
}

fn src_par(id: Option<&str>, texts: &[&str]) -> source::Paragraph {
    source::Paragraph {
        id: id.map(|i| i.to_string()),
        elements: texts.iter().map(|t| StyleElement::Text(t.to_string())).collect(),
    }
}

fn par(anchor: &str, texts: &[&str]) -> Paragraph {
    Paragraph {
        anchor: anchor.to_string(),
        content: texts
            .iter()
            .map(|t| {
                Span::Text(Text {
                    value: t.to_string(),
                    font_weight: None,
                    font_style: None,
                    baseline_shift: None,
                    decorations: vec![],
                })
            })
            .collect(),
    }
}

fn cell(text: &str) -> source::TableCell {
    source::TableCell { id: None, elements: vec![StyleElement::Text(text.to_string())] }
}

fn head(text: &str) -> TableCellElement {
    TableCellElement::Head(cell(text))
}

fn data(text: &str) -> TableCellElement {
    TableCellElement::Data(cell(text))
}

fn table(rows: Vec<Vec<TableCellElement>>) -> source::Table {
    source::Table {
        id: None,
        rows: rows.into_iter().map(|cells| source::TableRow { cells }).collect(),
    }
}

fn headers(rows: Vec<Vec<TableCellElement>>) -> (bool, bool) {
    let ids = BinaryIds::new();
    let t = Table::from_fb2(&table(rows), &bare(&ids)).unwrap();
    (t.header_row, t.header_column)
}

fn section(id: Option<&str>, content: Vec<source::SectionPart>, sections: Vec<source::Section>) -> source::Section {
    source::Section {
        id: id.map(|i| i.to_string()),
        content: Some(source::SectionContent {
            title: None,
            epigraphs: vec![],
            image: None,
            annotation: None,
            content,
            sections,
        }),
    }
}

#[test]
fn paragraph_without_spans_is_dropped() {
    let ids = BinaryIds::new();
    let ctx = bare(&ids);
    assert_eq!(Paragraph::from_fb2(&src_par(Some("par1"), &[]), &ctx), None);
    assert_eq!(Paragraph::from_fb2(&src_par(Some("par1"), &["", ""]), &ctx), None);
    assert_eq!(
        Paragraph::from_fb2(&src_par(Some("par1"), &["a", "", "b"]), &ctx),
        Some(par("par1", &["a", "b"]))
    );
    assert_eq!(Paragraph::from_fb2(&src_par(None, &["a"]), &ctx), Some(par("", &["a"])));
}

#[test]
fn empty_paragraph_never_reaches_content() {
    let ids = BinaryIds::new();
    let ctx = bare(&ids);
    let parts = vec![
        source::SectionPart::Paragraph(src_par(None, &[""])),
        source::SectionPart::EmptyLine,
        source::SectionPart::Subtitle(src_par(None, &[])),
        source::SectionPart::Paragraph(src_par(None, &["a"])),
        source::SectionPart::Subtitle(src_par(None, &["s"])),
    ];
    let content = Content::from_fb2_all(&parts, &ctx);
    assert_eq!(
        content,
        vec![
            Content::EmptyLine,
            Content::Paragraph(par("", &["a"])),
            Content::Subtitle(par("", &["s"])),
        ]
    );
}

#[test]
fn table_with_head_row_and_head_column() {
    assert_eq!(
        headers(vec![vec![head("a"), head("b")], vec![head("c"), data("d")]]),
        (true, true)
    );
}

#[test]
fn table_with_head_corner_only() {
    assert_eq!(
        headers(vec![vec![head("a"), data("b")], vec![data("c"), data("d")]]),
        (false, false)
    );
}

#[test]
fn table_with_head_row_only() {
    assert_eq!(
        headers(vec![vec![head("a"), head("b")], vec![data("c"), data("d")]]),
        (true, false)
    );
}

#[test]
fn table_with_head_column_only() {
    assert_eq!(
        headers(vec![vec![head("a"), data("b")], vec![head("c"), data("d")]]),
        (false, true)
    );
}

#[test]
fn table_headers_need_a_head_corner() {
    assert_eq!(
        headers(vec![vec![data("a"), head("b")], vec![head("c"), head("d")]]),
        (false, false)
    );
}

#[test]
fn small_tables_have_no_missing_header() {
    assert_eq!(headers(vec![vec![head("a")]]), (false, false));
    assert_eq!(headers(vec![vec![head("a"), head("b")]]), (true, false));
    assert_eq!(headers(vec![vec![head("a")], vec![head("b")]]), (false, true));
    assert_eq!(headers(vec![vec![], vec![head("b")]]), (false, false));
}

#[test]
fn table_keeps_empty_cells_and_drops_empty_rows() {
    let ids = BinaryIds::new();
    let ctx = bare(&ids);
    let source = source::Table {
        id: Some("t1".to_string()),
        rows: vec![
            source::TableRow { cells: vec![] },
            source::TableRow {
                cells: vec![
                    TableCellElement::Data(source::TableCell {
                        id: Some("c1".to_string()),
                        elements: vec![],
                    }),
                    data("x"),
                ],
            },
        ],
    };
    let expected = Table {
        anchor: "t1".to_string(),
        header_column: false,
        header_row: false,
        rows: vec![TableRow {
            cells: vec![
                TableCell { anchor: "c1".to_string(), content: vec![] },
                TableCell { anchor: String::new(), content: par("", &["x"]).content },
            ],
        }],
    };
    assert_eq!(Table::from_fb2(&source, &ctx), Some(expected));
    assert_eq!(Table::from_fb2(&table(vec![vec![], vec![]]), &ctx), None);
    assert_eq!(Table::from_fb2(&table(vec![]), &ctx), None);
}

#[test]
fn image_is_resolved_with_all_its_texts() {
    let ids = binaries();
    let source = source::Image {
        href: Some("#p.png".to_string()),
        alt: Some("alt".to_string()),
        title: Some("title".to_string()),
        id: Some("i1".to_string()),
    };
    assert_eq!(
        Image::from_fb2(&source, &ids),
        Some(Image {
            id: PICTURE_TEXT.to_string(),
            anchor: "i1".to_string(),
            alt: "alt".to_string(),
            title: "title".to_string(),
        })
    );
    let unknown = source::Image { href: Some("#q.png".to_string()), alt: None, title: None, id: None };
    assert_eq!(Image::from_fb2(&unknown, &ids), None);
    let unmarked = source::Image { href: Some("p.png".to_string()), alt: None, title: None, id: None };
    assert_eq!(Image::from_fb2(&unmarked, &ids), None);
    let known = source::Image { href: Some("#p.png".to_string()), alt: None, title: None, id: None };
    assert_eq!(
        Image::from_fb2(&known, &ids),
        Some(Image {
            id: PICTURE_TEXT.to_string(),
            anchor: String::new(),
            alt: String::new(),
            title: String::new(),
        })
    );
}

#[test]
fn title_keeps_empty_lines() {
    let ids = BinaryIds::new();
    let ctx = bare(&ids);
    let source = source::Title {
        elements: vec![
            source::TitleElement::Paragraph(src_par(None, &[])),
            source::TitleElement::EmptyLine,
            source::TitleElement::Paragraph(src_par(None, &["T"])),
        ],
    };
    assert_eq!(
        Title::from_fb2(&source, &ctx),
        Some(Title {
            content: vec![TitleElement::EmptyLine, TitleElement::Paragraph(par("", &["T"]))],
        })
    );
    let empty = source::Title {
        elements: vec![source::TitleElement::Paragraph(src_par(None, &[""]))],
    };
    assert_eq!(Title::from_fb2(&empty, &ctx), None);
}

#[test]
fn poem_needs_a_stanza_or_subtitle() {
    let ids = BinaryIds::new();
    let ctx = bare(&ids);
    let stanza = |lines: &[&str]| {
        source::PoemStanza::Stanza(source::Stanza {
            title: None,
            subtitle: Some(src_par(None, &["sub"])),
            lines: lines.iter().map(|l| src_par(None, &[l])).collect(),
        })
    };
    let empty = source::Poem {
        id: Some("poem".to_string()),
        title: None,
        epigraphs: vec![],
        stanzas: vec![stanza(&[]), stanza(&[""])],
        text_authors: vec![src_par(None, &["author"])],
    };
    assert_eq!(Poem::from_fb2(&empty, &ctx), None);

    let poem = source::Poem {
        id: Some("poem".to_string()),
        title: None,
        epigraphs: vec![source::Epigraph {
            id: None,
            elements: vec![source::EpigraphElement::EmptyLine],
            text_authors: vec![],
        }],
        stanzas: vec![
            stanza(&[]),
            source::PoemStanza::Subtitle(src_par(None, &["part"])),
            stanza(&["one", "", "two"]),
        ],
        text_authors: vec![src_par(None, &[]), src_par(None, &["author"])],
    };
    assert_eq!(
        Poem::from_fb2(&poem, &ctx),
        Some(Poem {
            anchor: "poem".to_string(),
            title: None,
            epigraphs: vec![Epigraph {
                anchor: String::new(),
                authors: vec![],
                content: vec![EpigraphElement::EmptyLine],
            }],
            authors: vec![par("", &["author"])],
            content: vec![
                PoemElement::Subtitle(par("", &["part"])),
                PoemElement::Stanza(Stanza {
                    title: None,
                    subtitle: Some(par("", &["sub"])),
                    content: vec![par("", &["one"]), par("", &["two"])],
                }),
            ],
        })
    );
}

#[test]
fn cite_and_epigraph_hold_poems() {
    let ids = BinaryIds::new();
    let ctx = bare(&ids);
    let poem = || source::Poem {
        id: None,
        title: None,
        epigraphs: vec![],
        stanzas: vec![source::PoemStanza::Subtitle(src_par(None, &["s"]))],
        text_authors: vec![],
    };
    let converted = || Poem {
        anchor: String::new(),
        title: None,
        epigraphs: vec![],
        authors: vec![],
        content: vec![PoemElement::Subtitle(par("", &["s"]))],
    };
    let cite = source::Cite {
        id: Some("c".to_string()),
        elements: vec![
            source::CiteElement::Paragraph(src_par(None, &[])),
            source::CiteElement::Poem(poem()),
            source::CiteElement::EmptyLine,
        ],
        text_authors: vec![src_par(None, &["who"])],
    };
    assert_eq!(
        Cite::from_fb2(&cite, &ctx),
        Some(Cite {
            anchor: "c".to_string(),
            content: vec![CiteElement::Poem(converted()), CiteElement::EmptyLine],
            authors: vec![par("", &["who"])],
        })
    );
    let epigraph = source::Epigraph {
        id: None,
        elements: vec![
            source::EpigraphElement::Poem(poem()),
            source::EpigraphElement::Cite(source::Cite {
                id: None,
                elements: vec![],
                text_authors: vec![],
            }),
        ],
        text_authors: vec![],
    };
    assert_eq!(
        Epigraph::from_fb2(&epigraph, &ctx),
        Some(Epigraph {
            anchor: String::new(),
            authors: vec![],
            content: vec![EpigraphElement::Poem(converted())],
        })
    );
    let nothing = source::Epigraph { id: None, elements: vec![], text_authors: vec![src_par(None, &["a"])] };
    assert_eq!(Epigraph::from_fb2(&nothing, &ctx), None);
}

#[test]
fn annotation_without_elements_is_dropped() {
    let ids = BinaryIds::new();
    let ctx = bare(&ids);
    let empty = source::Annotation {
        id: Some("a".to_string()),
        elements: vec![source::AnnotationElement::Paragraph(src_par(None, &[]))],
    };
    assert_eq!(Annotation::from_fb2(&empty, &ctx), None);
    let filled = source::Annotation {
        id: Some("a".to_string()),
        elements: vec![
            source::AnnotationElement::Subtitle(src_par(None, &["s"])),
            source::AnnotationElement::EmptyLine,
        ],
    };
    assert_eq!(
        Annotation::from_fb2(&filled, &ctx),
        Some(Annotation {
            anchor: "a".to_string(),
            content: vec![
                AnnotationElement::Subtitle(par("", &["s"])),
                AnnotationElement::EmptyLine,
            ],
        })
    );
}

#[test]
fn content_image_is_dropped_when_unresolved() {
    let ids = binaries();
    let ctx = bare(&ids);
    let image = |href: &str| {
        source::SectionPart::Image(source::Image {
            href: Some(href.to_string()),
            alt: None,
            title: None,
            id: None,
        })
    };
    assert_eq!(Content::from_fb2(&image("#none"), &ctx), None);
    assert_eq!(
        Content::from_fb2(&image("#p.png"), &ctx),
        Some(Content::Image(Image {
            id: PICTURE_TEXT.to_string(),
            anchor: String::new(),
            alt: String::new(),
            title: String::new(),
        }))
    );
    assert_eq!(Content::from_fb2(&source::SectionPart::EmptyLine, &ctx), Some(Content::EmptyLine));
}

#[test]
fn chapter_without_content_and_sub_chapters_is_dropped() {
    let ids = BinaryIds::new();
    let ctx = bare(&ids);
    assert_eq!(Chapter::from_fb2(&source::Section { id: Some("s".to_string()), content: None }, &ctx), None);
    assert_eq!(Chapter::from_fb2(&section(Some("s"), vec![], vec![]), &ctx), None);
    let hollow = section(
        Some("s"),
        vec![source::SectionPart::Paragraph(src_par(None, &[""]))],
        vec![section(None, vec![], vec![])],
    );
    assert_eq!(Chapter::from_fb2(&hollow, &ctx), None);
}

#[test]
fn chapter_with_only_sub_chapters_is_kept() {
    let ids = BinaryIds::new();
    let ctx = bare(&ids);
    let inner = section(Some("in"), vec![source::SectionPart::Paragraph(src_par(None, &["t"]))], vec![]);
    let outer = section(Some("out"), vec![], vec![section(None, vec![], vec![]), inner]);
    let chapter = Chapter::from_fb2(&outer, &ctx).unwrap();
    assert_eq!(chapter.anchor, "out");
    assert_eq!(chapter.content, vec![]);
    assert_eq!(chapter.sub_chapters.len(), 1);
    assert_eq!(chapter.sub_chapters[0].anchor, "in");
    assert_eq!(chapter.sub_chapters[0].content, vec![Content::Paragraph(par("", &["t"]))]);
    assert_eq!(chapter.sub_chapters[0].sub_chapters, vec![]);
}

#[test]
fn footnote_needs_an_id_and_content() {
    let ids = BinaryIds::new();
    let ctx = bare(&ids);
    let text = || vec![source::SectionPart::Paragraph(src_par(None, &["note"]))];
    assert_eq!(Footnote::from_fb2(&section(None, text(), vec![]), &ctx), None);
    assert_eq!(Footnote::from_fb2(&section(Some(""), text(), vec![]), &ctx), None);
    assert_eq!(Footnote::from_fb2(&section(Some("n1"), vec![], vec![]), &ctx), None);
    assert_eq!(
        Footnote::from_fb2(&source::Section { id: Some("n1".to_string()), content: None }, &ctx),
        None
    );
    assert_eq!(
        Footnote::from_fb2(&section(Some("n1"), text(), vec![]), &ctx),
        Some((
            "n1".to_string(),
            Footnote { title: None, content: vec![Content::Paragraph(par("", &["note"]))] }
        ))
    );
}

#[test]
fn footnotes_keep_one_footnote_per_anchor() {
    let ids = BinaryIds::new();
    let ctx = bare(&ids);
    let note = |id: Option<&str>, text: &str| {
        section(id, vec![source::SectionPart::Paragraph(src_par(None, &[text]))], vec![])
    };
    let body = source::Body {
        name: Some("notes".to_string()),
        lang: None,
        title: None,
        epigraphs: vec![],
        sections: vec![
            note(Some("n1"), "first"),
            note(None, "lost"),
            note(Some("n2"), "second"),
            note(Some("n1"), "again"),
        ],
    };
    let notes = Footnotes::from_fb2(&body, &ctx).unwrap();
    assert_eq!(notes.title, None);
    assert_eq!(
        notes.content,
        vec![
            (
                "n1".to_string(),
                Footnote { title: None, content: vec![Content::Paragraph(par("", &["again"]))] }
            ),
            (
                "n2".to_string(),
                Footnote { title: None, content: vec![Content::Paragraph(par("", &["second"]))] }
            ),
        ]
    );
    let anchors = notes.anchors();
    assert!(anchors.contains(&"n1".to_string()));
    assert!(anchors.contains(&"n2".to_string()));
    assert!(!anchors.contains(&"lost".to_string()));

    let empty = source::Body {
        name: Some("notes".to_string()),
        lang: None,
        title: None,
        epigraphs: vec![],
        sections: vec![note(None, "lost")],
    };
    assert_eq!(Footnotes::from_fb2(&empty, &ctx), None);
}
