use protobook::source;
use protobook::source::StyleElement;
use protobook::{
    Author, BinaryIds, Book, Chapter, Content, Date, FootnoteLink, FootnoteType, Href,
    InlineImage, Link, Paragraph, Span, Text,
};

const NIL: &str = "00000000-0000-0000-0000-000000000000";

fn verbose(first: &str, middle: Option<&str>, last: &str, nick: Option<&str>) -> source::Author {
    source::Author::Verbose(source::VerboseAuthorDetails {
        first_name: first.to_string(),
        middle_name: middle.map(|m| m.to_string()),
        last_name: last.to_string(),
        nickname: nick.map(|n| n.to_string()),
    })
}

fn anonymous(nick: Option<&str>) -> source::Author {
    source::Author::Anonymous(source::AnonymousAuthorDetails {
        nickname: nick.map(|n| n.to_string()),
    })
}

fn plain(value: &str) -> Text {
    Text {
        value: value.to_string(),
        font_weight: None,
        font_style: None,
        baseline_shift: None,
        decorations: vec![],
    }
}

fn paragraph_with(elements: Vec<StyleElement>) -> source::SectionPart {
    source::SectionPart::Paragraph(source::Paragraph { id: None, elements })
}

fn link_to(href: &str, text: &str) -> StyleElement {
    StyleElement::Link(source::Link {
        href: Some(href.to_string()),
        kind: None,
        elements: vec![source::StyleLinkElement::Text(text.to_string())],
    })
}

fn section(id: &str, content: Vec<source::SectionPart>) -> source::Section {
    source::Section {
        id: Some(id.to_string()),
        content: Some(source::SectionContent {
            title: None,
            epigraphs: vec![],
            image: None,
            annotation: None,
            content,
            sections: vec![],
        }),
    }
}

fn body(name: Option<&str>, lang: Option<&str>, sections: Vec<source::Section>) -> source::Body {
    source::Body {
        name: name.map(|n| n.to_string()),
        lang: lang.map(|l| l.to_string()),
        title: None,
        epigraphs: vec![],
        sections,
    }
}

fn document(lang: &str, authors: Vec<source::Author>, bodies: Vec<source::Body>) -> source::FictionBook {
    source::FictionBook {
        description: source::Description {
            title_info: source::TitleInfo {
                book_title: "Педагогическая поэма. Полная версия".to_string(),
                date: Some(source::Date {
                    iso_date: Some("1936-01-01".to_string()),
                    display_date: Some("1936".to_string()),
                }),
                authors,
                lang: lang.to_string(),
                cover_page: Some(source::Covers {
                    images: vec![
                        source::InlineImage { href: Some("#missing.jpg".to_string()), alt: None },
                        source::InlineImage {
                            href: Some("#cover.jpg".to_string()),
                            alt: Some("cover".to_string()),
                        },
                        source::InlineImage { href: Some("#back.jpg".to_string()), alt: None },
                    ],
                }),
                annotation: None,
            },
        },
        bodies,
        binaries: vec![
            source::Binary { id: "cover.jpg".to_string() },
            source::Binary { id: "back.jpg".to_string() },
        ],
    }
}

fn binaries() -> BinaryIds {
    let mut ids = BinaryIds::new();
    ids.insert("cover.jpg".to_string(), 1);
    ids.insert("back.jpg".to_string(), 2);
    ids
}

#[test]
fn full_name_joins_given_middle_family() {
    let author = Author::from_fb2(&verbose("A", Some("B"), "C", None)).unwrap();
    assert_eq!(
        author,
        Author {
            id: NIL.to_string(),
            full_name: "A B C".to_string(),
            given_name: "A".to_string(),
            family_name: "C".to_string(),
            middle_name: "B".to_string(),
        }
    );
}

#[test]
fn full_name_skips_missing_parts() {
    assert_eq!(Author::from_fb2(&verbose("A", None, "C", Some("N"))).unwrap().full_name, "A C");
    assert_eq!(Author::from_fb2(&verbose("A", Some(""), "", None)).unwrap().full_name, "A");
    assert_eq!(Author::from_fb2(&verbose("", Some("B"), "C", None)).unwrap().full_name, "B C");
    assert_eq!(Author::from_fb2(&verbose("", None, "C", None)).unwrap().full_name, "C");
    assert_eq!(Author::from_fb2(&verbose("", Some("B"), "", None)).unwrap().full_name, "B");
}

#[test]
fn full_name_falls_back_to_nickname() {
    let author = Author::from_fb2(&verbose("", Some(""), "", Some("Nick"))).unwrap();
    assert_eq!(
        author,
        Author {
            id: NIL.to_string(),
            full_name: "Nick".to_string(),
            given_name: String::new(),
            family_name: String::new(),
            middle_name: String::new(),
        }
    );
    let author = Author::from_fb2(&anonymous(Some("Nick"))).unwrap();
    assert_eq!(author.full_name, "Nick");
    assert_eq!(author.given_name, "");
}

#[test]
fn author_without_any_name_is_absent() {
    assert_eq!(Author::from_fb2(&verbose("", Some(""), "", Some(""))), None);
    assert_eq!(Author::from_fb2(&verbose("", None, "", None)), None);
    assert_eq!(Author::from_fb2(&anonymous(None)), None);
    assert_eq!(Author::from_fb2(&anonymous(Some(""))), None);
}

#[test]
fn date_parts_default_to_empty() {
    let date = Date::from_fb2(&source::Date { iso_date: None, display_date: Some("1936".to_string()) });
    assert_eq!(date, Date { iso_date: String::new(), display_date: "1936".to_string() });
    let date = Date::from_fb2(&source::Date { iso_date: None, display_date: None });
    assert_eq!(date, Date { iso_date: String::new(), display_date: String::new() });
}

#[test]
fn book_scalars_come_from_the_title_info() {
    let id: u128 = 0x0011_2233_4455_6677_8899_aabb_ccdd_eeff;
    let book = Book::from_fb2(document("ru", vec![], vec![]), id, &binaries());
    assert_eq!(book.id, "00112233-4455-6677-8899-aabbccddeeff");
    assert_eq!(book.id, uuid::Uuid::from_u128(id).to_string());
    assert_eq!(book.short_title, "Педагогическая поэма. Полная версия");
    assert_eq!(
        book.date,
        Some(Date { iso_date: "1936-01-01".to_string(), display_date: "1936".to_string() })
    );
    assert_eq!(book.language, "ru");
    assert_eq!(book.chapters, vec![]);
    assert_eq!(book.title, None);
    assert_eq!(book.notes, None);
    assert_eq!(book.comments, None);
}

#[test]
fn book_without_date_has_none() {
    let mut source = document("ru", vec![], vec![]);
    source.description.title_info.date = None;
    let book = Book::from_fb2(source, 1, &binaries());
    assert_eq!(book.date, None);
}

#[test]
fn nameless_authors_leave_the_list() {
    let authors = vec![
        verbose("A", Some("B"), "C", None),
        verbose("", None, "", None),
        anonymous(None),
        anonymous(Some("Nick")),
    ];
    let book = Book::from_fb2(document("ru", authors, vec![]), 1, &binaries());
    let names: Vec<&str> = book.authors.iter().map(|a| a.full_name.as_str()).collect();
    assert_eq!(names, vec!["A B C", "Nick"]);
}

#[test]
fn cover_is_the_first_resolved_image() {
    let book = Book::from_fb2(document("ru", vec![], vec![]), 1, &binaries());
    assert_eq!(
        book.cover,
        Some(InlineImage {
            id: "00000000-0000-0000-0000-000000000001".to_string(),
            alt: "cover".to_string(),
        })
    );
    let mut undeclared = document("ru", vec![], vec![]);
    undeclared.binaries = vec![];
    assert!(BinaryIds::new().covers(&undeclared.binaries));
    let book = Book::from_fb2(undeclared, 1, &BinaryIds::new());
    assert_eq!(book.cover, None);
}

#[test]
fn binary_ids_cover_declared_binaries() {
    let source = document("ru", vec![], vec![]);
    assert!(binaries().covers(&source.binaries));
    assert!(!BinaryIds::new().covers(&source.binaries));
    let mut one = BinaryIds::new();
    one.insert("cover.jpg".to_string(), 1);
    assert!(!one.covers(&source.binaries));
    assert!(one.covers(&vec![]));
}

#[test]
fn language_must_be_a_language_tag() {
    let book = Book::from_fb2(document("en-US", vec![], vec![]), 1, &binaries());
    assert_eq!(book.language, "en-US");
    let book = Book::from_fb2(document("not a language", vec![], vec![]), 1, &binaries());
    assert_eq!(book.language, "");
    let book = Book::from_fb2(document("", vec![], vec![]), 1, &binaries());
    assert_eq!(book.language, "");
}

#[test]
fn language_of_main_body_comes_first() {
    let bodies = vec![body(Some("notes"), Some("de"), vec![]), body(None, Some("fr"), vec![])];
    let book = Book::from_fb2(document("ru", vec![], bodies), 1, &binaries());
    assert_eq!(book.language, "fr");
    let bodies = vec![body(None, None, vec![])];
    let book = Book::from_fb2(document("ru", vec![], bodies), 1, &binaries());
    assert_eq!(book.language, "ru");
}

#[test]
fn links_are_resolved_against_notes_and_comments() {
    let main = body(
        None,
        None,
        vec![section(
            "ch1",
            vec![paragraph_with(vec![
                link_to("#n1", "1"),
                link_to("#c1", "2"),
                link_to("#n9", "3"),
            ])],
        )],
    );
    let notes = body(
        Some("notes"),
        None,
        vec![section("n1", vec![paragraph_with(vec![link_to("#n1", "self")])])],
    );
    let comments = body(
        Some("comments"),
        None,
        vec![section("c1", vec![paragraph_with(vec![StyleElement::Text("c".to_string())])])],
    );
    let second_main = body(None, None, vec![section("other", vec![source::SectionPart::EmptyLine])]);
    let book = Book::from_fb2(
        document("ru", vec![], vec![notes, main, comments, second_main]),
        1,
        &binaries(),
    );

    assert_eq!(
        book.chapters,
        vec![Chapter {
            anchor: "ch1".to_string(),
            title: None,
            annotation: None,
            cover: None,
            epigraphs: vec![],
            content: vec![Content::Paragraph(Paragraph {
                anchor: String::new(),
                content: vec![
                    Span::Footnote(FootnoteLink {
                        id: "n1".to_string(),
                        kind: FootnoteType::Note,
                        content: vec![plain("1")],
                    }),
                    Span::Footnote(FootnoteLink {
                        id: "c1".to_string(),
                        kind: FootnoteType::Comment,
                        content: vec![plain("2")],
                    }),
                    Span::Link(Link {
                        href: Href::Local("n9".to_string()),
                        content: vec![plain("3")],
                    }),
                ],
            })],
            sub_chapters: vec![],
        }]
    );

    let notes = book.notes.unwrap();
    assert_eq!(notes.content.len(), 1);
    assert_eq!(notes.content[0].0, "n1");
    assert_eq!(
        notes.content[0].1.content,
        vec![Content::Paragraph(Paragraph {
            anchor: String::new(),
            content: vec![Span::Link(Link {
                href: Href::Local("n1".to_string()),
                content: vec![plain("self")],
            })],
        })]
    );
    let comments = book.comments.unwrap();
    assert_eq!(comments.content.len(), 1);
    assert_eq!(comments.content[0].0, "c1");
}

#[test]
fn same_source_gives_the_same_book() {
    let build = || {
        let main = body(
            None,
            Some("ru"),
            vec![section("ch1", vec![paragraph_with(vec![link_to("#n1", "1")])])],
        );
        let notes = body(
            Some("notes"),
            None,
            vec![section("n1", vec![paragraph_with(vec![StyleElement::Text("n".to_string())])])],
        );
        document("ru", vec![verbose("A", None, "C", None)], vec![main, notes])
    };
    let first = Book::from_fb2(build(), 42, &binaries());
    let second = Book::from_fb2(build(), 42, &binaries());
    assert_eq!(first, second);
    assert_eq!(first.id, "00000000-0000-0000-0000-00000000002a");
    let other = Book::from_fb2(build(), 43, &binaries());
    assert_ne!(first, other);
}
