//! Authors, dates and the assembly of the whole book.

use vstd::prelude::*;
use vstd::string::*;
use crate::block::{optional_title_of, Title, TitleView};
use crate::context::{bare_context, covers_all, Anchors, BinaryIds, Context, ContextView};
use crate::inline::inline_image_of;
use crate::outside::{format_uuid, is_language_tag, parses_as_language_tag, uuid_text};
use crate::section::{
    chapters_of, footnotes_of, optional_annotation_of, Annotation, AnnotationView, Chapter,
    ChapterView, Footnotes, FootnotesView,
};
use crate::seqs::{empty_vec, lemma_somes_ends, lemma_somes_step, push_some, somes};
use crate::source;
use crate::span::{InlineImage, InlineImageView};
use crate::text::{copy_or_empty, filled, text_or_empty};
use crate::verse::{epigraphs_of, Epigraph, EpigraphView};

verus! {

#[derive(Debug, PartialEq, Eq)]
pub struct Author {
    pub id: String,
    pub full_name: String,
    pub given_name: String,
    pub family_name: String,
    pub middle_name: String,
}

pub struct AuthorView {
    pub id: Seq<char>,
    pub full_name: Seq<char>,
    pub given_name: Seq<char>,
    pub family_name: Seq<char>,
    pub middle_name: Seq<char>,
}

impl DeepView for Author {
    type V = AuthorView;

    open spec fn deep_view(&self) -> AuthorView {
        AuthorView {
            id: self.id@,
            full_name: self.full_name@,
            given_name: self.given_name@,
            family_name: self.family_name@,
            middle_name: self.middle_name@,
        }
    }
}

#[derive(Debug, PartialEq, Eq)]
pub struct Date {
    pub iso_date: String,
    pub display_date: String,
}

pub struct DateView {
    pub iso_date: Seq<char>,
    pub display_date: Seq<char>,
}

impl DeepView for Date {
    type V = DateView;

    open spec fn deep_view(&self) -> DateView {
        DateView { iso_date: self.iso_date@, display_date: self.display_date@ }
    }
}

#[derive(Debug, PartialEq, Eq)]
pub struct Book {
    pub id: String,
    pub language: String,
    pub short_title: String,
    pub date: Option<Date>,
    pub authors: Vec<Author>,
    pub cover: Option<InlineImage>,
    pub annotation: Option<Annotation>,
    pub title: Option<Title>,
    pub epigraphs: Vec<Epigraph>,
    pub chapters: Vec<Chapter>,
    pub notes: Option<Footnotes>,
    pub comments: Option<Footnotes>,
}

pub struct BookView {
    pub id: Seq<char>,
    pub language: Seq<char>,
    pub short_title: Seq<char>,
    pub date: Option<DateView>,
    pub authors: Seq<AuthorView>,
    pub cover: Option<InlineImageView>,
    pub annotation: Option<AnnotationView>,
    pub title: Option<TitleView>,
    pub epigraphs: Seq<EpigraphView>,
    pub chapters: Seq<ChapterView>,
    pub notes: Option<FootnotesView>,
    pub comments: Option<FootnotesView>,
}

impl DeepView for Book {
    type V = BookView;

    open spec fn deep_view(&self) -> BookView {
        BookView {
            id: self.id@,
            language: self.language@,
            short_title: self.short_title@,
            date: self.date.deep_view(),
            authors: self.authors.deep_view(),
            cover: self.cover.deep_view(),
            annotation: self.annotation.deep_view(),
            title: self.title.deep_view(),
            epigraphs: self.epigraphs.deep_view(),
            chapters: self.chapters.deep_view(),
            notes: self.notes.deep_view(),
            comments: self.comments.deep_view(),
        }
    }
}

/// `name` with `part` after it, a single space between the two. An empty
/// part adds nothing, and nothing is put before the first part.
pub open spec fn with_part(name: Seq<char>, part: Seq<char>) -> Seq<char> {
    if part.len() == 0 {
        name
    } else if name.len() == 0 {
        part
    } else {
        name + seq![' '] + part
    }
}

/// The given, middle and family name in this order, each that is there,
/// with single spaces between them.
pub open spec fn composed_name(given: Seq<char>, middle: Seq<char>, family: Seq<char>) -> Seq<
    char,
> {
    with_part(with_part(given, middle), family)
}

/// The given name of a source author, empty where there is none.
pub open spec fn given_of(a: source::Author) -> Seq<char> {
    match a {
        source::Author::Verbose(v) => v.first_name@,
        source::Author::Anonymous(_) => Seq::empty(),
    }
}

/// The middle name of a source author, empty where there is none.
pub open spec fn middle_of(a: source::Author) -> Seq<char> {
    match a {
        source::Author::Verbose(v) => text_or_empty(v.middle_name),
        source::Author::Anonymous(_) => Seq::empty(),
    }
}

/// The family name of a source author, empty where there is none.
pub open spec fn family_of(a: source::Author) -> Seq<char> {
    match a {
        source::Author::Verbose(v) => v.last_name@,
        source::Author::Anonymous(_) => Seq::empty(),
    }
}

/// The nickname of a source author, if there is one and it is not empty.
pub open spec fn nickname_of(a: source::Author) -> Option<Seq<char>> {
    match a {
        source::Author::Verbose(v) => filled(v.nickname),
        source::Author::Anonymous(v) => filled(v.nickname),
    }
}

/// The name an author is shown under: the composed name, or the nickname
/// where that is empty; none where both are.
pub open spec fn full_name_of(a: source::Author) -> Option<Seq<char>> {
    let composed = composed_name(given_of(a), middle_of(a), family_of(a));
    if composed.len() > 0 {
        Some(composed)
    } else {
        nickname_of(a)
    }
}

/// The author that a source author becomes: none where there is no name
/// to show. The id is that of the nil identifier.
pub open spec fn author_of(a: source::Author) -> Option<AuthorView> {
    match full_name_of(a) {
        Some(full_name) => Some(
            AuthorView {
                id: uuid_text(0),
                full_name,
                given_name: given_of(a),
                family_name: family_of(a),
                middle_name: middle_of(a),
            },
        ),
        None => None,
    }
}

/// The date that a source date becomes.
pub open spec fn date_of(d: source::Date) -> DateView {
    DateView { iso_date: text_or_empty(d.iso_date), display_date: text_or_empty(d.display_date) }
}

/// The date of an optional source date.
pub open spec fn optional_date_of(d: Option<source::Date>) -> Option<DateView> {
    match d {
        Some(d) => Some(date_of(d)),
        None => None,
    }
}

/// The name of a source body.
pub open spec fn body_name(b: source::Body) -> Option<Seq<char>> {
    match b.name {
        Some(n) => Some(n@),
        None => None,
    }
}

/// The first body from position `from` on that has the given name.
pub open spec fn first_named(bodies: Seq<source::Body>, name: Option<Seq<char>>, from: int) -> Option<
    source::Body,
>
    decreases bodies.len() - from,
{
    if from < 0 || from >= bodies.len() {
        None
    } else if body_name(bodies[from]) == name {
        Some(bodies[from])
    } else {
        first_named(bodies, name, from + 1)
    }
}

/// The first image from position `from` on that leads to a known binary.
pub open spec fn first_image(
    images: Seq<source::InlineImage>,
    binaries: Map<Seq<char>, u128>,
    from: int,
) -> Option<InlineImageView>
    decreases images.len() - from,
{
    if from < 0 || from >= images.len() {
        None
    } else {
        match inline_image_of(images[from], binaries) {
            Some(i) => Some(i),
            None => first_image(images, binaries, from + 1),
        }
    }
}

/// The cover of the book: the first cover image that leads to a known
/// binary.
pub open spec fn cover_of(covers: Option<source::Covers>, binaries: Map<Seq<char>, u128>) -> Option<
    InlineImageView,
> {
    match covers {
        Some(c) => first_image(c.images@, binaries, 0),
        None => None,
    }
}

/// The footnotes of the first body of the given name, converted without
/// any footnote or comment known.
pub open spec fn notes_named(
    bodies: Seq<source::Body>,
    name: Seq<char>,
    binaries: Map<Seq<char>, u128>,
) -> Option<FootnotesView> {
    match first_named(bodies, Some(name), 0) {
        Some(b) => footnotes_of(b, bare_context(binaries)),
        None => None,
    }
}

/// The anchors of a collection of footnotes.
pub open spec fn anchors_in(notes: Option<FootnotesView>) -> Set<Seq<char>> {
    match notes {
        Some(f) => f.content.dom(),
        None => Set::empty(),
    }
}

/// The language of the book: that of the main body where it names one,
/// else the declared one if it is a language tag, else none.
pub open spec fn language_of(declared: Seq<char>, is_tag: bool, main: Option<source::Body>) -> Seq<
    char,
> {
    let fallback = if declared.len() > 0 && is_tag {
        declared
    } else {
        Seq::empty()
    };
    match main {
        Some(b) => match b.lang {
            Some(l) => l@,
            None => fallback,
        },
        None => fallback,
    }
}

/// The context under which the main body is converted: the binaries, and
/// the anchors of the footnotes and comments that the book has.
pub open spec fn final_context(book: source::FictionBook, binaries: Map<Seq<char>, u128>) -> ContextView {
    ContextView {
        binaries,
        notes: anchors_in(notes_named(book.bodies@, "notes"@, binaries)),
        comments: anchors_in(notes_named(book.bodies@, "comments"@, binaries)),
    }
}

/// The book that a source document becomes, under the identifier
/// `book_id` and with the given identifiers of its binaries.
pub open spec fn book_of(
    book: source::FictionBook,
    book_id: u128,
    binaries: Map<Seq<char>, u128>,
) -> BookView {
    let info = book.description.title_info;
    let ctx = final_context(book, binaries);
    let main = first_named(book.bodies@, None, 0);
    BookView {
        id: uuid_text(book_id),
        language: language_of(info.lang@, is_language_tag(info.lang@), main),
        short_title: info.book_title@,
        date: optional_date_of(info.date),
        authors: somes(Seq::new(info.authors@.len(), |i: int| author_of(info.authors@[i]))),
        cover: cover_of(info.cover_page, binaries),
        annotation: optional_annotation_of(info.annotation, ctx),
        title: match main {
            Some(b) => optional_title_of(b.title, ctx),
            None => None,
        },
        epigraphs: match main {
            Some(b) => epigraphs_of(b.epigraphs, ctx),
            None => Seq::empty(),
        },
        chapters: match main {
            Some(b) => chapters_of(b.sections, ctx),
            None => Seq::empty(),
        },
        notes: notes_named(book.bodies@, "notes"@, binaries),
        comments: notes_named(book.bodies@, "comments"@, binaries),
    }
}

/// Appends `part` to `name`, after a space where `name` is not empty.
fn add_part(name: &mut String, part: &String)
    ensures
        final(name)@ == with_part(old(name)@, part@),
{
    if part.as_str().is_empty() {
        return ;
    }
    if !name.as_str().is_empty() {
        proof {
            reveal_strlit(" ");
            assert(" "@ =~= seq![' ']);
        }
        name.append(" ");
    }
    name.append(part.as_str());
    assert(name@ =~= with_part(old(name)@, part@));
}

/// A copy of an optional string, if there is one and it is not empty.
fn copy_filled(s: &Option<String>) -> (r: Option<String>)
    ensures
        r.deep_view() == filled(*s),
{
    match s {
        Some(t) => if t.as_str().is_empty() {
            None
        } else {
            Some(t.clone())
        },
        None => None,
    }
}

impl Author {
    /// Converts a source author. One without a name to show is dropped.
    pub fn from_fb2(value: &source::Author) -> (r: Option<Author>)
        ensures
            r.deep_view() == author_of(*value),
    {
        let (given_name, family_name, middle_name, nickname) = match value {
            source::Author::Verbose(a) => (
                a.first_name.clone(),
                a.last_name.clone(),
                copy_or_empty(&a.middle_name),
                copy_filled(&a.nickname),
            ),
            source::Author::Anonymous(a) => (
                String::new(),
                String::new(),
                String::new(),
                copy_filled(&a.nickname),
            ),
        };
        let mut full_name = String::new();
        add_part(&mut full_name, &given_name);
        add_part(&mut full_name, &middle_name);
        add_part(&mut full_name, &family_name);
        assert(with_part(Seq::empty(), given_name@) =~= given_name@);
        let full_name = if full_name.as_str().is_empty() {
            nickname
        } else {
            Some(full_name)
        };
        match full_name {
            Some(full_name) => Some(
                Author { id: format_uuid(0), full_name, given_name, family_name, middle_name },
            ),
            None => None,
        }
    }
}

impl Date {
    /// Copies a source date. A part that is missing becomes empty.
    pub fn from_fb2(value: &source::Date) -> (r: Date)
        ensures
            r.deep_view() == date_of(*value),
    {
        Date {
            iso_date: copy_or_empty(&value.iso_date),
            display_date: copy_or_empty(&value.display_date),
        }
    }
}

/// Whether a body has the given name.
fn is_named(body: &source::Body, name: &Option<String>) -> (r: bool)
    ensures
        r == (body_name(*body) == name.deep_view()),
{
    match (&body.name, name) {
        (Some(a), Some(b)) => *a == *b,
        (None, None) => true,
        _ => false,
    }
}

/// The first body that has the given name.
pub fn find_body<'a>(bodies: &'a Vec<source::Body>, name: &Option<String>) -> (r: Option<
    &'a source::Body,
>)
    ensures
        r == match first_named(bodies@, name.deep_view(), 0) {
            Some(b) => Some(&b),
            None => None,
        },
{
    let n: usize = bodies.len();
    let mut i: usize = 0;
    while i < n
        invariant
            n == bodies.len(),
            i <= n,
            first_named(bodies@, name.deep_view(), 0) == first_named(
                bodies@,
                name.deep_view(),
                i as int,
            ),
        decreases n - i,
    {
        if is_named(&bodies[i], name) {
            return Some(&bodies[i]);
        }
        i += 1;
    }
    None
}

/// The first cover image that leads to a known binary.
pub fn find_cover(covers: &Option<source::Covers>, binary_ids: &BinaryIds) -> (r: Option<
    InlineImage,
>)
    ensures
        r.deep_view() == cover_of(*covers, binary_ids@),
{
    match covers {
        Some(c) => {
            let n: usize = c.images.len();
            let mut i: usize = 0;
            while i < n
                invariant
                    n == c.images.len(),
                    i <= n,
                    *covers == Some(*c),
                    first_image(c.images@, binary_ids@, 0) == first_image(
                        c.images@,
                        binary_ids@,
                        i as int,
                    ),
                decreases n - i,
            {
                let found = InlineImage::from_fb2(&c.images[i], binary_ids);
                if found.is_some() {
                    return found;
                }
                i += 1;
            }
            None
        },
        None => None,
    }
}

/// The footnotes of the first body of the given name.
pub fn find_notes(bodies: &Vec<source::Body>, name: &str, binary_ids: &BinaryIds) -> (r: Option<
    Footnotes,
>)
    ensures
        r.deep_view() == notes_named(bodies@, name@, binary_ids@),
        r matches Some(f) ==> f.wf(),
{
    let wanted = Some(name.to_owned());
    match find_body(bodies, &wanted) {
        Some(b) => Footnotes::from_fb2(b, &Context::bare(binary_ids)),
        None => None,
    }
}

/// The anchors of a collection of footnotes, if there is one.
pub fn anchors_of(notes: &Option<Footnotes>) -> (r: Anchors)
    ensures
        r@ == anchors_in(notes.deep_view()),
{
    match notes {
        Some(f) => f.anchors(),
        None => Anchors::new(),
    }
}

/// The language of the book, given whether the declared language was
/// accepted as a language tag.
pub fn book_language(declared: &String, is_tag: bool, main: Option<&source::Body>) -> (r: String)
    ensures
        r@ == language_of(
            declared@,
            is_tag,
            match main {
                Some(b) => Some(*b),
                None => None,
            },
        ),
{
    if let Some(b) = main {
        if let Some(l) = &b.lang {
            return l.clone();
        }
    }
    if !declared.as_str().is_empty() && is_tag {
        declared.clone()
    } else {
        String::new()
    }
}

impl Book {
    /// Converts a source document into a book. The footnotes and the
    /// comments are converted first, without any of them known; the rest
    /// is converted with their anchors known. Every binary that the
    /// document declares must have an identifier.
    pub fn from_fb2(book: source::FictionBook, book_id: u128, binary_ids: &BinaryIds) -> (r: Book)
        requires
            covers_all(binary_ids@, book.binaries@),
        ensures
            r.deep_view() == book_of(book, book_id, binary_ids@),
            r.notes matches Some(f) ==> f.wf(),
            r.comments matches Some(f) ==> f.wf(),
    {
        let info = &book.description.title_info;
        let date = match &info.date {
            Some(d) => Some(Date::from_fb2(d)),
            None => None,
        };

        let ghost each = Seq::new(info.authors@.len(), |i: int| author_of(info.authors@[i]));
        let mut authors: Vec<Author> = empty_vec();
        let n: usize = info.authors.len();
        let mut i: usize = 0;
        proof {
            lemma_somes_ends(each);
        }
        while i < n
            invariant
                n == info.authors.len(),
                i <= n,
                each == Seq::new(info.authors@.len(), |i: int| author_of(info.authors@[i])),
                authors.deep_view() == somes(each.take(i as int)),
            decreases n - i,
        {
            proof {
                lemma_somes_step(each, i as int);
            }
            push_some(&mut authors, Author::from_fb2(&info.authors[i]));
            i += 1;
        }

        let cover = find_cover(&info.cover_page, binary_ids);
        let notes = find_notes(&book.bodies, "notes", binary_ids);
        let comments = find_notes(&book.bodies, "comments", binary_ids);
        let ctx = Context {
            binaries: binary_ids,
            notes: anchors_of(&notes),
            comments: anchors_of(&comments),
        };
        assert(ctx@ == final_context(book, binary_ids@));

        let annotation = Annotation::from_fb2_optional(&info.annotation, &ctx);
        let main = find_body(&book.bodies, &None);
        let is_tag = !info.lang.as_str().is_empty() && parses_as_language_tag(info.lang.as_str());
        let language = book_language(&info.lang, is_tag, main);
        let (chapters, title, epigraphs) = match main {
            Some(body) => (
                Chapter::from_fb2_all(&body.sections, &ctx),
                Title::from_fb2_optional(&body.title, &ctx),
                Epigraph::from_fb2_all(&body.epigraphs, &ctx),
            ),
            None => (empty_vec(), None, empty_vec()),
        };

        Book {
            id: format_uuid(book_id),
            language,
            short_title: info.book_title.clone(),
            date,
            authors,
            cover,
            annotation,
            title,
            epigraphs,
            chapters,
            notes,
            comments,
        }
    }
}

} // verus!
