//! Paragraphs, titles, images and tables.

use vstd::prelude::*;
use crate::context::{BinaryIds, Context, ContextView};
use crate::inline::{binary_of, resolve_binary, spans_of_all};
use crate::seqs::{empty_vec, lemma_deep_push, lemma_somes_ends, lemma_somes_step, push_some, somes};
use crate::source;
use crate::span::{Span, SpanView};
use crate::text::{copy_or_empty, text_or_empty};

verus! {

#[derive(Debug, PartialEq, Eq)]
pub struct Paragraph {
    pub anchor: String,
    pub content: Vec<Span>,
}

pub struct ParagraphView {
    pub anchor: Seq<char>,
    pub content: Seq<SpanView>,
}

impl DeepView for Paragraph {
    type V = ParagraphView;

    open spec fn deep_view(&self) -> ParagraphView {
        ParagraphView { anchor: self.anchor@, content: self.content.deep_view() }
    }
}

#[derive(Debug, PartialEq, Eq)]
pub enum TitleElement {
    Paragraph(Paragraph),
    EmptyLine,
}

pub enum TitleElementView {
    Paragraph(ParagraphView),
    EmptyLine,
}

impl DeepView for TitleElement {
    type V = TitleElementView;

    open spec fn deep_view(&self) -> TitleElementView {
        match self {
            TitleElement::Paragraph(p) => TitleElementView::Paragraph(p.deep_view()),
            TitleElement::EmptyLine => TitleElementView::EmptyLine,
        }
    }
}

#[derive(Debug, PartialEq, Eq)]
pub struct Title {
    pub content: Vec<TitleElement>,
}

pub struct TitleView {
    pub content: Seq<TitleElementView>,
}

impl DeepView for Title {
    type V = TitleView;

    open spec fn deep_view(&self) -> TitleView {
        TitleView { content: self.content.deep_view() }
    }
}

#[derive(Debug, PartialEq, Eq)]
pub struct Image {
    pub id: String,
    pub anchor: String,
    pub alt: String,
    pub title: String,
}

pub struct ImageView {
    pub id: Seq<char>,
    pub anchor: Seq<char>,
    pub alt: Seq<char>,
    pub title: Seq<char>,
}

impl DeepView for Image {
    type V = ImageView;

    open spec fn deep_view(&self) -> ImageView {
        ImageView { id: self.id@, anchor: self.anchor@, alt: self.alt@, title: self.title@ }
    }
}

#[derive(Debug, PartialEq, Eq)]
pub struct TableCell {
    pub anchor: String,
    pub content: Vec<Span>,
}

pub struct TableCellView {
    pub anchor: Seq<char>,
    pub content: Seq<SpanView>,
}

impl DeepView for TableCell {
    type V = TableCellView;

    open spec fn deep_view(&self) -> TableCellView {
        TableCellView { anchor: self.anchor@, content: self.content.deep_view() }
    }
}

#[derive(Debug, PartialEq, Eq)]
pub struct TableRow {
    pub cells: Vec<TableCell>,
}

pub struct TableRowView {
    pub cells: Seq<TableCellView>,
}

impl DeepView for TableRow {
    type V = TableRowView;

    open spec fn deep_view(&self) -> TableRowView {
        TableRowView { cells: self.cells.deep_view() }
    }
}

#[derive(Debug, PartialEq, Eq)]
pub struct Table {
    pub anchor: String,
    pub header_column: bool,
    pub header_row: bool,
    pub rows: Vec<TableRow>,
}

pub struct TableView {
    pub anchor: Seq<char>,
    pub header_column: bool,
    pub header_row: bool,
    pub rows: Seq<TableRowView>,
}

impl DeepView for Table {
    type V = TableView;

    open spec fn deep_view(&self) -> TableView {
        TableView {
            anchor: self.anchor@,
            header_column: self.header_column,
            header_row: self.header_row,
            rows: self.rows.deep_view(),
        }
    }
}

/// The paragraph that a source paragraph becomes: none where it has no
/// span.
pub open spec fn paragraph_of(p: source::Paragraph, ctx: ContextView) -> Option<ParagraphView> {
    let content = spans_of_all(p.elements, ctx);
    if content.len() == 0 {
        None
    } else {
        Some(ParagraphView { anchor: text_or_empty(p.id), content })
    }
}

/// The paragraph of an optional source paragraph.
pub open spec fn optional_paragraph_of(p: Option<source::Paragraph>, ctx: ContextView) -> Option<
    ParagraphView,
> {
    match p {
        Some(p) => paragraph_of(p, ctx),
        None => None,
    }
}

/// The paragraphs that are left of a list of source paragraphs.
pub open spec fn paragraphs_of(ps: Vec<source::Paragraph>, ctx: ContextView) -> Seq<
    ParagraphView,
> {
    somes(Seq::new(ps@.len(), |i: int| paragraph_of(ps@[i], ctx)))
}

/// What one element of a source title becomes.
pub open spec fn title_element_of(e: source::TitleElement, ctx: ContextView) -> Option<
    TitleElementView,
> {
    match e {
        source::TitleElement::Paragraph(p) => match paragraph_of(p, ctx) {
            Some(v) => Some(TitleElementView::Paragraph(v)),
            None => None,
        },
        source::TitleElement::EmptyLine => Some(TitleElementView::EmptyLine),
    }
}

/// The title that a source title becomes: none where no element is left.
pub open spec fn title_of(t: source::Title, ctx: ContextView) -> Option<TitleView> {
    let content = somes(Seq::new(t.elements@.len(), |i: int| title_element_of(t.elements@[i], ctx)));
    if content.len() == 0 {
        None
    } else {
        Some(TitleView { content })
    }
}

/// The title of an optional source title.
pub open spec fn optional_title_of(t: Option<source::Title>, ctx: ContextView) -> Option<
    TitleView,
> {
    match t {
        Some(t) => title_of(t, ctx),
        None => None,
    }
}

/// The image that a source image becomes: none unless its reference leads
/// to a known binary.
pub open spec fn image_of(image: source::Image, binaries: Map<Seq<char>, u128>) -> Option<
    ImageView,
> {
    match binary_of(image.href, binaries) {
        Some(id) => Some(
            ImageView {
                id,
                anchor: text_or_empty(image.id),
                alt: text_or_empty(image.alt),
                title: text_or_empty(image.title),
            },
        ),
        None => None,
    }
}

/// The image of an optional source image.
pub open spec fn optional_image_of(
    image: Option<source::Image>,
    binaries: Map<Seq<char>, u128>,
) -> Option<ImageView> {
    match image {
        Some(i) => image_of(i, binaries),
        None => None,
    }
}

/// The cell inside a head or data cell.
pub open spec fn cell_inside(e: source::TableCellElement) -> source::TableCell {
    match e {
        source::TableCellElement::Head(c) => c,
        source::TableCellElement::Data(c) => c,
    }
}

/// The cell that a source cell becomes. An empty cell stays.
pub open spec fn cell_of(c: source::TableCell, ctx: ContextView) -> TableCellView {
    TableCellView { anchor: text_or_empty(c.id), content: spans_of_all(c.elements, ctx) }
}

/// The row that a source row becomes: none where it has no cell.
pub open spec fn row_of(r: source::TableRow, ctx: ContextView) -> Option<TableRowView> {
    if r.cells@.len() == 0 {
        None
    } else {
        Some(
            TableRowView {
                cells: Seq::new(r.cells@.len(), |i: int| cell_of(cell_inside(r.cells@[i]), ctx)),
            },
        )
    }
}

/// Whether the table has a cell in row `r` and column `c`, and it is a
/// head cell.
pub open spec fn is_head(rows: Vec<source::TableRow>, r: int, c: int) -> bool {
    &&& 0 <= r < rows@.len()
    &&& 0 <= c < rows@[r].cells@.len()
    &&& rows@[r].cells@[c] is Head
}

/// Whether the first row is a header: its first two cells are head cells.
pub open spec fn has_header_row(rows: Vec<source::TableRow>) -> bool {
    is_head(rows, 0, 0) && is_head(rows, 0, 1)
}

/// Whether the first column is a header: the first cells of the first two
/// rows are head cells.
pub open spec fn has_header_column(rows: Vec<source::TableRow>) -> bool {
    is_head(rows, 0, 0) && is_head(rows, 1, 0)
}

/// The table that a source table becomes: none where no row is left.
pub open spec fn table_of(t: source::Table, ctx: ContextView) -> Option<TableView> {
    let rows = somes(Seq::new(t.rows@.len(), |i: int| row_of(t.rows@[i], ctx)));
    if rows.len() == 0 {
        None
    } else {
        Some(
            TableView {
                anchor: text_or_empty(t.id),
                header_column: has_header_column(t.rows),
                header_row: has_header_row(t.rows),
                rows,
            },
        )
    }
}

impl Paragraph {
    /// Converts a source paragraph. An empty one is dropped.
    pub fn from_fb2(paragraph: &source::Paragraph, ctx: &Context) -> (r: Option<Paragraph>)
        ensures
            r.deep_view() == paragraph_of(*paragraph, ctx@),
            r is Some ==> r.unwrap().content@.len() > 0,
    {
        let content = Span::from_fb2_all(&paragraph.elements, ctx);
        if content.len() == 0 {
            None
        } else {
            Some(Paragraph { anchor: copy_or_empty(&paragraph.id), content })
        }
    }

    /// Converts an optional source paragraph.
    pub fn from_fb2_optional(paragraph: &Option<source::Paragraph>, ctx: &Context) -> (r: Option<
        Paragraph,
    >)
        ensures
            r.deep_view() == optional_paragraph_of(*paragraph, ctx@),
    {
        match paragraph {
            Some(p) => Paragraph::from_fb2(p, ctx),
            None => None,
        }
    }

    /// Converts a list of source paragraphs and keeps those that are not
    /// empty.
    pub fn from_fb2_all(paragraphs: &Vec<source::Paragraph>, ctx: &Context) -> (r: Vec<Paragraph>)
        ensures
            r.deep_view() == paragraphs_of(*paragraphs, ctx@),
    {
        let ghost each = Seq::new(paragraphs@.len(), |i: int| paragraph_of(paragraphs@[i], ctx@));
        let mut out: Vec<Paragraph> = empty_vec();
        let n: usize = paragraphs.len();
        let mut i: usize = 0;
        proof {
            lemma_somes_ends(each);
        }
        while i < n
            invariant
                n == paragraphs.len(),
                i <= n,
                each == Seq::new(paragraphs@.len(), |i: int| paragraph_of(paragraphs@[i], ctx@)),
                out.deep_view() == somes(each.take(i as int)),
            decreases n - i,
        {
            proof {
                lemma_somes_step(each, i as int);
            }
            push_some(&mut out, Paragraph::from_fb2(&paragraphs[i], ctx));
            i += 1;
        }
        out
    }
}

impl TitleElement {
    /// Converts one element of a source title.
    pub fn from_fb2(value: &source::TitleElement, ctx: &Context) -> (r: Option<TitleElement>)
        ensures
            r.deep_view() == title_element_of(*value, ctx@),
    {
        match value {
            source::TitleElement::Paragraph(p) => match Paragraph::from_fb2(p, ctx) {
                Some(p) => Some(TitleElement::Paragraph(p)),
                None => None,
            },
            source::TitleElement::EmptyLine => Some(TitleElement::EmptyLine),
        }
    }
}

impl Title {
    /// Converts a source title. One without elements is dropped.
    pub fn from_fb2(value: &source::Title, ctx: &Context) -> (r: Option<Title>)
        ensures
            r.deep_view() == title_of(*value, ctx@),
    {
        let ghost each = Seq::new(
            value.elements@.len(),
            |i: int| title_element_of(value.elements@[i], ctx@),
        );
        let mut content: Vec<TitleElement> = empty_vec();
        let n: usize = value.elements.len();
        let mut i: usize = 0;
        proof {
            lemma_somes_ends(each);
        }
        while i < n
            invariant
                n == value.elements.len(),
                i <= n,
                each == Seq::new(
                    value.elements@.len(),
                    |i: int| title_element_of(value.elements@[i], ctx@),
                ),
                content.deep_view() == somes(each.take(i as int)),
            decreases n - i,
        {
            proof {
                lemma_somes_step(each, i as int);
            }
            push_some(&mut content, TitleElement::from_fb2(&value.elements[i], ctx));
            i += 1;
        }
        if content.len() == 0 {
            None
        } else {
            Some(Title { content })
        }
    }

    /// Converts an optional source title.
    pub fn from_fb2_optional(value: &Option<source::Title>, ctx: &Context) -> (r: Option<Title>)
        ensures
            r.deep_view() == optional_title_of(*value, ctx@),
    {
        match value {
            Some(t) => Title::from_fb2(t, ctx),
            None => None,
        }
    }
}

impl Image {
    /// Resolves a source image against the known binaries.
    pub fn from_fb2(value: &source::Image, binary_ids: &BinaryIds) -> (r: Option<Image>)
        ensures
            r.deep_view() == image_of(*value, binary_ids@),
    {
        match resolve_binary(&value.href, binary_ids) {
            Some(id) => Some(
                Image {
                    id,
                    anchor: copy_or_empty(&value.id),
                    alt: copy_or_empty(&value.alt),
                    title: copy_or_empty(&value.title),
                },
            ),
            None => None,
        }
    }

    /// Resolves an optional source image.
    pub fn from_fb2_optional(value: &Option<source::Image>, binary_ids: &BinaryIds) -> (r: Option<
        Image,
    >)
        ensures
            r.deep_view() == optional_image_of(*value, binary_ids@),
    {
        match value {
            Some(i) => Image::from_fb2(i, binary_ids),
            None => None,
        }
    }
}

impl TableCell {
    /// Converts a source cell. An empty cell is kept, so that the columns
    /// stay aligned.
    pub fn from_fb2(value: &source::TableCell, ctx: &Context) -> (r: TableCell)
        ensures
            r.deep_view() == cell_of(*value, ctx@),
    {
        TableCell {
            anchor: copy_or_empty(&value.id),
            content: Span::from_fb2_all(&value.elements, ctx),
        }
    }
}

impl TableRow {
    /// Converts a source row. One without cells is dropped.
    pub fn from_fb2(value: &source::TableRow, ctx: &Context) -> (r: Option<TableRow>)
        ensures
            r.deep_view() == row_of(*value, ctx@),
    {
        let ghost each = Seq::new(
            value.cells@.len(),
            |i: int| cell_of(cell_inside(value.cells@[i]), ctx@),
        );
        let mut cells: Vec<TableCell> = empty_vec();
        let n: usize = value.cells.len();
        let mut i: usize = 0;
        while i < n
            invariant
                n == value.cells.len(),
                i <= n,
                each == Seq::new(
                    value.cells@.len(),
                    |i: int| cell_of(cell_inside(value.cells@[i]), ctx@),
                ),
                cells.deep_view() =~= each.take(i as int),
            decreases n - i,
        {
            let cell = match &value.cells[i] {
                source::TableCellElement::Head(c) => TableCell::from_fb2(c, ctx),
                source::TableCellElement::Data(c) => TableCell::from_fb2(c, ctx),
            };
            let ghost before = cells;
            cells.push(cell);
            proof {
                lemma_deep_push(before, cells, cell);
            }
            i += 1;
        }
        if cells.len() == 0 {
            None
        } else {
            assert(cells.deep_view() =~= each);
            Some(TableRow { cells })
        }
    }
}

/// Whether the table has a cell in row `r` and column `c`, and it is a head
/// cell.
fn head_at(rows: &Vec<source::TableRow>, r: usize, c: usize) -> (b: bool)
    ensures
        b == is_head(*rows, r as int, c as int),
{
    if r < rows.len() {
        if c < rows[r].cells.len() {
            match &rows[r].cells[c] {
                source::TableCellElement::Head(_) => true,
                source::TableCellElement::Data(_) => false,
            }
        } else {
            false
        }
    } else {
        false
    }
}

impl Table {
    /// Converts a source table and infers its headers from the first two
    /// cells of the first two rows. A table without rows is dropped.
    pub fn from_fb2(value: &source::Table, ctx: &Context) -> (r: Option<Table>)
        ensures
            r.deep_view() == table_of(*value, ctx@),
    {
        let first_head = head_at(&value.rows, 0, 0);
        let header_column = first_head && head_at(&value.rows, 1, 0);
        let header_row = first_head && head_at(&value.rows, 0, 1);

        let ghost each = Seq::new(value.rows@.len(), |i: int| row_of(value.rows@[i], ctx@));
        let mut rows: Vec<TableRow> = empty_vec();
        let n: usize = value.rows.len();
        let mut i: usize = 0;
        proof {
            lemma_somes_ends(each);
        }
        while i < n
            invariant
                n == value.rows.len(),
                i <= n,
                each == Seq::new(value.rows@.len(), |i: int| row_of(value.rows@[i], ctx@)),
                rows.deep_view() == somes(each.take(i as int)),
            decreases n - i,
        {
            proof {
                lemma_somes_step(each, i as int);
            }
            push_some(&mut rows, TableRow::from_fb2(&value.rows[i], ctx));
            i += 1;
        }
        if rows.len() == 0 {
            None
        } else {
            Some(Table { anchor: copy_or_empty(&value.id), header_column, header_row, rows })
        }
    }
}

} // verus!
