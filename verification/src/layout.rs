//! Geometric layout of the datesheet grid.
//!
//! All lengths are integers in micrometers (thousandths of a millimeter),
//! measured from the lower-left corner of the page.  The layout of a month
//! is a list of self-contained drawing primitives, each carrying its own
//! style, emitted in a fixed z-order: table border, extension lines, row
//! shading, column dividers, row dividers, column header labels, row labels.

use crate::date::CalendarDate;
use crate::text::{spec_row_label, spec_two_digits};
use vstd::arithmetic::div_mod::lemma_fundamental_div_mod;
use vstd::arithmetic::mul::lemma_mul_inequality;
use vstd::prelude::*;

verus! {

/// Padding between the page edge and the drawn content, on every side.
pub const PAGE_PADDING_UM: u64 = 5000;

/// Height of the header strip above the table body that holds the hour labels.
pub const COLUMN_LABEL_HEIGHT_UM: u64 = 7000;

/// Font size of the hour labels in the header strip.
pub const COLUMN_LABEL_FONT_SIZE_UM: u64 = 5000;

/// Padding between a cell border and the text inside it.
pub const CELL_PADDING_UM: u64 = 1000;

/// Extra horizontal offset of each hour label inside its column.
pub const COLUMN_HEADER_OFFSET_X_UM: u64 = 1000;

/// Width of the strip left of the table body that holds the row labels.
pub const ROW_LABEL_WIDTH_UM: u64 = 50000;

/// Stroke width of ordinary grid lines.
pub const THIN_STROKE_UM: u64 = 500;

/// Stroke width of the quarter-day column dividers.
pub const THICK_STROKE_UM: u64 = 1000;

/// Number of hour columns: one per hour of the day.
pub const HOUR_COLUMNS: u64 = 24;

/// Gray level of the shaded rows, in thousandths (1000 would be white).
pub const ROW_SHADE_MILLIS: u64 = 900;

/// A page size in micrometers.
#[derive(Clone, Copy, PartialEq, Eq, Structural, Debug)]
pub struct PageSize {
    pub width_um: u64,
    pub height_um: u64,
}

impl PageSize {
    /// A page large enough to hold the paddings, the row-label strip and
    /// the column-label strip.
    pub open spec fn is_valid(self) -> bool {
        &&& self.width_um >= 2 * PAGE_PADDING_UM + ROW_LABEL_WIDTH_UM
        &&& self.height_um >= 2 * PAGE_PADDING_UM + COLUMN_LABEL_HEIGHT_UM
    }
}

/// Height of the table body: the page minus paddings and the header strip.
pub open spec fn spec_table_height(page: PageSize) -> int {
    page.height_um - 2 * PAGE_PADDING_UM - COLUMN_LABEL_HEIGHT_UM
}

/// Width of the table body: the page minus paddings and the row-label strip.
pub open spec fn spec_table_width(page: PageSize) -> int {
    page.width_um - 2 * PAGE_PADDING_UM - ROW_LABEL_WIDTH_UM
}

/// Height of one row band, dividing the table body evenly among `rows` rows.
pub open spec fn spec_cell_height(page: PageSize, rows: int) -> int {
    spec_table_height(page) / rows
}

/// Width of one hour column, dividing the table body evenly among 24 columns.
pub open spec fn spec_cell_width(page: PageSize) -> int {
    spec_table_width(page) / (HOUR_COLUMNS as int)
}

/// Left edge of the row-label strip.
pub open spec fn spec_full_left(page: PageSize) -> int {
    PAGE_PADDING_UM as int
}

/// Top edge of the header strip.
pub open spec fn spec_full_top(page: PageSize) -> int {
    page.height_um - PAGE_PADDING_UM
}

/// Left edge of the table body.
pub open spec fn spec_body_left(page: PageSize) -> int {
    PAGE_PADDING_UM + ROW_LABEL_WIDTH_UM
}

/// Bottom edge of the table body.
pub open spec fn spec_body_bottom(page: PageSize) -> int {
    PAGE_PADDING_UM as int
}

/// Top edge of the table body, below the header strip.
pub open spec fn spec_body_top(page: PageSize) -> int {
    spec_body_bottom(page) + spec_table_height(page)
}

/// Right edge of the table body.
pub open spec fn spec_body_right(page: PageSize) -> int {
    spec_body_left(page) + spec_table_width(page)
}

/// Font size of a row label: three quarters of the row band height, so
/// shorter months get larger labels.
pub open spec fn spec_row_label_font_size(page: PageSize, rows: int) -> int {
    spec_cell_height(page, rows) * 3 / 4
}

/// Vertical offset that centers a row label inside its band.
pub open spec fn spec_row_label_offset_y(page: PageSize, rows: int) -> int {
    (spec_cell_height(page, rows) - spec_row_label_font_size(page, rows)) / 2
}

/// Vertical offset that centers an hour label inside the header strip.
pub open spec fn spec_column_header_offset_y() -> int {
    (COLUMN_LABEL_HEIGHT_UM - COLUMN_LABEL_FONT_SIZE_UM) as int / 2
}

/// Multiplying a truncated quotient back by the divisor stays at or below
/// the dividend.
proof fn lemma_div_mul_le(x: int, d: int)
    requires
        0 <= x,
        0 < d,
    ensures
        (x / d) * d <= x,
        0 <= x / d,
{
    lemma_fundamental_div_mod(x, d);
    vstd::arithmetic::mul::lemma_mul_is_commutative(d, x / d);
    vstd::arithmetic::div_mod::lemma_mod_bound(x, d);
    vstd::arithmetic::div_mod::lemma_div_pos_is_pos(x, d);
}

/// A band or column at index `i` of `n` stays inside a span of length `len`.
pub proof fn lemma_band_inside(len: int, n: int, i: int)
    requires
        0 <= len,
        0 < n,
        0 <= i <= n,
    ensures
        0 <= i * (len / n) <= len,
{
    lemma_div_mul_le(len, n);
    lemma_mul_inequality(i, n, len / n);
    vstd::arithmetic::mul::lemma_mul_is_commutative(n, len / n);
    vstd::arithmetic::mul::lemma_mul_nonnegative(i, len / n);
}

/// Appending the element at index `k` of `s` to a prefix of `s` behind `a`
/// extends that prefix by one.
proof fn lemma_prefix_extend(a: Seq<PrimitiveModel>, s: Seq<PrimitiveModel>, k: int)
    requires
        0 <= k < s.len(),
    ensures
        (a + s.take(k)).push(s[k]) == a + s.take(k + 1),
{
    assert((a + s.take(k)).push(s[k]) =~= a + s.take(k + 1));
}

/// One drawing primitive.  Each primitive carries its own style: stroke
/// width for lines, gray level for fills, font size for labels.  Strokes
/// and label text are black; only fills carry a gray level.
pub enum Primitive {
    /// An unfilled rectangle stroked with the given width.
    StrokeRect { left: u64, bottom: u64, right: u64, top: u64, stroke_um: u64 },
    /// A straight line stroked with the given width.
    StrokeLine { x0: u64, y0: u64, x1: u64, y1: u64, stroke_um: u64 },
    /// A borderless rectangle filled with the given gray level.
    FillRect { left: u64, bottom: u64, right: u64, top: u64, shade_millis: u64 },
    /// A text run whose baseline starts at `(x, y)`.
    Label { text: String, font_size_um: u64, x: u64, y: u64 },
}

/// The mathematical value of a drawing primitive.
pub enum PrimitiveModel {
    StrokeRect { left: int, bottom: int, right: int, top: int, stroke_um: int },
    StrokeLine { x0: int, y0: int, x1: int, y1: int, stroke_um: int },
    FillRect { left: int, bottom: int, right: int, top: int, shade_millis: int },
    Label { text: Seq<char>, font_size_um: int, x: int, y: int },
}

impl View for Primitive {
    type V = PrimitiveModel;

    open spec fn view(&self) -> PrimitiveModel {
        match self {
            Primitive::StrokeRect { left, bottom, right, top, stroke_um } => {
                PrimitiveModel::StrokeRect {
                    left: *left as int,
                    bottom: *bottom as int,
                    right: *right as int,
                    top: *top as int,
                    stroke_um: *stroke_um as int,
                }
            },
            Primitive::StrokeLine { x0, y0, x1, y1, stroke_um } => {
                PrimitiveModel::StrokeLine {
                    x0: *x0 as int,
                    y0: *y0 as int,
                    x1: *x1 as int,
                    y1: *y1 as int,
                    stroke_um: *stroke_um as int,
                }
            },
            Primitive::FillRect { left, bottom, right, top, shade_millis } => {
                PrimitiveModel::FillRect {
                    left: *left as int,
                    bottom: *bottom as int,
                    right: *right as int,
                    top: *top as int,
                    shade_millis: *shade_millis as int,
                }
            },
            Primitive::Label { text, font_size_um, x, y } => {
                PrimitiveModel::Label {
                    text: text@,
                    font_size_um: *font_size_um as int,
                    x: *x as int,
                    y: *y as int,
                }
            },
        }
    }
}

impl DeepView for Primitive {
    type V = PrimitiveModel;

    open spec fn deep_view(&self) -> PrimitiveModel {
        self.view()
    }
}

/// The outer border of the table body, stroked thin and unfilled.
pub open spec fn spec_border(page: PageSize) -> PrimitiveModel {
    PrimitiveModel::StrokeRect {
        left: spec_body_left(page),
        bottom: spec_body_bottom(page),
        right: spec_body_right(page),
        top: spec_body_top(page),
        stroke_um: THIN_STROKE_UM as int,
    }
}

/// The vertical line closing the row-label strip on the page's left.
pub open spec fn spec_left_extension(page: PageSize) -> PrimitiveModel {
    PrimitiveModel::StrokeLine {
        x0: spec_full_left(page),
        y0: spec_body_bottom(page),
        x1: spec_full_left(page),
        y1: spec_body_top(page),
        stroke_um: THIN_STROKE_UM as int,
    }
}

/// The horizontal line closing the header strip at the page's top.
pub open spec fn spec_top_extension(page: PageSize) -> PrimitiveModel {
    PrimitiveModel::StrokeLine {
        x0: spec_body_left(page),
        y0: spec_full_top(page),
        x1: spec_body_right(page),
        y1: spec_full_top(page),
        stroke_um: THIN_STROKE_UM as int,
    }
}

/// The light-gray band behind the row with index `r` counted from the top
/// (row 0, the topmost, holds day 1).  It spans from the row-label strip to
/// the table body's right edge.
pub open spec fn spec_shading_band(page: PageSize, rows: int, r: int) -> PrimitiveModel {
    PrimitiveModel::FillRect {
        left: spec_full_left(page),
        bottom: spec_body_bottom(page) + (rows - 1 - r) * spec_cell_height(page, rows),
        right: spec_body_right(page),
        top: spec_body_bottom(page) + (rows - r) * spec_cell_height(page, rows),
        shade_millis: ROW_SHADE_MILLIS as int,
    }
}

/// Whether the column boundary with index `i` is a quarter-day boundary
/// drawn with a thick stroke: every sixth boundary, the final boundary
/// (index 24) excluded.
pub open spec fn spec_is_thick_column(i: int) -> bool {
    i < HOUR_COLUMNS && i % 6 == 0
}

/// The vertical divider at column boundary `i` of 0..=24, spanning from the
/// table body's bottom up through the header strip.
pub open spec fn spec_column_divider(page: PageSize, i: int) -> PrimitiveModel {
    PrimitiveModel::StrokeLine {
        x0: spec_body_left(page) + i * spec_cell_width(page),
        y0: spec_body_bottom(page),
        x1: spec_body_left(page) + i * spec_cell_width(page),
        y1: spec_full_top(page),
        stroke_um: if spec_is_thick_column(i) {
            THICK_STROKE_UM as int
        } else {
            THIN_STROKE_UM as int
        },
    }
}

/// The horizontal divider at row boundary `i` of 0..=rows, spanning from
/// the row-label strip to the table body's right edge.
pub open spec fn spec_row_divider(page: PageSize, rows: int, i: int) -> PrimitiveModel {
    PrimitiveModel::StrokeLine {
        x0: spec_full_left(page),
        y0: spec_body_bottom(page) + i * spec_cell_height(page, rows),
        x1: spec_body_right(page),
        y1: spec_body_bottom(page) + i * spec_cell_height(page, rows),
        stroke_um: THIN_STROKE_UM as int,
    }
}

/// The hour label of column `i` of 0..24: `i` as two digits, placed in the
/// header strip above the column's left edge.
pub open spec fn spec_hour_label(page: PageSize, i: int) -> PrimitiveModel {
    PrimitiveModel::Label {
        text: spec_two_digits(i),
        font_size_um: COLUMN_LABEL_FONT_SIZE_UM as int,
        x: spec_body_left(page) + i * spec_cell_width(page) + CELL_PADDING_UM
            + COLUMN_HEADER_OFFSET_X_UM,
        y: spec_body_top(page) + CELL_PADDING_UM + spec_column_header_offset_y(),
    }
}

/// The label of the day at chronological index `i` (day `i + 1` of the
/// month), placed in the row-label strip and vertically centered in row `i`
/// counted from the top.
pub open spec fn spec_day_label(days: Seq<CalendarDate>, page: PageSize, i: int) -> PrimitiveModel {
    let rows = days.len() as int;
    PrimitiveModel::Label {
        text: spec_row_label(days[i]),
        font_size_um: spec_row_label_font_size(page, rows),
        x: spec_full_left(page) + CELL_PADDING_UM,
        y: spec_body_bottom(page) + (rows - 1 - i) * spec_cell_height(page, rows)
            + CELL_PADDING_UM + spec_row_label_offset_y(page, rows),
    }
}

/// The border and the two strip-closing lines, first in the z-order.
pub open spec fn spec_frame(page: PageSize) -> Seq<PrimitiveModel> {
    seq![spec_border(page), spec_left_extension(page), spec_top_extension(page)]
}

/// The shading bands of the even rows counted from the top: rows 0, 2, 4,
/// ..., which makes (rows + 1) / 2 bands.
pub open spec fn spec_shading(page: PageSize, rows: int) -> Seq<PrimitiveModel> {
    Seq::new(((rows + 1) / 2) as nat, |k: int| spec_shading_band(page, rows, 2 * k))
}

/// All 25 column dividers, boundary 0 through boundary 24.
pub open spec fn spec_column_dividers(page: PageSize) -> Seq<PrimitiveModel> {
    Seq::new((HOUR_COLUMNS + 1) as nat, |i: int| spec_column_divider(page, i))
}

/// All rows + 1 row dividers, boundary 0 through boundary `rows`.
pub open spec fn spec_row_dividers(page: PageSize, rows: int) -> Seq<PrimitiveModel> {
    Seq::new((rows + 1) as nat, |i: int| spec_row_divider(page, rows, i))
}

/// All 24 hour labels, "00" through "23".
pub open spec fn spec_hour_labels(page: PageSize) -> Seq<PrimitiveModel> {
    Seq::new(HOUR_COLUMNS as nat, |i: int| spec_hour_label(page, i))
}

/// One label per day, in chronological order.
pub open spec fn spec_day_labels(days: Seq<CalendarDate>, page: PageSize) -> Seq<PrimitiveModel> {
    Seq::new(days.len(), |i: int| spec_day_label(days, page, i))
}

/// The full datesheet of a month: every drawing primitive, in z-order.
pub open spec fn spec_datesheet(days: Seq<CalendarDate>, page: PageSize) -> Seq<PrimitiveModel> {
    let rows = days.len() as int;
    spec_frame(page) + spec_shading(page, rows) + spec_column_dividers(page) + spec_row_dividers(
        page,
        rows,
    ) + spec_hour_labels(page) + spec_day_labels(days, page)
}

/// The rendered grid has one row band per day and exactly 24 hour columns:
/// one day label and one shading decision per day, `days + 1` row dividers,
/// 25 column dividers, and 24 hour labels, whatever the page size.
pub proof fn lemma_datesheet_counts(days: Seq<CalendarDate>, page: PageSize)
    ensures
        spec_day_labels(days, page).len() == days.len(),
        spec_row_dividers(page, days.len() as int).len() == days.len() + 1,
        spec_column_dividers(page).len() == HOUR_COLUMNS + 1,
        spec_hour_labels(page).len() == HOUR_COLUMNS,
        spec_shading(page, days.len() as int).len() == (days.len() + 1) / 2,
        spec_datesheet(days, page).len() == 3 + (days.len() + 1) / 2 + (HOUR_COLUMNS + 1) + (
        days.len() + 1) + HOUR_COLUMNS + days.len(),
{
}

/// A column divider is drawn thick exactly at the quarter-day boundaries
/// 0, 6, 12 and 18; the final boundary, index 24, is never thick even
/// though it is a multiple of 6.
pub proof fn lemma_quarter_boundaries(page: PageSize)
    ensures
        forall|i: int|
            0 <= i <= HOUR_COLUMNS ==> ((#[trigger] spec_is_thick_column(i)) <==> (i == 0 || i == 6
                || i == 12 || i == 18)),
        !spec_is_thick_column(HOUR_COLUMNS as int),
        forall|i: int|
            0 <= i <= HOUR_COLUMNS ==> (#[trigger] spec_column_dividers(page)[i] matches
                PrimitiveModel::StrokeLine { stroke_um, .. } && (stroke_um == THICK_STROKE_UM <==> (
            i == 0 || i == 6 || i == 12 || i == 18))),
{
    assert(forall|i: int|
        0 <= i <= HOUR_COLUMNS ==> #[trigger] spec_column_dividers(page)[i]
            == spec_column_divider(page, i));
}

/// The derived geometry of a page: every length the grid needs, each a
/// deterministic function of the page size and the row count alone.
#[derive(Clone, Copy, PartialEq, Eq, Structural, Debug)]
pub struct PageGeometry {
    pub page: PageSize,
    pub rows: u64,
    pub table_h: u64,
    pub table_w: u64,
    pub cell_h: u64,
    pub cell_w: u64,
    pub full_left: u64,
    pub full_top: u64,
    pub body_left: u64,
    pub body_bottom: u64,
    pub body_top: u64,
    pub body_right: u64,
    pub row_font: u64,
    pub row_label_offset_y: u64,
    pub header_offset_y: u64,
}

impl PageGeometry {
    /// Each field holds the value of its defining spec function for this
    /// page and row count.
    pub open spec fn wf(self) -> bool {
        &&& self.page.is_valid()
        &&& 1 <= self.rows <= 31
        &&& self.table_h == spec_table_height(self.page)
        &&& self.table_w == spec_table_width(self.page)
        &&& self.cell_h == spec_cell_height(self.page, self.rows as int)
        &&& self.cell_w == spec_cell_width(self.page)
        &&& self.full_left == spec_full_left(self.page)
        &&& self.full_top == spec_full_top(self.page)
        &&& self.body_left == spec_body_left(self.page)
        &&& self.body_bottom == spec_body_bottom(self.page)
        &&& self.body_top == spec_body_top(self.page)
        &&& self.body_right == spec_body_right(self.page)
        &&& self.row_font == spec_row_label_font_size(self.page, self.rows as int)
        &&& self.row_label_offset_y == spec_row_label_offset_y(self.page, self.rows as int)
        &&& self.header_offset_y == spec_column_header_offset_y()
    }
}

/// Derives the page geometry for a month of `rows` days.
pub fn page_geometry(page: &PageSize, rows: u64) -> (g: PageGeometry)
    requires
        page.is_valid(),
        1 <= rows <= 31,
    ensures
        g.wf(),
        g.page == *page,
        g.rows == rows,
{
    let table_h: u64 = page.height_um - 2 * PAGE_PADDING_UM - COLUMN_LABEL_HEIGHT_UM;
    let table_w: u64 = page.width_um - 2 * PAGE_PADDING_UM - ROW_LABEL_WIDTH_UM;
    let cell_h: u64 = table_h / rows;
    let cell_w: u64 = table_w / HOUR_COLUMNS;
    let row_font: u64 = (((cell_h as u128) * 3) / 4) as u64;
    proof {
        lemma_fundamental_div_mod((cell_h as int) * 3, 4);
        vstd::arithmetic::div_mod::lemma_mod_bound((cell_h as int) * 3, 4);
        assert(row_font <= cell_h);
    }
    PageGeometry {
        page: *page,
        rows,
        table_h,
        table_w,
        cell_h,
        cell_w,
        full_left: PAGE_PADDING_UM,
        full_top: page.height_um - PAGE_PADDING_UM,
        body_left: PAGE_PADDING_UM + ROW_LABEL_WIDTH_UM,
        body_bottom: PAGE_PADDING_UM,
        body_top: PAGE_PADDING_UM + table_h,
        body_right: PAGE_PADDING_UM + ROW_LABEL_WIDTH_UM + table_w,
        row_font,
        row_label_offset_y: (cell_h - row_font) / 2,
        header_offset_y: (COLUMN_LABEL_HEIGHT_UM - COLUMN_LABEL_FONT_SIZE_UM) / 2,
    }
}

/// Appends the table border and the two strip-closing lines.
fn push_frame(prims: &mut Vec<Primitive>, g: &PageGeometry)
    requires
        g.wf(),
    ensures
        final(prims).deep_view() == old(prims).deep_view() + spec_frame(g.page),
{
    let ghost base: Seq<PrimitiveModel> = prims.deep_view();
    prims.push(
        Primitive::StrokeRect {
            left: g.body_left,
            bottom: g.body_bottom,
            right: g.body_right,
            top: g.body_top,
            stroke_um: THIN_STROKE_UM,
        },
    );
    prims.push(
        Primitive::StrokeLine {
            x0: g.full_left,
            y0: g.body_bottom,
            x1: g.full_left,
            y1: g.body_top,
            stroke_um: THIN_STROKE_UM,
        },
    );
    prims.push(
        Primitive::StrokeLine {
            x0: g.body_left,
            y0: g.full_top,
            x1: g.body_right,
            y1: g.full_top,
            stroke_um: THIN_STROKE_UM,
        },
    );
    proof {
        assert(prims.deep_view() =~= base + spec_frame(g.page));
    }
}

/// Appends the shading bands of the even rows counted from the top.
#[verifier::loop_isolation(false)]
fn push_shading(prims: &mut Vec<Primitive>, g: &PageGeometry)
    requires
        g.wf(),
    ensures
        final(prims).deep_view() == old(prims).deep_view() + spec_shading(g.page, g.rows as int),
{
    let ghost base: Seq<PrimitiveModel> = prims.deep_view();
    let shade_count: u64 = (g.rows + 1) / 2;
    let ghost rows_i: int = g.rows as int;
    let mut k: u64 = 0;
    while k < shade_count
        invariant
            k <= shade_count,
            prims.deep_view() =~= base + spec_shading(g.page, rows_i).take(
                k as int,
            ),
        decreases shade_count - k,
    {
        let r: u64 = 2 * k;
        proof {
            lemma_band_inside(g.table_h as int, rows_i, rows_i - 1 - r);
            lemma_band_inside(g.table_h as int, rows_i, rows_i - r);
        }
        let y0: u64 = g.body_bottom + (g.rows - 1 - r) * g.cell_h;
        let y1: u64 = g.body_bottom + (g.rows - r) * g.cell_h;
        let ghost prev_dv: Seq<PrimitiveModel> = prims.deep_view();
        prims.push(
            Primitive::FillRect {
                left: g.full_left,
                bottom: y0,
                right: g.body_right,
                top: y1,
                shade_millis: ROW_SHADE_MILLIS,
            },
        );
        proof {
            assert(prims@[prims@.len() - 1]@ == spec_shading_band(g.page, rows_i, 2 * (k as int)));
            assert(prims.deep_view() =~= prev_dv.push(prims@[prims@.len() - 1]@));
            assert(spec_shading(g.page, rows_i)[k as int] == prims@[prims@.len() - 1]@);
            lemma_prefix_extend(base, spec_shading(g.page, rows_i), k as int);
        }
        k = k + 1;
        proof {
            assert(prims.deep_view() =~= base + spec_shading(g.page, rows_i).take(
                k as int,
            ));
        }
    }
    proof {
        assert(prims.deep_view() =~= base + spec_shading(g.page, rows_i));
    }
}

/// Appends the 25 column dividers, the quarter-day boundaries thick.
#[verifier::loop_isolation(false)]
fn push_column_dividers(prims: &mut Vec<Primitive>, g: &PageGeometry)
    requires
        g.wf(),
    ensures
        final(prims).deep_view() == old(prims).deep_view() + spec_column_dividers(g.page),
{
    let ghost base: Seq<PrimitiveModel> = prims.deep_view();
    let mut i: u64 = 0;
    while i <= HOUR_COLUMNS
        invariant
            i <= HOUR_COLUMNS + 1,
            prims.deep_view() =~= base + spec_column_dividers(g.page).take(
                i as int,
            ),
        decreases HOUR_COLUMNS + 1 - i,
    {
        proof {
            lemma_band_inside(g.table_w as int, HOUR_COLUMNS as int, i as int);
        }
        let x: u64 = g.body_left + i * g.cell_w;
        let thick: bool = i < HOUR_COLUMNS && i % 6 == 0;
        let ghost prev_dv: Seq<PrimitiveModel> = prims.deep_view();
        prims.push(
            Primitive::StrokeLine {
                x0: x,
                y0: g.body_bottom,
                x1: x,
                y1: g.full_top,
                stroke_um: if thick {
                    THICK_STROKE_UM
                } else {
                    THIN_STROKE_UM
                },
            },
        );
        proof {
            assert(prims@[prims@.len() - 1]@ == spec_column_divider(g.page, i as int));
            assert(prims.deep_view() =~= prev_dv.push(prims@[prims@.len() - 1]@));
            assert(spec_column_dividers(g.page)[i as int] == prims@[prims@.len() - 1]@);
            lemma_prefix_extend(base, spec_column_dividers(g.page), i as int);
        }
        i = i + 1;
        proof {
            assert(prims.deep_view() =~= base + spec_column_dividers(
                g.page,
            ).take(i as int));
        }
    }
    proof {
        assert(prims.deep_view() =~= base + spec_column_dividers(g.page));
    }
}

/// Appends the rows + 1 horizontal row dividers.
#[verifier::loop_isolation(false)]
fn push_row_dividers(prims: &mut Vec<Primitive>, g: &PageGeometry)
    requires
        g.wf(),
    ensures
        final(prims).deep_view() == old(prims).deep_view() + spec_row_dividers(g.page, g.rows as int),
{
    let ghost base: Seq<PrimitiveModel> = prims.deep_view();
    let ghost rows_i: int = g.rows as int;
    let mut j: u64 = 0;
    while j <= g.rows
        invariant
            j <= g.rows + 1,
            prims.deep_view() =~= base + spec_row_dividers(g.page, rows_i).take(
                j as int,
            ),
        decreases g.rows + 1 - j,
    {
        proof {
            lemma_band_inside(g.table_h as int, rows_i, j as int);
        }
        let y: u64 = g.body_bottom + j * g.cell_h;
        let ghost prev_dv: Seq<PrimitiveModel> = prims.deep_view();
        prims.push(
            Primitive::StrokeLine {
                x0: g.full_left,
                y0: y,
                x1: g.body_right,
                y1: y,
                stroke_um: THIN_STROKE_UM,
            },
        );
        proof {
            assert(prims@[prims@.len() - 1]@ == spec_row_divider(g.page, rows_i, j as int));
            assert(prims.deep_view() =~= prev_dv.push(prims@[prims@.len() - 1]@));
            assert(spec_row_dividers(g.page, rows_i)[j as int] == prims@[prims@.len() - 1]@);
            lemma_prefix_extend(base, spec_row_dividers(g.page, rows_i), j as int);
        }
        j = j + 1;
        proof {
            assert(prims.deep_view() =~= base + spec_row_dividers(
                g.page,
                rows_i,
            ).take(j as int));
        }
    }
    proof {
        assert(prims.deep_view() =~= base + spec_row_dividers(g.page, rows_i));
    }
}

/// Appends the 24 hour labels "00" through "23".
#[verifier::loop_isolation(false)]
fn push_hour_labels(prims: &mut Vec<Primitive>, g: &PageGeometry)
    requires
        g.wf(),
    ensures
        final(prims).deep_view() == old(prims).deep_view() + spec_hour_labels(g.page),
{
    let ghost base: Seq<PrimitiveModel> = prims.deep_view();
    let mut h: u64 = 0;
    while h < HOUR_COLUMNS
        invariant
            h <= HOUR_COLUMNS,
            prims.deep_view() =~= base + spec_hour_labels(g.page).take(h as int),
        decreases HOUR_COLUMNS - h,
    {
        proof {
            lemma_band_inside(g.table_w as int, HOUR_COLUMNS as int, h as int);
        }
        let x: u64 = g.body_left + h * g.cell_w + CELL_PADDING_UM + COLUMN_HEADER_OFFSET_X_UM;
        let y: u64 = g.body_top + CELL_PADDING_UM + g.header_offset_y;
        let text = crate::text::two_digit_string(h as u8);
        let ghost prev_dv: Seq<PrimitiveModel> = prims.deep_view();
        prims.push(Primitive::Label { text, font_size_um: COLUMN_LABEL_FONT_SIZE_UM, x, y });
        proof {
            assert(prims@[prims@.len() - 1]@ == spec_hour_label(g.page, h as int));
            assert(prims.deep_view() =~= prev_dv.push(prims@[prims@.len() - 1]@));
            assert(spec_hour_labels(g.page)[h as int] == prims@[prims@.len() - 1]@);
            lemma_prefix_extend(base, spec_hour_labels(g.page), h as int);
        }
        h = h + 1;
        proof {
            assert(prims.deep_view() =~= base + spec_hour_labels(g.page).take(
                h as int,
            ));
        }
    }
    proof {
        assert(prims.deep_view() =~= base + spec_hour_labels(g.page));
    }
}

/// Appends one label per day, day 1 in the topmost row.
#[verifier::loop_isolation(false)]
fn push_day_labels(prims: &mut Vec<Primitive>, g: &PageGeometry, days: &Vec<CalendarDate>)
    requires
        g.wf(),
        days@.len() == g.rows,
        forall|i: int| 0 <= i < days@.len() ==> (#[trigger] days@[i]).is_valid(),
    ensures
        final(prims).deep_view() == old(prims).deep_view() + spec_day_labels(days@, g.page),
{
    let ghost base: Seq<PrimitiveModel> = prims.deep_view();
    let ghost rows_i: int = g.rows as int;
    proof {
        lemma_fundamental_div_mod((g.cell_h as int) * 3, 4);
        vstd::arithmetic::div_mod::lemma_mod_bound((g.cell_h as int) * 3, 4);
        assert(g.row_font <= g.cell_h);
        lemma_band_inside((g.cell_h - g.row_font) as int, 2, 1);
        assert(g.row_label_offset_y <= g.cell_h);
    }
    let mut idx: u64 = 0;
    while idx < g.rows
        invariant
            idx <= g.rows,
            prims.deep_view() =~= base + spec_day_labels(days@, g.page).take(
                idx as int,
            ),
        decreases g.rows - idx,
    {
        proof {
            lemma_band_inside(g.table_h as int, rows_i, rows_i - idx);
            assert((rows_i - idx) * (g.cell_h as int) == (rows_i - 1 - idx) * (g.cell_h as int)
                + g.cell_h as int) by (nonlinear_arith);
            lemma_band_inside(g.table_h as int, rows_i, rows_i - 1 - idx);
        }
        let y_bot: u64 = g.body_bottom + (g.rows - 1 - idx) * g.cell_h;
        let y: u64 = y_bot + CELL_PADDING_UM + g.row_label_offset_y;
        let x: u64 = g.full_left + CELL_PADDING_UM;
        let d: CalendarDate = days[idx as usize];
        let text = crate::text::row_label(&d);
        let ghost prev_dv: Seq<PrimitiveModel> = prims.deep_view();
        prims.push(Primitive::Label { text, font_size_um: g.row_font, x, y });
        proof {
            assert(prims@[prims@.len() - 1]@ == spec_day_label(days@, g.page, idx as int));
            assert(prims.deep_view() =~= prev_dv.push(prims@[prims@.len() - 1]@));
            assert(spec_day_labels(days@, g.page)[idx as int] == prims@[prims@.len() - 1]@);
            lemma_prefix_extend(base, spec_day_labels(days@, g.page), idx as int);
        }
        idx = idx + 1;
        proof {
            assert(prims.deep_view() =~= base + spec_day_labels(
                days@,
                g.page,
            ).take(idx as int));
        }
    }
    proof {
        assert(prims.deep_view() =~= base + spec_day_labels(days@, g.page));
    }
}

/// Computes every drawing primitive of a month's datesheet, in z-order:
/// border, extension lines, shading of the even rows counted from the top,
/// the 25 column dividers (quarter-day boundaries thick, the final boundary
/// thin), the rows + 1 row dividers, the 24 hour labels, and one label per
/// day with day 1 in the topmost row.
pub fn layout_datesheet(days: &Vec<CalendarDate>, page: &PageSize) -> (prims: Vec<Primitive>)
    requires
        page.is_valid(),
        1 <= days@.len() <= 31,
        forall|i: int| 0 <= i < days@.len() ==> (#[trigger] days@[i]).is_valid(),
    ensures
        prims.deep_view() == spec_datesheet(days@, *page),
{
    let rows: u64 = days.len() as u64;
    let g = page_geometry(page, rows);
    let mut prims: Vec<Primitive> = Vec::new();
    proof {
        assert(prims.deep_view() =~= Seq::<PrimitiveModel>::empty());
    }
    push_frame(&mut prims, &g);
    push_shading(&mut prims, &g);
    push_column_dividers(&mut prims, &g);
    push_row_dividers(&mut prims, &g);
    push_hour_labels(&mut prims, &g);
    push_day_labels(&mut prims, &g, days);
    proof {
        assert(prims.deep_view() =~= spec_datesheet(days@, *page));
    }
    prims
}

} // verus!
