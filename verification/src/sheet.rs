//! The document model: a sheet is a name and the ordered list of what was
//! written to it. A renderer replays the list to draw the sheet.

use crate::format::Style;
use crate::models::data::Date;
use vstd::prelude::*;

verus! {

/// What a cell holds.
#[derive(Debug, Clone, PartialEq)]
pub enum CellValue {
    Text(String),
    Number(u32),
    Date(Date),
    /// Formula text, starting with `=`.
    Formula(String),
}

/// One run of a cell's text with a style of its own.
#[derive(Debug, Clone, PartialEq)]
pub struct RichSegment {
    pub style: Style,
    pub text: String,
}

/// One thing written to a sheet. Rows and columns count from zero.
#[derive(Debug, Clone, PartialEq)]
pub enum SheetOp {
    /// Width of a column, in hundredths of a character.
    ColumnWidth { col: u16, hundredths: u32 },
    /// Height of a row, in tenths of a point.
    RowHeight { row: u32, tenths: u32 },
    /// Height of every row that has none of its own, in tenths of a point.
    DefaultRowHeight { tenths: u32 },
    /// A filter over the given range of cells.
    AutoFilter { first_row: u32, first_col: u16, last_row: u32, last_col: u16 },
    /// The cells of a range joined into one that shows `text`.
    Merge { first_row: u32, first_col: u16, last_row: u32, last_col: u16, text: String, style: Style },
    /// A value or a formula in one cell.
    Write { row: u32, col: u16, value: CellValue, style: Style },
    /// Text in one cell, in runs of different styles.
    RichText { row: u32, col: u16, segments: Vec<RichSegment>, style: Style },
}

/// A sheet of the report.
#[derive(Debug, Clone, PartialEq)]
pub struct Sheet {
    pub name: String,
    pub ops: Vec<SheetOp>,
}

/// Why a block of rows cannot be laid out.
#[derive(Debug, Clone, Copy, PartialEq, Eq, Structural)]
pub enum LayoutError {
    /// The block has no rows.
    EmptyBlock,
    /// The block would end past the last row number.
    RowOverflow,
}

/// `CellValue` with its texts as sequences of characters.
pub enum CellContent {
    Text(Seq<char>),
    Number(u32),
    Date(Date),
    Formula(Seq<char>),
}

/// `RichSegment` with its text as a sequence of characters.
pub struct Run {
    pub style: Style,
    pub text: Seq<char>,
}

/// `SheetOp` with its texts as sequences of characters.
pub enum Op {
    ColumnWidth { col: u16, hundredths: u32 },
    RowHeight { row: u32, tenths: u32 },
    DefaultRowHeight { tenths: u32 },
    AutoFilter { first_row: u32, first_col: u16, last_row: u32, last_col: u16 },
    Merge {
        first_row: u32,
        first_col: u16,
        last_row: u32,
        last_col: u16,
        text: Seq<char>,
        style: Style,
    },
    Write { row: u32, col: u16, value: CellContent, style: Style },
    RichText { row: u32, col: u16, segments: Seq<Run>, style: Style },
}

/// `Sheet` as a name and a sequence of operations.
pub struct SheetModel {
    pub name: Seq<char>,
    pub ops: Seq<Op>,
}

impl View for CellValue {
    type V = CellContent;

    open spec fn view(&self) -> CellContent {
        match *self {
            CellValue::Text(t) => CellContent::Text(t@),
            CellValue::Number(n) => CellContent::Number(n),
            CellValue::Date(d) => CellContent::Date(d),
            CellValue::Formula(f) => CellContent::Formula(f@),
        }
    }
}

impl View for RichSegment {
    type V = Run;

    open spec fn view(&self) -> Run {
        Run { style: self.style, text: self.text@ }
    }
}

impl View for SheetOp {
    type V = Op;

    open spec fn view(&self) -> Op {
        match *self {
            SheetOp::ColumnWidth { col, hundredths } => Op::ColumnWidth { col, hundredths },
            SheetOp::RowHeight { row, tenths } => Op::RowHeight { row, tenths },
            SheetOp::DefaultRowHeight { tenths } => Op::DefaultRowHeight { tenths },
            SheetOp::AutoFilter { first_row, first_col, last_row, last_col } => Op::AutoFilter {
                first_row,
                first_col,
                last_row,
                last_col,
            },
            SheetOp::Merge { first_row, first_col, last_row, last_col, text, style } => Op::Merge {
                first_row,
                first_col,
                last_row,
                last_col,
                text: text@,
                style,
            },
            SheetOp::Write { row, col, value, style } => Op::Write {
                row,
                col,
                value: value@,
                style,
            },
            SheetOp::RichText { row, col, segments, style } => Op::RichText {
                row,
                col,
                segments: segments@.map_values(|s: RichSegment| s@),
                style,
            },
        }
    }
}

impl View for Sheet {
    type V = SheetModel;

    open spec fn view(&self) -> SheetModel {
        SheetModel { name: self.name@, ops: self.ops@.map_values(|op: SheetOp| op@) }
    }
}

impl SheetModel {
    /// This sheet after one more operation.
    pub open spec fn with(self, op: Op) -> SheetModel {
        SheetModel { name: self.name, ops: self.ops.push(op) }
    }

    /// This sheet after the operations `ops`, in order.
    pub open spec fn with_all(self, ops: Seq<Op>) -> SheetModel {
        SheetModel { name: self.name, ops: self.ops + ops }
    }
}

/// A text written to one cell.
pub open spec fn text_at(row: int, col: int, text: Seq<char>, style: Style) -> Op {
    Op::Write { row: row as u32, col: col as u16, value: CellContent::Text(text), style }
}

/// A number written to one cell.
pub open spec fn number_at(row: int, col: int, number: u32, style: Style) -> Op {
    Op::Write { row: row as u32, col: col as u16, value: CellContent::Number(number), style }
}

/// A date written to one cell.
pub open spec fn date_at(row: int, col: int, date: Date, style: Style) -> Op {
    Op::Write { row: row as u32, col: col as u16, value: CellContent::Date(date), style }
}

/// A formula written to one cell.
pub open spec fn formula_at(row: int, col: int, formula: Seq<char>, style: Style) -> Op {
    Op::Write { row: row as u32, col: col as u16, value: CellContent::Formula(formula), style }
}

/// A range of cells joined into one.
pub open spec fn merged(
    first_row: int,
    first_col: int,
    last_row: int,
    last_col: int,
    text: Seq<char>,
    style: Style,
) -> Op {
    Op::Merge {
        first_row: first_row as u32,
        first_col: first_col as u16,
        last_row: last_row as u32,
        last_col: last_col as u16,
        text,
        style,
    }
}

/// A column's width.
pub open spec fn column_width(col: int, hundredths: int) -> Op {
    Op::ColumnWidth { col: col as u16, hundredths: hundredths as u32 }
}

/// A row's height.
pub open spec fn row_height(row: int, tenths: int) -> Op {
    Op::RowHeight { row: row as u32, tenths: tenths as u32 }
}

impl Sheet {
    /// An unnamed sheet with nothing written to it.
    pub fn new() -> (sheet: Sheet)
        ensures
            sheet@.name == Seq::<char>::empty(),
            sheet@.ops == Seq::<Op>::empty(),
    {
        let sheet = Sheet { name: String::new(), ops: Vec::new() };
        assert(sheet@.ops =~= Seq::<Op>::empty());
        sheet
    }

    /// Names the sheet.
    pub fn set_name(&mut self, name: &str)
        ensures
            final(self)@ == (SheetModel { name: name@, ops: old(self)@.ops }),
    {
        self.name = String::from_str(name);
    }

    /// Adds one operation to the end of the list.
    pub fn push(&mut self, op: SheetOp)
        ensures
            final(self)@ == old(self)@.with(op@),
    {
        self.ops.push(op);
        assert(self@.ops =~= old(self)@.ops.push(op@));
    }

    pub fn set_column_width(&mut self, col: u16, hundredths: u32)
        ensures
            final(self)@ == old(self)@.with(column_width(col as int, hundredths as int)),
    {
        self.push(SheetOp::ColumnWidth { col, hundredths });
    }

    pub fn set_row_height(&mut self, row: u32, tenths: u32)
        ensures
            final(self)@ == old(self)@.with(row_height(row as int, tenths as int)),
    {
        self.push(SheetOp::RowHeight { row, tenths });
    }

    pub fn set_default_row_height(&mut self, tenths: u32)
        ensures
            final(self)@ == old(self)@.with(Op::DefaultRowHeight { tenths }),
    {
        self.push(SheetOp::DefaultRowHeight { tenths });
    }

    pub fn autofilter(&mut self, first_row: u32, first_col: u16, last_row: u32, last_col: u16)
        ensures
            final(self)@ == old(self)@.with(
                Op::AutoFilter { first_row, first_col, last_row, last_col },
            ),
    {
        self.push(SheetOp::AutoFilter { first_row, first_col, last_row, last_col });
    }

    pub fn merge_range(
        &mut self,
        first_row: u32,
        first_col: u16,
        last_row: u32,
        last_col: u16,
        text: &str,
        style: Style,
    )
        ensures
            final(self)@ == old(self)@.with(
                merged(
                    first_row as int,
                    first_col as int,
                    last_row as int,
                    last_col as int,
                    text@,
                    style,
                ),
            ),
    {
        self.push(
            SheetOp::Merge {
                first_row,
                first_col,
                last_row,
                last_col,
                text: String::from_str(text),
                style,
            },
        );
    }

    pub fn write_text(&mut self, row: u32, col: u16, text: &str, style: Style)
        ensures
            final(self)@ == old(self)@.with(text_at(row as int, col as int, text@, style)),
    {
        self.push(SheetOp::Write { row, col, value: CellValue::Text(String::from_str(text)), style });
    }

    pub fn write_number(&mut self, row: u32, col: u16, number: u32, style: Style)
        ensures
            final(self)@ == old(self)@.with(number_at(row as int, col as int, number, style)),
    {
        self.push(SheetOp::Write { row, col, value: CellValue::Number(number), style });
    }

    pub fn write_date(&mut self, row: u32, col: u16, date: Date, style: Style)
        ensures
            final(self)@ == old(self)@.with(date_at(row as int, col as int, date, style)),
    {
        self.push(SheetOp::Write { row, col, value: CellValue::Date(date), style });
    }

    pub fn write_formula(&mut self, row: u32, col: u16, formula: String, style: Style)
        ensures
            final(self)@ == old(self)@.with(formula_at(row as int, col as int, formula@, style)),
    {
        self.push(SheetOp::Write { row, col, value: CellValue::Formula(formula), style });
    }

    pub fn write_rich_text(&mut self, row: u32, col: u16, segments: Vec<RichSegment>, style: Style)
        ensures
            final(self)@ == old(self)@.with(
                Op::RichText {
                    row,
                    col,
                    segments: segments@.map_values(|s: RichSegment| s@),
                    style,
                },
            ),
    {
        self.push(SheetOp::RichText { row, col, segments, style });
    }
}

} // verus!
