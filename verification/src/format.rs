//! Cell styles: what a renderer needs to know to draw a cell, as plain
//! values, and the eight named styles that the report is built from.

use vstd::prelude::*;

verus! {

/// Background of header and total cells.
pub const BG_LAVENDER: u32 = 0xCCC1DE;

/// Background of cells that the report computes.
pub const BG_GRAY: u32 = 0xD8D8D8;

/// The report's typeface.
pub const BATANGCHE: &'static str = "Batangche";

/// The number format of currency amounts.
pub const NUM_FORMAT_STR: &'static str = "_-₩* #,##0_-;-₩* #,##0_-;_-₩* \" - \"_-;_-@";

/// The number format of transaction dates.
pub const DATE_FORMAT_STR: &'static str = "mm\"월\" dd\"일\"";

/// The line drawn along one edge of a cell.
#[derive(Debug, Clone, Copy, PartialEq, Eq, Structural)]
pub enum Border {
    NoLine,
    Thin,
    Medium,
}

/// The typeface of a cell.
#[derive(Debug, Clone, Copy, PartialEq, Eq, Structural)]
pub enum Font {
    /// The renderer's own.
    Default,
    Batangche,
    Arial,
}

/// How a cell's number is displayed.
#[derive(Debug, Clone, Copy, PartialEq, Eq, Structural)]
pub enum NumFormat {
    /// The renderer's own.
    General,
    /// `NUM_FORMAT_STR`
    Currency,
    /// `DATE_FORMAT_STR`
    MonthDay,
}

/// The colour of a cell's border lines.
#[derive(Debug, Clone, Copy, PartialEq, Eq, Structural)]
pub enum BorderColor {
    /// The renderer's own.
    Default,
    White,
}

/// Everything that decides how a cell is drawn.
#[derive(Debug, Clone, Copy, PartialEq, Eq)]
pub struct Style {
    /// Centred both across and down the cell.
    pub centered: bool,
    /// Fill colour as `0xRRGGBB`, if any.
    pub background: Option<u32>,
    pub font: Font,
    /// Size in points; `None` leaves the renderer's own.
    pub font_size: Option<u8>,
    pub bold: bool,
    pub border_left: Border,
    pub border_right: Border,
    pub border_top: Border,
    pub border_bottom: Border,
    pub border_color: BorderColor,
    pub num_format: NumFormat,
}

/// The eight styles that the period sheets are drawn with.
#[derive(Debug, Clone, Copy, PartialEq, Eq, Structural)]
pub enum StyleTag {
    /// The large month title of a period sheet.
    Header,
    /// Column and row captions.
    SchemaLabel,
    PlainText,
    GrayText,
    /// Text on the caption background, not bold.
    AccentText,
    Number,
    GrayFormula,
    AccentFormula,
}

impl Font {
    /// The typeface's name, where the style sets one.
    pub fn name(&self) -> (r: Option<&'static str>)
        ensures
            match *self {
                Font::Default => r is None,
                Font::Batangche => r is Some && r->0@ == BATANGCHE@,
                Font::Arial => r is Some && r->0@ == "Arial"@,
            },
    {
        match self {
            Font::Default => None,
            Font::Batangche => Some(BATANGCHE),
            Font::Arial => Some("Arial"),
        }
    }
}

impl NumFormat {
    /// The format string, where the style sets one.
    pub fn pattern(&self) -> (r: Option<&'static str>)
        ensures
            match *self {
                NumFormat::General => r is None,
                NumFormat::Currency => r is Some && r->0@ == NUM_FORMAT_STR@,
                NumFormat::MonthDay => r is Some && r->0@ == DATE_FORMAT_STR@,
            },
    {
        match self {
            NumFormat::General => None,
            NumFormat::Currency => Some(NUM_FORMAT_STR),
            NumFormat::MonthDay => Some(DATE_FORMAT_STR),
        }
    }
}

impl Style {
    /// The style of a cell that nothing was said about.
    pub open spec fn plain() -> Style {
        Style {
            centered: false,
            background: None,
            font: Font::Default,
            font_size: None,
            bold: false,
            border_left: Border::NoLine,
            border_right: Border::NoLine,
            border_top: Border::NoLine,
            border_bottom: Border::NoLine,
            border_color: BorderColor::Default,
            num_format: NumFormat::General,
        }
    }

    pub open spec fn with_centered(self) -> Style {
        Style { centered: true, ..self }
    }

    pub open spec fn with_background(self, rgb: u32) -> Style {
        Style { background: Some(rgb), ..self }
    }

    pub open spec fn with_font(self, font: Font) -> Style {
        Style { font, ..self }
    }

    pub open spec fn with_font_size(self, points: u8) -> Style {
        Style { font_size: Some(points), ..self }
    }

    pub open spec fn with_bold(self) -> Style {
        Style { bold: true, ..self }
    }

    /// The same line along all four edges.
    pub open spec fn with_border(self, border: Border) -> Style {
        Style {
            border_left: border,
            border_right: border,
            border_top: border,
            border_bottom: border,
            ..self
        }
    }

    pub open spec fn with_border_left(self, border: Border) -> Style {
        Style { border_left: border, ..self }
    }

    pub open spec fn with_border_right(self, border: Border) -> Style {
        Style { border_right: border, ..self }
    }

    pub open spec fn with_border_top(self, border: Border) -> Style {
        Style { border_top: border, ..self }
    }

    pub open spec fn with_border_bottom(self, border: Border) -> Style {
        Style { border_bottom: border, ..self }
    }

    pub open spec fn with_border_color(self, color: BorderColor) -> Style {
        Style { border_color: color, ..self }
    }

    pub open spec fn with_num_format(self, num_format: NumFormat) -> Style {
        Style { num_format, ..self }
    }

    /// What the text styles share: centred, thin borders, the report's
    /// typeface at 10 points.
    pub open spec fn text_base() -> Style {
        Style::plain().with_centered().with_border(Border::Thin).with_font(
            Font::Batangche,
        ).with_font_size(10)
    }

    /// The definition of each named style.
    pub open spec fn preset(tag: StyleTag) -> Style {
        match tag {
            StyleTag::Header => Style::text_base().with_background(BG_LAVENDER).with_font_size(
                15,
            ).with_bold(),
            StyleTag::SchemaLabel => Style::text_base().with_background(BG_LAVENDER).with_bold(),
            StyleTag::PlainText => Style::text_base(),
            StyleTag::GrayText => Style::text_base().with_background(BG_GRAY),
            StyleTag::AccentText => Style::text_base().with_background(BG_LAVENDER),
            StyleTag::Number => Style::text_base().with_num_format(NumFormat::Currency),
            StyleTag::GrayFormula => Style::text_base().with_background(BG_GRAY).with_num_format(
                NumFormat::Currency,
            ),
            StyleTag::AccentFormula => Style::text_base().with_background(
                BG_LAVENDER,
            ).with_num_format(NumFormat::Currency),
        }
    }
}

impl Style {
    /// The style of a cell that nothing was said about.
    pub fn new() -> (r: Style)
        ensures
            r == Style::plain(),
    {
        Style {
            centered: false,
            background: None,
            font: Font::Default,
            font_size: None,
            bold: false,
            border_left: Border::NoLine,
            border_right: Border::NoLine,
            border_top: Border::NoLine,
            border_bottom: Border::NoLine,
            border_color: BorderColor::Default,
            num_format: NumFormat::General,
        }
    }

    pub fn set_centered(self) -> (r: Style)
        ensures
            r == self.with_centered(),
    {
        Style { centered: true, ..self }
    }

    pub fn set_background_color(self, rgb: u32) -> (r: Style)
        ensures
            r == self.with_background(rgb),
    {
        Style { background: Some(rgb), ..self }
    }

    pub fn set_font(self, font: Font) -> (r: Style)
        ensures
            r == self.with_font(font),
    {
        Style { font, ..self }
    }

    pub fn set_font_size(self, points: u8) -> (r: Style)
        ensures
            r == self.with_font_size(points),
    {
        Style { font_size: Some(points), ..self }
    }

    pub fn set_bold(self) -> (r: Style)
        ensures
            r == self.with_bold(),
    {
        Style { bold: true, ..self }
    }

    /// Draws the same line along all four edges.
    pub fn set_border(self, border: Border) -> (r: Style)
        ensures
            r == self.with_border(border),
    {
        Style {
            border_left: border,
            border_right: border,
            border_top: border,
            border_bottom: border,
            ..self
        }
    }

    pub fn set_border_left(self, border: Border) -> (r: Style)
        ensures
            r == self.with_border_left(border),
    {
        Style { border_left: border, ..self }
    }

    pub fn set_border_right(self, border: Border) -> (r: Style)
        ensures
            r == self.with_border_right(border),
    {
        Style { border_right: border, ..self }
    }

    pub fn set_border_top(self, border: Border) -> (r: Style)
        ensures
            r == self.with_border_top(border),
    {
        Style { border_top: border, ..self }
    }

    pub fn set_border_bottom(self, border: Border) -> (r: Style)
        ensures
            r == self.with_border_bottom(border),
    {
        Style { border_bottom: border, ..self }
    }

    pub fn set_border_color(self, color: BorderColor) -> (r: Style)
        ensures
            r == self.with_border_color(color),
    {
        Style { border_color: color, ..self }
    }

    pub fn set_num_format(self, num_format: NumFormat) -> (r: Style)
        ensures
            r == self.with_num_format(num_format),
    {
        Style { num_format, ..self }
    }
}

/// Background of the summary sheets' captions.
pub const BG_CAPTION: u32 = 0xE5E0EF;

/// Background of the summary sheets' title banner.
pub const BG_BANNER: u32 = 0xFCD5B6;

impl Style {
    /// Captions of the budget and reconciliation sheets.
    pub open spec fn caption() -> Style {
        Style::plain().with_centered().with_font(Font::Batangche).with_font_size(
            12,
        ).with_background(BG_CAPTION)
    }

    /// The merged cells behind the title banner.
    pub open spec fn banner_ground() -> Style {
        Style::plain().with_centered().with_font(Font::Arial).with_background(
            BG_BANNER,
        ).with_border(Border::Medium)
    }

    /// The cell that holds the title banner's text.
    pub open spec fn banner_cell() -> Style {
        Style::plain().with_centered().with_background(BG_BANNER).with_border(Border::Medium)
    }

    /// One run of the title banner's text, `points` high.
    pub open spec fn banner_run(points: u8) -> Style {
        Style::plain().with_font_size(points).with_font(Font::Arial).with_bold()
    }

    /// A named style at 12 points, as the summary sheets use it.
    pub open spec fn summary(tag: StyleTag) -> Style {
        Style::preset(tag).with_font_size(12)
    }

    /// An empty cell that only draws the frame's line on its left edge.
    pub open spec fn frame_right() -> Style {
        Style::plain().with_border_left(Border::Medium)
    }

    /// An empty cell that only draws the frame's line on its right edge.
    pub open spec fn frame_left() -> Style {
        Style::plain().with_border_right(Border::Medium)
    }
}

/// Captions of the budget and reconciliation sheets.
pub fn caption_style() -> (r: Style)
    ensures
        r == Style::caption(),
{
    Style::new().set_centered().set_font(Font::Batangche).set_font_size(12).set_background_color(
        BG_CAPTION,
    )
}

/// The merged cells behind the title banner.
pub fn banner_ground_style() -> (r: Style)
    ensures
        r == Style::banner_ground(),
{
    Style::new().set_centered().set_font(Font::Arial).set_background_color(BG_BANNER).set_border(
        Border::Medium,
    )
}

/// The cell that holds the title banner's text.
pub fn banner_cell_style() -> (r: Style)
    ensures
        r == Style::banner_cell(),
{
    Style::new().set_centered().set_background_color(BG_BANNER).set_border(Border::Medium)
}

/// One run of the title banner's text, `points` high.
pub fn banner_run_style(points: u8) -> (r: Style)
    ensures
        r == Style::banner_run(points),
{
    Style::new().set_font_size(points).set_font(Font::Arial).set_bold()
}

/// The named style `tag` at 12 points, as the summary sheets use it.
pub fn summary_style(tag: StyleTag) -> (r: Style)
    ensures
        r == Style::summary(tag),
{
    style_of(tag).set_font_size(12)
}

impl StyleTag {
    /// The named style at position `idx` of the style list.
    pub open spec fn at(idx: int) -> StyleTag
        recommends
            0 <= idx < 8,
    {
        if idx == 0 {
            StyleTag::Header
        } else if idx == 1 {
            StyleTag::SchemaLabel
        } else if idx == 2 {
            StyleTag::PlainText
        } else if idx == 3 {
            StyleTag::GrayText
        } else if idx == 4 {
            StyleTag::AccentText
        } else if idx == 5 {
            StyleTag::Number
        } else if idx == 6 {
            StyleTag::GrayFormula
        } else {
            StyleTag::AccentFormula
        }
    }

    /// This style's position in the style list.
    pub open spec fn position(self) -> int {
        match self {
            StyleTag::Header => 0,
            StyleTag::SchemaLabel => 1,
            StyleTag::PlainText => 2,
            StyleTag::GrayText => 3,
            StyleTag::AccentText => 4,
            StyleTag::Number => 5,
            StyleTag::GrayFormula => 6,
            StyleTag::AccentFormula => 7,
        }
    }
}

/// The named style at position `idx`, or `None` from position 8 on.
pub fn style_tag(idx: usize) -> (r: Option<StyleTag>)
    ensures
        idx < 8 ==> r == Some(StyleTag::at(idx as int)),
        idx >= 8 ==> r is None,
{
    match idx {
        0 => Some(StyleTag::Header),
        1 => Some(StyleTag::SchemaLabel),
        2 => Some(StyleTag::PlainText),
        3 => Some(StyleTag::GrayText),
        4 => Some(StyleTag::AccentText),
        5 => Some(StyleTag::Number),
        6 => Some(StyleTag::GrayFormula),
        7 => Some(StyleTag::AccentFormula),
        _ => None,
    }
}

/// The definition of the named style `tag`.
pub fn style_of(tag: StyleTag) -> (style: Style)
    ensures
        style == Style::preset(tag),
{
    let base = Style {
        centered: true,
        background: None,
        font: Font::Batangche,
        font_size: Some(10),
        bold: false,
        border_left: Border::Thin,
        border_right: Border::Thin,
        border_top: Border::Thin,
        border_bottom: Border::Thin,
        border_color: BorderColor::Default,
        num_format: NumFormat::General,
    };
    match tag {
        StyleTag::Header => Style {
            background: Some(BG_LAVENDER),
            font_size: Some(15),
            bold: true,
            ..base
        },
        StyleTag::SchemaLabel => Style { background: Some(BG_LAVENDER), bold: true, ..base },
        StyleTag::PlainText => base,
        StyleTag::GrayText => Style { background: Some(BG_GRAY), ..base },
        StyleTag::AccentText => Style { background: Some(BG_LAVENDER), ..base },
        StyleTag::Number => Style { num_format: NumFormat::Currency, ..base },
        StyleTag::GrayFormula => Style {
            background: Some(BG_GRAY),
            num_format: NumFormat::Currency,
            ..base
        },
        StyleTag::AccentFormula => Style {
            background: Some(BG_LAVENDER),
            num_format: NumFormat::Currency,
            ..base
        },
    }
}

/// The definition of the named style at position `idx` of the style list.
pub fn format_list(idx: usize) -> (style: Style)
    requires
        idx < 8,
    ensures
        style == Style::preset(StyleTag::at(idx as int)),
{
    match style_tag(idx) {
        Some(tag) => style_of(tag),
        None => style_of(StyleTag::Header),
    }
}

/// The tags are listed without gaps or repeats: a tag sits at its own
/// position, and each position below 8 holds the tag that says so.
pub proof fn lemma_style_positions(tag: StyleTag, idx: int)
    ensures
        0 <= tag.position() < 8,
        StyleTag::at(tag.position()) == tag,
        0 <= idx < 8 ==> StyleTag::at(idx).position() == idx,
{
}

} // verus!
