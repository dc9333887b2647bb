//! The terminal toolkit as the widgets see it.
//!
//! The toolkit's own values (styles, colours, rich text, the drawing surface)
//! are stored and handed on without a look inside. A widget says what it
//! wants painted as a list of `PaintOp`s, each with its rectangle, and `paint`
//! hands them to the toolkit one by one.

use vstd::prelude::*;
use ratatui::buffer::{Buffer, Cell};
use ratatui::layout::Alignment;
use ratatui::style::{Color, Style, Stylize};
use ratatui::text::Text;
use ratatui::widgets::block::Title;
use ratatui::widgets::{Block, BorderType, Borders, Clear, Paragraph, Widget, Wrap};
use crate::helper::{least, Rect};

verus! {

/// The grid of cells that widgets paint on.
#[verifier::external_type_specification]
#[verifier::external_body]
pub struct ExBuffer(Buffer);

/// One cell of the grid: what it shows and in which style.
#[verifier::external_type_specification]
#[verifier::external_body]
pub struct ExCell(Cell);

/// Rich text: lines of styled spans.
#[verifier::external_type_specification]
#[verifier::external_body]
pub struct ExText<'a>(Text<'a>);

/// The title of a bordered box.
#[verifier::external_type_specification]
#[verifier::external_body]
pub struct ExTitle<'a>(Title<'a>);

/// Colours and text attributes of painted cells.
#[verifier::external_type_specification]
#[verifier::external_body]
pub struct ExStyle(Style);

/// A terminal colour.
#[verifier::external_type_specification]
#[verifier::external_body]
pub struct ExColor(Color);

/// Which sides of a box carry a border.
#[verifier::external_type_specification]
#[verifier::external_body]
pub struct ExBorders(Borders);

/// The line drawing of a border.
#[verifier::external_type_specification]
#[verifier::external_body]
pub struct ExBorderType(BorderType);

/// Where a line of text stands in the width it is given.
#[derive(Debug, Clone, Copy, PartialEq, Eq, Structural)]
pub enum HorizontalAlignment {
    Left,
    Center,
    Right,
}

/// Empty cells around a text, on each side of it.
#[derive(Debug, Clone, Copy, PartialEq, Eq, Structural)]
pub struct Padding {
    pub left: u16,
    pub right: u16,
    pub top: u16,
    pub bottom: u16,
}

impl Padding {
    /// Padding with each side given.
    pub fn new(left: u16, right: u16, top: u16, bottom: u16) -> (p: Padding)
        ensures
            p == (Padding { left, right, top, bottom }),
    {
        Padding { left, right, top, bottom }
    }

    /// The same padding on every side.
    pub fn uniform(value: u16) -> (p: Padding)
        ensures
            p == (Padding { left: value, right: value, top: value, bottom: value }),
    {
        Padding { left: value, right: value, top: value, bottom: value }
    }

    /// Whether the padding of opposite sides can be added up in cells: left
    /// and right together, and top and bottom together, stay within `u16`.
    pub open spec fn sums_fit(self) -> bool {
        self.left + self.right <= u16::MAX && self.top + self.bottom <= u16::MAX
    }

    /// The padding with its right and its bottom side shortened as far as
    /// opposite sides need to add up within `u16`. No area is wider or higher
    /// than that sum, so the shortened padding leaves of every area what the
    /// whole padding leaves.
    pub open spec fn fitting(self) -> Padding {
        Padding {
            left: self.left,
            right: least(self.right as int, u16::MAX - self.left) as u16,
            top: self.top,
            bottom: least(self.bottom as int, u16::MAX - self.top) as u16,
        }
    }

    /// Whether opposite sides add up within `u16`.
    pub fn fits(&self) -> (ok: bool)
        ensures
            ok == self.sums_fit(),
    {
        self.left as u32 + self.right as u32 <= 0xffff && self.top as u32 + self.bottom as u32
            <= 0xffff
    }

    /// The padding with its right and its bottom side shortened as far as
    /// opposite sides need to add up within `u16`.
    pub fn fitted(&self) -> (p: Padding)
        ensures
            p == self.fitting(),
            p.sums_fit(),
    {
        let room_right: u16 = u16::MAX - self.left;
        let room_bottom: u16 = u16::MAX - self.top;
        Padding {
            left: self.left,
            right: if self.right <= room_right {
                self.right
            } else {
                room_right
            },
            top: self.top,
            bottom: if self.bottom <= room_bottom {
                self.bottom
            } else {
                room_bottom
            },
        }
    }
}

/// One step of painting a widget.
#[derive(Debug, Clone, Copy, PartialEq)]
pub enum PaintOp<'s> {
    /// Reset every cell of `area`.
    Clear { area: Rect },
    /// A box with a title in its top border.
    Frame {
        title: &'s Title<'s>,
        title_alignment: HorizontalAlignment,
        borders: Borders,
        border_type: BorderType,
        border_style: Style,
        bg: Color,
        area: Rect,
    },
    /// Text with padding around it, wrapped at words, with the blanks at the
    /// start of a line dropped if `trim`.
    Wrapped { text: &'s Text<'s>, style: Style, padding: Padding, trim: bool, area: Rect },
    /// One piece of plain text in one style.
    Label { label: &'s String, style: Style, area: Rect },
    /// Text in a box with a title: the padding stands between border and
    /// text, and lines are cut where the box ends.
    Boxed {
        text: &'s Text<'s>,
        text_style: Style,
        text_alignment: HorizontalAlignment,
        title: &'s Title<'s>,
        title_alignment: HorizontalAlignment,
        borders: Borders,
        border_type: BorderType,
        border_style: Style,
        padding: Padding,
        bg: Color,
        area: Rect,
    },
}

impl<'s> PaintOp<'s> {
    /// The rectangle that the step paints in.
    pub open spec fn area(self) -> Rect {
        match self {
            PaintOp::Clear { area } => area,
            PaintOp::Frame { area, .. } => area,
            PaintOp::Wrapped { area, .. } => area,
            PaintOp::Label { area, .. } => area,
            PaintOp::Boxed { area, .. } => area,
        }
    }
}

/// The display width, in cells, of each line of `text`, first line first, as
/// the toolkit's `Line::width` measures it.
pub uninterp spec fn line_widths(text: Text<'static>) -> Seq<usize>;

/// The rectangle that a drawing surface covers.
pub uninterp spec fn buffer_area(buf: Buffer) -> Rect;

/// The cell of the surface `buf` in column `x` and row `y`, as `Buffer::cell`
/// gives it: `None` where the surface has no such cell.
pub uninterp spec fn cell_at(buf: Buffer, x: int, y: int) -> Option<Cell>;

/// Whether the surfaces `before` and `after` hold the same cells everywhere
/// but in `area`.
pub open spec fn same_outside(before: Buffer, after: Buffer, area: Rect) -> bool {
    forall|x: int, y: int|
        !area.covers(x, y) ==> #[trigger] cell_at(after, x, y) == cell_at(before, x, y)
}

/// Whether every step of `ops` has its rectangle within `area`, or has no
/// cell at all.
pub open spec fn all_within(ops: Seq<PaintOp<'static>>, area: Rect) -> bool {
    forall|i: int| 0 <= i < ops.len() ==> paintable(#[trigger] ops[i].area(), area)
}

/// Surfaces that differ only in a rectangle differ only in a rectangle that
/// holds it.
pub proof fn lemma_same_outside_widens(before: Buffer, after: Buffer, inner: Rect, outer: Rect)
    requires
        same_outside(before, after, inner),
        paintable(inner, outer),
    ensures
        same_outside(before, after, outer),
{
    assert forall|x: int, y: int| !outer.covers(x, y) implies #[trigger] cell_at(after, x, y)
        == cell_at(before, x, y) by {
        assert(!inner.covers(x, y));
    }
}

/// Whether a widget may be painted in `area` on a surface that covers
/// `bounds`: `area` has no cell, or none outside `bounds`.
pub open spec fn paintable(area: Rect, bounds: Rect) -> bool {
    area.is_empty() || area.within(bounds)
}

/// The display width of `label` in cells, as the toolkit's `Text::width`
/// measures the text made of it.
pub uninterp spec fn label_cells(label: Seq<char>) -> usize;

/// The display width of `title` in cells, as the toolkit's `Line::width`
/// measures its content.
pub uninterp spec fn title_width(title: Title<'static>) -> usize;

/// Whether the toolkit can place a title of `width` cells. It cuts the width
/// to sixteen bits and adds the blank that follows a title, which must not
/// pass what sixteen bits hold.
pub open spec fn title_fits(width: usize) -> bool {
    width % 65536 != 65535
}

/// The widest rectangle that text is painted in. The toolkit breaks lines by
/// adding up to three widths, none above that of the rectangle, in sixteen
/// bits; a quarter of what sixteen bits hold keeps every such sum within
/// them.
pub const TEXT_WIDTH_LIMIT: u16 = 16383;

/// Whether the toolkit can break lines for a rectangle as wide as `area`.
pub open spec fn text_fits(area: Rect) -> bool {
    area.width <= TEXT_WIDTH_LIMIT
}

/// Whether the toolkit can paint the step `op` on a surface that covers
/// `bounds`: the step's rectangle has no cell outside `bounds`, its padding
/// adds up, its title can be placed, and its text can be broken into lines.
pub open spec fn can_paint(op: PaintOp<'static>, bounds: Rect) -> bool {
    &&& paintable(op.area(), bounds)
    &&& match op {
        PaintOp::Clear { .. } => true,
        PaintOp::Frame { title, .. } => title_fits(title_width(*title)),
        PaintOp::Wrapped { padding, area, .. } => padding.sums_fit() && text_fits(area),
        PaintOp::Label { area, .. } => text_fits(area),
        PaintOp::Boxed { title, padding, area, .. } => title_fits(title_width(*title))
            && padding.sums_fit() && text_fits(area),
    }
}

/// The surface `buf` after the toolkit's `Widget::render` has painted, in the
/// rectangle of the step `op`, the widget that `op` describes: `Clear` for
/// `PaintOp::Clear`, a `Block` for `PaintOp::Frame`, a `Paragraph` for the
/// others. Which cells the toolkit writes, and what, is its own matter; the
/// same surface and the same step give the same surface.
pub uninterp spec fn rendered(buf: Buffer, op: PaintOp<'static>) -> Buffer;

/// `style` after the toolkit's `Stylize::underlined`.
pub uninterp spec fn underlined_of(style: Style) -> Style;

/// `style` after the toolkit's `Stylize::white`.
pub uninterp spec fn white_of(style: Style) -> Style;

/// The surface `buf`, which covers `bounds`, after the step `op`: the toolkit
/// has painted it, or the step was left out because the toolkit cannot paint
/// it there.
pub open spec fn after_step(buf: Buffer, op: PaintOp<'static>, bounds: Rect) -> Buffer {
    if can_paint(op, bounds) {
        rendered(buf, op)
    } else {
        buf
    }
}

/// Whether the toolkit can paint every step of `ops` on a surface that covers
/// `bounds`, so that none is left out.
pub open spec fn all_fit(ops: Seq<PaintOp<'static>>, bounds: Rect) -> bool {
    forall|i: int| 0 <= i < ops.len() ==> can_paint(#[trigger] ops[i], bounds)
}

/// The surface `buf`, which covers `bounds`, after the steps of `ops`, first
/// step first.
pub open spec fn after_steps(buf: Buffer, ops: Seq<PaintOp<'static>>, bounds: Rect) -> Buffer
    decreases ops.len(),
{
    if ops.len() == 0 {
        buf
    } else {
        after_step(after_steps(buf, ops.drop_last(), bounds), ops.last(), bounds)
    }
}

/// Measures every line of `text` with `Line::width`, walking `Text::lines` in
/// order.
#[verifier::external_body]
pub(crate) fn measure_lines<'a>(text: &Text<'a>) -> (widths: Vec<usize>)
    ensures
        widths@ == line_widths(*text),
{
    text.lines.iter().map(|line| line.width()).collect()
}

/// Measures the text made of `label` with `Text::width`. The answer depends
/// on `label` only, and `label_cells` is its name.
#[verifier::external_body]
pub(crate) fn measure_label(label: &str) -> (cells: usize)
    ensures
        cells == label_cells(label@),
{
    Text::raw(label).width()
}

/// Measures the content of `title` with `Line::width`. The answer depends on
/// `title` only, and `title_width` is its name.
#[verifier::external_body]
pub(crate) fn measure_title<'a>(title: &Title<'a>) -> (cells: usize)
    ensures
        cells == title_width(*title),
{
    title.content.width()
}

/// The text that `Text::default` gives: it has no line.
#[verifier::external_body]
pub(crate) fn empty_text() -> (text: Text<'static>)
    ensures
        line_widths(text) == Seq::<usize>::empty(),
{
    Text::default()
}

/// The title that `Title::default` gives: its content is an empty line, of
/// no width.
#[verifier::external_body]
pub(crate) fn empty_title() -> (title: Title<'static>)
    ensures
        title_width(title) == 0,
{
    Title::default()
}

/// The colour that `Color::default` gives.
#[verifier::external_body]
pub(crate) fn default_color() -> Color {
    Color::default()
}

/// The borders that `Borders::default` gives.
#[verifier::external_body]
pub(crate) fn default_borders() -> Borders {
    Borders::default()
}

/// The border type that `BorderType::default` gives.
#[verifier::external_body]
pub(crate) fn default_border_type() -> BorderType {
    BorderType::default()
}

/// The style that `Style::new` gives.
#[verifier::external_body]
pub(crate) fn plain_style() -> Style {
    Style::new()
}

/// `style` with `Stylize::underlined` applied. The result depends on `style`
/// only, and `underlined_of` is its name.
#[verifier::external_body]
pub(crate) fn underlined(style: Style) -> (marked: Style)
    ensures
        marked == underlined_of(style),
{
    style.underlined()
}

/// `style` with `Stylize::white` applied. The result depends on `style` only,
/// and `white_of` is its name.
#[verifier::external_body]
pub(crate) fn white(style: Style) -> (coloured: Style)
    ensures
        coloured == white_of(style),
{
    style.white()
}

/// Reads `Buffer::area`, the rectangle that the surface covers.
#[verifier::external_body]
pub(crate) fn surface_area(buf: &Buffer) -> (area: Rect)
    ensures
        area == buffer_area(*buf),
{
    Rect { x: buf.area.x, y: buf.area.y, width: buf.area.width, height: buf.area.height }
}

/// Renders the toolkit's `Clear` widget, which resets every cell of `area`.
/// It indexes the surface at each of those cells, so they must exist. The
/// surface keeps its extent and its cells outside `area`, and is then what
/// `rendered` names for the step `PaintOp::Clear`.
#[verifier::external_body]
fn clear(area: Rect, buf: &mut Buffer)
    requires
        paintable(area, buffer_area(*old(buf))),
    ensures
        *final(buf) == rendered(*old(buf), (PaintOp::Clear { area })),
        buffer_area(*final(buf)) == buffer_area(*old(buf)),
        forall|x: int, y: int|
            !area.covers(x, y) ==> #[trigger] cell_at(*final(buf), x, y) == cell_at(*old(buf), x, y),
{
    let area = ratatui::layout::Rect {
        x: area.x,
        y: area.y,
        width: area.width,
        height: area.height,
    };
    Clear.render(area, buf);
}

/// Renders a `Block` with the given title, borders and background colour.
/// The block adds one to the title's width cut to sixteen bits, so a title
/// for which that overflows is left out. The surface keeps its extent and its
/// cells outside `area`, and is then what `rendered` names for the step
/// `PaintOp::Frame` with these values.
#[verifier::external_body]
fn paint_frame<'a>(
    title: &Title<'a>,
    title_alignment: HorizontalAlignment,
    borders: Borders,
    border_type: BorderType,
    border_style: Style,
    bg: Color,
    area: Rect,
    buf: &mut Buffer,
)
    requires
        paintable(area, buffer_area(*old(buf))),
        title_fits(title_width(*title)),
    ensures
        *final(buf) == rendered(
            *old(buf),
            (PaintOp::Frame { title, title_alignment, borders, border_type, border_style, bg, area }),
        ),
        buffer_area(*final(buf)) == buffer_area(*old(buf)),
        forall|x: int, y: int|
            !area.covers(x, y) ==> #[trigger] cell_at(*final(buf), x, y) == cell_at(*old(buf), x, y),
{
    let area = ratatui::layout::Rect { x: area.x, y: area.y, width: area.width, height: area.height };
    let title_alignment = match title_alignment {
        HorizontalAlignment::Left => Alignment::Left,
        HorizontalAlignment::Center => Alignment::Center,
        HorizontalAlignment::Right => Alignment::Right,
    };
    Block::default()
        .title(title.clone())
        .title_alignment(title_alignment)
        .borders(borders)
        .border_type(border_type)
        .border_style(border_style)
        .bg(bg)
        .render(area, buf);
}

/// Renders a `Paragraph` of `text` in `style`, inside a `Block` that has only
/// `padding`, wrapped at words, with leading blanks trimmed if `trim`. The
/// block adds the padding of opposite sides in sixteen bits, and the line
/// breaking adds widths up to that of the text in sixteen bits, so padding
/// and areas for which either overflows are left out: `area` is no wider than
/// `TEXT_WIDTH_LIMIT`. The surface keeps its extent and its cells outside
/// `area`, and is then what `rendered` names for the step `PaintOp::Wrapped`
/// with these values.
#[verifier::external_body]
fn paint_wrapped<'a>(
    text: &Text<'a>,
    style: Style,
    padding: Padding,
    trim: bool,
    area: Rect,
    buf: &mut Buffer,
)
    requires
        paintable(area, buffer_area(*old(buf))),
        text_fits(area),
        padding.sums_fit(),
    ensures
        *final(buf) == rendered(*old(buf), (PaintOp::Wrapped { text, style, padding, trim, area })),
        buffer_area(*final(buf)) == buffer_area(*old(buf)),
        forall|x: int, y: int|
            !area.covers(x, y) ==> #[trigger] cell_at(*final(buf), x, y) == cell_at(*old(buf), x, y),
{
    let padding = ratatui::widgets::Padding::new(
        padding.left,
        padding.right,
        padding.top,
        padding.bottom,
    );
    let area = ratatui::layout::Rect { x: area.x, y: area.y, width: area.width, height: area.height };
    Paragraph::new(text.clone())
        .block(Block::new().padding(padding))
        .style(style)
        .wrap(Wrap { trim })
        .render(area, buf);
}

/// Renders a `Paragraph` of the plain text `label` in `style`. The line
/// cutting adds widths up to that of `area` in sixteen bits, so an area for
/// which that overflows is left out: `area` is no wider than
/// `TEXT_WIDTH_LIMIT`. The surface keeps its extent and its cells outside
/// `area`, and is then what `rendered` names for the step `PaintOp::Label`
/// with these values.
#[verifier::external_body]
fn paint_label(label: &String, style: Style, area: Rect, buf: &mut Buffer)
    requires
        paintable(area, buffer_area(*old(buf))),
        text_fits(area),
    ensures
        *final(buf) == rendered(*old(buf), (PaintOp::Label { label, style, area })),
        buffer_area(*final(buf)) == buffer_area(*old(buf)),
        forall|x: int, y: int|
            !area.covers(x, y) ==> #[trigger] cell_at(*final(buf), x, y) == cell_at(*old(buf), x, y),
{
    let area = ratatui::layout::Rect { x: area.x, y: area.y, width: area.width, height: area.height };
    Paragraph::new(Text::styled(label.as_str(), style)).render(area, buf);
}

/// Renders a `Paragraph` of `text`, styled and aligned as given, inside a
/// `Block` with the given title, borders, padding and background colour. The
/// block adds the padding of opposite sides in sixteen bits, and one to the
/// title's width cut to sixteen bits, and the line cutting adds widths up to
/// that of the text in sixteen bits, so padding, titles and areas for which
/// one of these overflows are left out: `area` is no wider than
/// `TEXT_WIDTH_LIMIT`. The surface keeps its extent and its cells outside
/// `area`, and is then what `rendered` names for the step `PaintOp::Boxed`
/// with these values.
#[verifier::external_body]
fn paint_boxed<'a, 'b>(
    text: &Text<'b>,
    text_style: Style,
    text_alignment: HorizontalAlignment,
    title: &Title<'a>,
    title_alignment: HorizontalAlignment,
    borders: Borders,
    border_type: BorderType,
    border_style: Style,
    padding: Padding,
    bg: Color,
    area: Rect,
    buf: &mut Buffer,
)
    requires
        paintable(area, buffer_area(*old(buf))),
        text_fits(area),
        title_fits(title_width(*title)),
        padding.sums_fit(),
    ensures
        *final(buf) == rendered(
            *old(buf),
            (PaintOp::Boxed {
                text,
                text_style,
                text_alignment,
                title,
                title_alignment,
                borders,
                border_type,
                border_style,
                padding,
                bg,
                area,
            }),
        ),
        buffer_area(*final(buf)) == buffer_area(*old(buf)),
        forall|x: int, y: int|
            !area.covers(x, y) ==> #[trigger] cell_at(*final(buf), x, y) == cell_at(*old(buf), x, y),
{
    let align = |alignment: HorizontalAlignment| match alignment {
        HorizontalAlignment::Left => Alignment::Left,
        HorizontalAlignment::Center => Alignment::Center,
        HorizontalAlignment::Right => Alignment::Right,
    };
    let area = ratatui::layout::Rect { x: area.x, y: area.y, width: area.width, height: area.height };
    let padding = ratatui::widgets::Padding::new(padding.left, padding.right, padding.top, padding.bottom);
    let block = Block::default().title(title.clone()).title_alignment(align(title_alignment))
        .borders(borders).border_type(border_type).border_style(border_style).padding(padding).bg(bg);
    Paragraph::new(text.clone()).style(text_style).alignment(align(text_alignment)).block(block)
        .render(area, buf);
}

/// Paints one step onto `buf`: the toolkit renders the widget that the step
/// describes in the step's rectangle.
fn paint_one(op: &PaintOp, buf: &mut Buffer)
    requires
        can_paint(*op, buffer_area(*old(buf))),
    ensures
        *final(buf) == rendered(*old(buf), *op),
        buffer_area(*final(buf)) == buffer_area(*old(buf)),
        same_outside(*old(buf), *final(buf), op.area()),
{
    match op {
        PaintOp::Clear { area } => {
            clear(*area, buf);
        },
        PaintOp::Frame { title, title_alignment, borders, border_type, border_style, bg, area } => {
            paint_frame(
                title,
                *title_alignment,
                *borders,
                *border_type,
                *border_style,
                *bg,
                *area,
                buf,
            );
        },
        PaintOp::Wrapped { text, style, padding, trim, area } => {
            paint_wrapped(text, *style, *padding, *trim, *area, buf);
        },
        PaintOp::Label { label, style, area } => {
            paint_label(label, *style, *area, buf);
        },
        PaintOp::Boxed {
            text,
            text_style,
            text_alignment,
            title,
            title_alignment,
            borders,
            border_type,
            border_style,
            padding,
            bg,
            area,
        } => {
            paint_boxed(
                text,
                *text_style,
                *text_alignment,
                title,
                *title_alignment,
                *borders,
                *border_type,
                *border_style,
                *padding,
                *bg,
                *area,
                buf,
            );
        },
    }
}

/// Whether a widget may be painted in `area` on a surface that covers
/// `bounds`.
pub fn fits(area: Rect, bounds: Rect) -> (ok: bool)
    ensures
        ok == paintable(area, bounds),
{
    area.width == 0 || area.height == 0 || (bounds.x <= area.x && bounds.y <= area.y && area.x as u32
        + area.width as u32 <= bounds.x as u32 + bounds.width as u32 && area.y as u32
        + area.height as u32 <= bounds.y as u32 + bounds.height as u32)
}

/// Whether the toolkit can place a title of `width` cells.
pub fn title_is_placeable(width: usize) -> (ok: bool)
    ensures
        ok == title_fits(width),
{
    width % 65536 != 65535
}

/// Whether the toolkit can paint the step `op` on a surface that covers
/// `bounds`.
pub fn step_fits(op: &PaintOp, bounds: Rect) -> (ok: bool)
    ensures
        ok == can_paint(*op, bounds),
{
    fits(step_area(op), bounds) && match op {
        PaintOp::Clear { .. } => true,
        PaintOp::Frame { title, .. } => title_is_placeable(measure_title(title)),
        PaintOp::Wrapped { padding, area, .. } => padding.fits() && area.width
            <= TEXT_WIDTH_LIMIT,
        PaintOp::Label { area, .. } => area.width <= TEXT_WIDTH_LIMIT,
        PaintOp::Boxed { title, padding, area, .. } => title_is_placeable(measure_title(title))
            && padding.fits() && area.width <= TEXT_WIDTH_LIMIT,
    }
}

/// Paints the steps of `ops` onto `buf`, first step first, so that a later
/// step paints over an earlier one. A step that the toolkit cannot paint is
/// left out: one whose rectangle has a cell that the surface lacks, whose
/// padding does not add up, whose title cannot be placed, or whose text
/// stands in a rectangle wider than `TEXT_WIDTH_LIMIT`.
///
/// The surface is then `after_steps` of what it was. It keeps its extent, and
/// its cells outside any rectangle that holds the rectangles of all steps.
pub fn paint(ops: &Vec<PaintOp>, buf: &mut Buffer)
    ensures
        *final(buf) == after_steps(*old(buf), ops@, buffer_area(*old(buf))),
        buffer_area(*final(buf)) == buffer_area(*old(buf)),
        forall|area: Rect| #[trigger]
            all_within(ops@, area) ==> same_outside(*old(buf), *final(buf), area),
{
    let bounds = surface_area(buf);
    let mut i: usize = 0;
    while i < ops.len()
        invariant
            i <= ops.len(),
            bounds == buffer_area(*buf),
            buffer_area(*buf) == buffer_area(*old(buf)),
            *buf == after_steps(*old(buf), ops@.take(i as int), bounds),
            forall|area: Rect| #[trigger]
                all_within(ops@, area) ==> same_outside(*old(buf), *buf, area),
        decreases ops.len() - i,
    {
        assert(ops@.take(i + 1).drop_last() =~= ops@.take(i as int));
        if step_fits(&ops[i], bounds) {
            let ghost before = *buf;
            paint_one(&ops[i], buf);
            proof {
                assert forall|area: Rect| #[trigger] all_within(ops@, area) implies same_outside(
                    *old(buf),
                    *buf,
                    area,
                ) by {
                    assert(paintable(ops@[i as int].area(), area));
                    lemma_same_outside_widens(before, *buf, ops@[i as int].area(), area);
                    assert(same_outside(*old(buf), before, area));
                }
            }
        }
        i += 1;
    }
    assert(ops@.take(i as int) =~= ops@);
}

/// The rectangle that the step paints in.
pub fn step_area(op: &PaintOp) -> (area: Rect)
    ensures
        area == op.area(),
{
    match op {
        PaintOp::Clear { area } => *area,
        PaintOp::Frame { area, .. } => *area,
        PaintOp::Wrapped { area, .. } => *area,
        PaintOp::Label { area, .. } => *area,
        PaintOp::Boxed { area, .. } => *area,
    }
}

} // verus!
