//! A message in a centred box: the dialog's plain companion, which takes no
//! input and tells no one.

use vstd::prelude::*;
use ratatui::buffer::Buffer;
use ratatui::style::{Color, Style};
use ratatui::text::Text;
use ratatui::widgets::block::Title;
use ratatui::widgets::{BorderType, Borders};
use crate::measure::{clamped, narrowed, widest, widest_line};
use crate::helper::{centered, centered_rect_with_size, least, Rect};
use crate::surface::{
    after_steps, all_fit, all_within, buffer_area, default_border_type, default_borders, default_color,
    empty_text, empty_title, line_widths, measure_lines, paint, plain_style, surface_area,
    same_outside, text_fits, title_fits, title_width, HorizontalAlignment, Padding, PaintOp,
};

verus! {

/// A popup: a title, a message, and how they look.
#[derive(Debug)]
pub struct PopupMessage<'a, 'b> {
    pub bg: Color,
    pub borders: Borders,
    pub border_type: BorderType,
    pub border_style: Style,
    pub text_alignment: HorizontalAlignment,
    pub title_alignment: HorizontalAlignment,
    pub text_style: Style,
    pub padding: Padding,
    pub title: Title<'a>,
    pub message: Text<'b>,
}

/// `n`, or the even number after it.
pub open spec fn even_up(n: int) -> int {
    if n % 2 == 1 {
        n + 1
    } else {
        n
    }
}

/// The width that a popup asks for: its longest line, the padding beside it
/// and the two columns of a border, made even.
pub open spec fn popup_width(widths: Seq<usize>, padding: Padding) -> int {
    even_up(widest(widths) + (padding.left + padding.right) + 2)
}

/// The height that a popup asks for: its lines, the padding above and below
/// them and a row more, made even, and then one row more.
pub open spec fn popup_height(widths: Seq<usize>, padding: Padding) -> int {
    even_up(widths.len() + (padding.top + padding.bottom) + 1) + 1
}

/// The rectangle that `popup` takes in `area`: centred, with the size it asks
/// for as far as `area` has room.
pub open spec fn popup_area(popup: PopupMessage, area: Rect) -> Rect {
    centered(
        popup_width(line_widths(popup.message), popup.padding),
        popup_height(line_widths(popup.message), popup.padding),
        area,
    )
}

/// The steps that paint `popup` in `area`, in order: the cells of `area` are
/// reset, then the message is written in its box. The padding is handed over
/// as far as its opposite sides add up, which leaves of `area` what the whole
/// padding leaves.
pub open spec fn popup_steps(popup: PopupMessage, area: Rect) -> Seq<PaintOp<'static>> {
    seq![
        PaintOp::Clear { area },
        PaintOp::Boxed {
            text: &popup.message,
            text_style: popup.text_style,
            text_alignment: popup.text_alignment,
            title: &popup.title,
            title_alignment: popup.title_alignment,
            borders: popup.borders,
            border_type: popup.border_type,
            border_style: popup.border_style,
            padding: popup.padding.fitting(),
            bg: popup.bg,
            area,
        },
    ]
}

/// `n`, or the even number after it.
fn round_up_to_even(n: u32) -> (r: u32)
    requires
        n < u32::MAX,
    ensures
        r == even_up(n as int),
{
    if n % 2 == 1 {
        n + 1
    } else {
        n
    }
}

/// The size that a popup asks for, width first, as far as `u16` holds it.
/// `widths` are the display widths of the lines of its message.
pub fn popup_size(widths: &Vec<usize>, padding: Padding) -> (size: (u16, u16))
    ensures
        size.0 == least(popup_width(widths@, padding), u16::MAX as int),
        size.1 == least(popup_height(widths@, padding), u16::MAX as int),
{
    let beside: u32 = padding.left as u32 + padding.right as u32;
    let around: u32 = padding.top as u32 + padding.bottom as u32;
    let width: u32 = round_up_to_even(clamped(widest_line(widths)) + beside + 2);
    let height: u32 = round_up_to_even(clamped(widths.len()) + around + 1) + 1;
    (narrowed(width), narrowed(height))
}

impl<'a, 'b> PopupMessage<'a, 'b> {
    /// A popup with the given title and message, two cells of padding on
    /// every side, and the toolkit's defaults for the rest.
    pub fn new(title: Title<'a>, message: Text<'b>) -> (p: PopupMessage<'a, 'b>)
        ensures
            p.title == title,
            p.message == message,
            p.padding == (Padding { left: 2, right: 2, top: 2, bottom: 2 }),
            p.text_alignment == HorizontalAlignment::Left,
            p.title_alignment == HorizontalAlignment::Left,
    {
        PopupMessage {
            bg: default_color(),
            borders: default_borders(),
            border_type: default_border_type(),
            border_style: plain_style(),
            title_alignment: HorizontalAlignment::Left,
            text_alignment: HorizontalAlignment::Left,
            text_style: plain_style(),
            padding: Padding::uniform(2),
            title,
            message,
        }
    }

    /// Sets the background colour.
    pub fn bg(self, color: Color) -> (p: PopupMessage<'a, 'b>)
        ensures
            p == (PopupMessage { bg: color, ..self }),
    {
        PopupMessage { bg: color, ..self }
    }

    /// Sets the sides that carry a border.
    pub fn borders(self, borders: Borders) -> (p: PopupMessage<'a, 'b>)
        ensures
            p == (PopupMessage { borders, ..self }),
    {
        PopupMessage { borders, ..self }
    }

    /// Sets the line drawing of the border.
    pub fn border_type(self, border_type: BorderType) -> (p: PopupMessage<'a, 'b>)
        ensures
            p == (PopupMessage { border_type, ..self }),
    {
        PopupMessage { border_type, ..self }
    }

    /// Sets the style of the border.
    pub fn border_style(self, border_style: Style) -> (p: PopupMessage<'a, 'b>)
        ensures
            p == (PopupMessage { border_style, ..self }),
    {
        PopupMessage { border_style, ..self }
    }

    /// Sets the alignment of the message.
    pub fn text_alignment(self, alignment: HorizontalAlignment) -> (p: PopupMessage<'a, 'b>)
        ensures
            p == (PopupMessage { text_alignment: alignment, ..self }),
    {
        PopupMessage { text_alignment: alignment, ..self }
    }

    /// Sets the alignment of the title.
    pub fn title_alignment(self, alignment: HorizontalAlignment) -> (p: PopupMessage<'a, 'b>)
        ensures
            p == (PopupMessage { title_alignment: alignment, ..self }),
    {
        PopupMessage { title_alignment: alignment, ..self }
    }

    /// Sets the style of the message.
    pub fn text_style(self, style: Style) -> (p: PopupMessage<'a, 'b>)
        ensures
            p == (PopupMessage { text_style: style, ..self }),
    {
        PopupMessage { text_style: style, ..self }
    }

    /// Sets the padding between border and message.
    pub fn padding(self, padding: Padding) -> (p: PopupMessage<'a, 'b>)
        ensures
            p == (PopupMessage { padding, ..self }),
    {
        PopupMessage { padding, ..self }
    }

    /// The rectangle that the popup takes in `area`: centred, with the size
    /// it asks for as far as `area` has room.
    pub fn area(&self, area: Rect) -> (r: Rect)
        ensures
            r == popup_area(*self, area),
            r.within(area),
    {
        let widths = measure_lines(&self.message);
        let (width, height) = popup_size(&widths, self.padding);
        centered_rect_with_size(width, height, area)
    }

    /// The steps that paint the popup in `area`.
    pub fn steps<'s>(&'s self, area: Rect) -> (ops: Vec<PaintOp<'s>>)
        ensures
            ops@ == popup_steps(*self, area),
    {
        let mut ops: Vec<PaintOp<'s>> = Vec::new();
        ops.push(PaintOp::Clear { area });
        ops.push(
            PaintOp::Boxed {
                text: &self.message,
                text_style: self.text_style,
                text_alignment: self.text_alignment,
                title: &self.title,
                title_alignment: self.title_alignment,
                borders: self.borders,
                border_type: self.border_type,
                border_style: self.border_style,
                padding: self.padding.fitted(),
                bg: self.bg,
                area,
            },
        );
        assert(ops@ =~= popup_steps(*self, area));
        ops
    }

    /// Paints the popup onto `buf`, centred in the part of `area` that `buf`
    /// covers: the steps of `popup_steps` for the rectangle that `area` gives
    /// there, in order. Both fit the surface, so none is left out, but for
    /// the box where the toolkit cannot place the title or the popup is wider
    /// than `TEXT_WIDTH_LIMIT`. The surface keeps its extent and every cell
    /// outside the popup.
    pub fn render(self, area: Rect, buf: &mut Buffer)
        ensures
            buffer_area(*final(buf)) == buffer_area(*old(buf)),
            title_fits(title_width(self.title)) && text_fits(
                popup_area(self, area.overlap(buffer_area(*old(buf)))),
            ) ==> all_fit(
                popup_steps(self, popup_area(self, area.overlap(buffer_area(*old(buf))))),
                buffer_area(*old(buf)),
            ),
            *final(buf) == after_steps(
                *old(buf),
                popup_steps(self, popup_area(self, area.overlap(buffer_area(*old(buf))))),
                buffer_area(*old(buf)),
            ),
            same_outside(
                *old(buf),
                *final(buf),
                popup_area(self, area.overlap(buffer_area(*old(buf)))),
            ),
    {
        let visible = area.intersection(surface_area(buf));
        let popup = self.area(visible);
        let ops = self.steps(popup);
        assert(all_within(ops@, popup));
        paint(&ops, buf);
    }
}

impl<'a, 'b> Default for PopupMessage<'a, 'b> {
    /// A popup without padding, with an empty title and a message without
    /// lines, and the toolkit's defaults for the rest.
    fn default() -> (p: PopupMessage<'a, 'b>)
        ensures
            p.padding == (Padding { left: 0, right: 0, top: 0, bottom: 0 }),
            p.text_alignment == HorizontalAlignment::Left,
            p.title_alignment == HorizontalAlignment::Left,
            title_width(p.title) == 0,
            line_widths(p.message) == Seq::<usize>::empty(),
    {
        PopupMessage {
            bg: default_color(),
            borders: default_borders(),
            border_type: default_border_type(),
            border_style: plain_style(),
            title_alignment: HorizontalAlignment::Left,
            text_alignment: HorizontalAlignment::Left,
            text_style: plain_style(),
            padding: Padding::uniform(0),
            title: empty_title(),
            message: empty_text(),
        }
    }
}

} // verus!
