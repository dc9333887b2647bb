//! The look of a confirmation dialog and how it is laid out and painted: a
//! centred box with a title, the message, and a row of one or two buttons.

use vstd::prelude::*;
use ratatui::buffer::Buffer;
use ratatui::style::{Color, Style};
use ratatui::widgets::{BorderType, Borders};
use crate::helper::{centered, centered_rect_with_size, greatest, least, Rect};
use crate::label::ButtonLabel;
use crate::layout::{is_part, is_split, split, Constraint, Direction};
use crate::measure::{clamped, narrowed, widest, widest_line};
use crate::state::{confirms, ConfirmDialogState};
use crate::surface::{
    after_steps, all_fit, all_within, buffer_area, default_border_type, default_borders, default_color,
    label_cells, line_widths, measure_label, measure_lines, paint, plain_style, surface_area,
    same_outside, text_fits, title_fits, title_width, underlined, underlined_of, white, white_of,
    HorizontalAlignment, Padding, PaintOp,
};

verus! {

/// Empty cells between the dialog's border and its message, left and right.
pub const HORIZONTAL_PADDING: u16 = 2;

/// Empty cells between the dialog's border and its message, above and below.
pub const VERTICAL_PADDING: u16 = 2;

/// Cells that a button takes beyond the length of its label.
pub const BUTTONS_PADDING: u16 = 2;

/// The least width of a dialog.
pub const MINIMUM_WIDTH: u16 = 40;

/// The cells that a button takes in the row of buttons: the display width of
/// its label, `cells`, and the padding of buttons.
pub open spec fn footprint(cells: int) -> int {
    cells + BUTTONS_PADDING
}

/// The cells that the buttons take together, for the display widths of their
/// labels.
pub open spec fn buttons_width(yes_cells: int, no_cells: Option<int>) -> int {
    footprint(yes_cells) + match no_cells {
        Some(cells) => footprint(cells),
        None => 0,
    }
}

/// The width that a dialog asks for: room for its buttons and for its longest
/// line, each with the padding on both sides, and at least `MINIMUM_WIDTH`.
/// A message without lines asks for no more than the buttons do.
pub open spec fn dialog_width(widths: Seq<usize>, yes_cells: int, no_cells: Option<int>) -> int {
    let buttons = buttons_width(yes_cells, no_cells) + 2 * HORIZONTAL_PADDING;
    let content = if widths.len() == 0 {
        buttons
    } else {
        widest(widths) + 2 * HORIZONTAL_PADDING
    };
    greatest(greatest(content, buttons), MINIMUM_WIDTH as int)
}

/// The height that a dialog asks for: its lines, a row between them and the
/// buttons, the padding above and below, and the row of buttons.
pub open spec fn dialog_height(widths: Seq<usize>) -> int {
    widths.len() + 1 + (2 * VERTICAL_PADDING + 1)
}

/// The constraints of the split of the dialog into message and buttons: the
/// message takes what it can get and at least one row, the buttons at most
/// two rows.
pub open spec fn body_constraints() -> Seq<Constraint> {
    seq![Constraint::Min(1), Constraint::Max(2)]
}

/// The constraints of the split of a row of `row_width` cells into buttons
/// and the margins beside them, for the display widths of the labels. Each
/// margin is half of what the buttons leave of the row, rounded down, and
/// nothing where they leave nothing.
pub open spec fn button_constraints(
    row_width: u16,
    yes_cells: int,
    no_cells: Option<int>,
) -> Seq<Constraint> {
    let taken = least(buttons_width(yes_cells, no_cells), u16::MAX as int);
    let margin = (greatest(row_width - taken, 0) / 2) as u16;
    let yes_width = least(footprint(yes_cells), u16::MAX as int) as u16;
    match no_cells {
        Some(cells) => seq![
            Constraint::Length(margin),
            Constraint::Max(yes_width),
            Constraint::Max(least(footprint(cells), u16::MAX as int) as u16),
            Constraint::Length(margin),
        ],
        None => seq![
            Constraint::Length(margin),
            Constraint::Max(yes_width),
            Constraint::Length(margin),
        ],
    }
}

/// The display width of the label of the `no` button, if there is one.
pub open spec fn optional_cells(no: Option<ButtonLabel>) -> Option<int> {
    match no {
        Some(label) => Some(label_cells(label.label@) as int),
        None => None,
    }
}

/// The cells that a button takes in the row of buttons, as far as a `u16`
/// holds them. `cells` is the display width of its label.
pub fn button_size(cells: usize) -> (size: u16)
    ensures
        size == least(footprint(cells as int), u16::MAX as int),
{
    narrowed(clamped(cells) + BUTTONS_PADDING as u32)
}

/// The display width of an optional label as an integer.
pub open spec fn as_cells(cells: Option<usize>) -> Option<int> {
    match cells {
        Some(n) => Some(n as int),
        None => None,
    }
}

/// The size that a dialog asks for, width first, as far as `u16` holds it.
/// `widths` are the display widths of the lines of its message, `yes_cells`
/// and `no_cells` those of the labels of its buttons.
pub fn dialog_size(widths: &Vec<usize>, yes_cells: usize, no_cells: Option<usize>) -> (size: (
    u16,
    u16,
))
    ensures
        size.0 == least(dialog_width(widths@, yes_cells as int, as_cells(no_cells)), u16::MAX as int),
        size.1 == least(dialog_height(widths@), u16::MAX as int),
{
    let no_size: u32 = match no_cells {
        Some(cells) => button_size(cells) as u32,
        None => 0,
    };
    let buttons: u32 = button_size(yes_cells) as u32 + no_size + 2 * HORIZONTAL_PADDING as u32;
    let content: u32 = if widths.len() == 0 {
        buttons
    } else {
        clamped(widest_line(widths)) + 2 * HORIZONTAL_PADDING as u32
    };
    let most: u32 = if content >= buttons {
        content
    } else {
        buttons
    };
    let width: u32 = if most >= MINIMUM_WIDTH as u32 {
        most
    } else {
        MINIMUM_WIDTH as u32
    };
    let height: u32 = clamped(widths.len()) + 1 + (2 * VERTICAL_PADDING as u32 + 1);
    (narrowed(width), narrowed(height))
}

/// The constraints of the split of the dialog into message and buttons.
pub fn body_split() -> (constraints: Vec<Constraint>)
    ensures
        constraints@ == body_constraints(),
{
    let mut constraints: Vec<Constraint> = Vec::new();
    constraints.push(Constraint::Min(1));
    constraints.push(Constraint::Max(2));
    assert(constraints@ =~= body_constraints());
    constraints
}

/// The constraints of the split of a row of `row_width` cells into buttons
/// and the margins beside them, for the display widths of the labels.
pub fn button_split(row_width: u16, yes_cells: usize, no_cells: Option<usize>) -> (constraints:
    Vec<Constraint>)
    ensures
        constraints@ == button_constraints(row_width, yes_cells as int, as_cells(no_cells)),
{
    let yes_size = button_size(yes_cells);
    let mut constraints: Vec<Constraint> = Vec::new();
    match no_cells {
        Some(cells) => {
            let no_size = button_size(cells);
            let margin: u16 = row_width.saturating_sub(yes_size.saturating_add(no_size)) / 2;
            constraints.push(Constraint::Length(margin));
            constraints.push(Constraint::Max(yes_size));
            constraints.push(Constraint::Max(no_size));
            constraints.push(Constraint::Length(margin));
        },
        None => {
            let margin: u16 = row_width.saturating_sub(yes_size) / 2;
            constraints.push(Constraint::Length(margin));
            constraints.push(Constraint::Max(yes_size));
            constraints.push(Constraint::Length(margin));
        },
    }
    assert(constraints@ =~= button_constraints(row_width, yes_cells as int, as_cells(no_cells)));
    constraints
}

/// Where the parts of a dialog go.
#[derive(Debug, Clone, Copy, PartialEq, Eq, Structural)]
pub struct DialogLayout {
    /// The whole dialog.
    pub area: Rect,
    /// The message with its padding.
    pub text_area: Rect,
    /// The row of buttons.
    pub button_row: Rect,
    /// The `yes` button.
    pub yes_area: Rect,
    /// The `no` button, if the dialog has one.
    pub no_area: Option<Rect>,
    /// Whether the `yes` button is shown as selected; else the `no` button is.
    pub yes_selected: bool,
}

impl DialogLayout {
    /// Names the parts of a dialog that has been split. `body` holds the parts
    /// of the dialog from top to bottom: the message, then the row of
    /// buttons. `buttons` holds the parts of that row from left to right: a
    /// margin, the `yes` button, the `no` button if there is one, a margin.
    pub fn arrange(
        area: Rect,
        body: &Vec<Rect>,
        buttons: &Vec<Rect>,
        has_no_button: bool,
        yes_selected: bool,
    ) -> (l: DialogLayout)
        requires
            body@.len() == 2,
            buttons@.len() == if has_no_button {
                4int
            } else {
                3int
            },
        ensures
            l == (DialogLayout {
                area,
                text_area: body@[0],
                button_row: body@[1],
                yes_area: buttons@[1],
                no_area: if has_no_button {
                    Some(buttons@[2])
                } else {
                    None
                },
                yes_selected,
            }),
    {
        DialogLayout {
            area,
            text_area: body[0],
            button_row: body[1],
            yes_area: buttons[1],
            no_area: if has_no_button {
                Some(buttons[2])
            } else {
                None
            },
            yes_selected,
        }
    }
}

/// Whether `l` names the parts of the dialog `state` once it is split: `body`
/// is an answer of the layout solver to `body_constraints()` on the dialog
/// from top to bottom, the message first and the row of buttons second;
/// `buttons` is an answer to `button_constraints(..)` on that row from left
/// to right, the buttons between the two margins.
pub open spec fn splits_into(
    l: DialogLayout,
    state: ConfirmDialogState,
    body: Seq<Rect>,
    buttons: Seq<Rect>,
) -> bool {
    &&& is_split(Direction::Vertical, body_constraints(), l.area, body)
    &&& is_split(
        Direction::Horizontal,
        button_constraints(
            l.button_row.width,
            label_cells(state.yes_button.label@) as int,
            optional_cells(state.no_button),
        ),
        l.button_row,
        buttons,
    )
    &&& l.text_area == body[0]
    &&& l.button_row == body[1]
    &&& l.yes_area == buttons[1]
    &&& l.no_area == if state.no_button is Some {
        Some(buttons[2])
    } else {
        None
    }
}

/// Whether `l` can be the layout of the dialog `state` in `area`.
///
/// The dialog is centred in `area` with the size it asks for, as far as `area`
/// has room. It is split into the message and the row of buttons, and the row
/// into margins and buttons, as `splits_into` says. `yes` is shown as
/// selected exactly if Enter would confirm.
pub open spec fn is_layout(l: DialogLayout, state: ConfirmDialogState, area: Rect) -> bool {
    &&& l.area == centered(
        dialog_width(
            line_widths(state.text),
            label_cells(state.yes_button.label@) as int,
            optional_cells(state.no_button),
        ),
        dialog_height(line_widths(state.text)),
        area,
    )
    &&& exists|body: Seq<Rect>, buttons: Seq<Rect>| #[trigger] splits_into(l, state, body, buttons)
    &&& l.yes_selected == confirms(state)
}

/// In every layout of a dialog, the message and the row of buttons are parts
/// of the dialog, one below the other, and the buttons are parts of the row,
/// side by side. There is a place for the `no` button exactly if the dialog
/// has one.
pub proof fn lemma_layout_parts(l: DialogLayout, state: ConfirmDialogState, area: Rect)
    requires
        is_layout(l, state, area),
    ensures
        l.area.within(area),
        is_part(l.text_area, l.area, Direction::Vertical),
        is_part(l.button_row, l.area, Direction::Vertical),
        is_part(l.yes_area, l.button_row, Direction::Horizontal),
        match l.no_area {
            Some(no_area) => state.no_button is Some && is_part(
                no_area,
                l.button_row,
                Direction::Horizontal,
            ),
            None => state.no_button is None,
        },
{
    let (body, buttons) = choose|body: Seq<Rect>, buttons: Seq<Rect>| #[trigger]
        splits_into(l, state, body, buttons);
    assert(is_part(body[0], l.area, Direction::Vertical));
    assert(is_part(body[1], l.area, Direction::Vertical));
    assert(is_part(buttons[1], l.button_row, Direction::Horizontal));
    if state.no_button is Some {
        assert(is_part(buttons[2], l.button_row, Direction::Horizontal));
    }
}

/// Lays the dialog `state` out in `area`.
///
/// The toolkit measures the lines of the message and the labels of the
/// buttons. The dialog is centred in `area` with the size it asks for, as far
/// as `area` has room. The layout solver splits it from top to bottom by
/// `body_constraints()` into message and row of buttons, and the row from
/// left to right by `button_constraints(..)`, where the buttons are the parts
/// between the two margins. Of the solver's parts it is stated that they are
/// its answers to these constraints, and what holds of every answer.
pub fn dialog_layout(state: &ConfirmDialogState, area: Rect) -> (l: DialogLayout)
    ensures
        is_layout(l, *state, area),
        l.area.within(area),
        is_part(l.text_area, l.area, Direction::Vertical),
        is_part(l.button_row, l.area, Direction::Vertical),
        is_part(l.yes_area, l.button_row, Direction::Horizontal),
        l.no_area matches Some(no_area) ==> is_part(no_area, l.button_row, Direction::Horizontal),
{
    let widths = measure_lines(&state.text);
    let yes_cells = measure_label(state.yes_button.label.as_str());
    let no_cells = match &state.no_button {
        Some(label) => Some(measure_label(label.label.as_str())),
        None => None,
    };
    let (width, height) = dialog_size(&widths, yes_cells, no_cells);
    let dialog = centered_rect_with_size(width, height, area);
    let body = split(Direction::Vertical, &body_split(), dialog);
    let button_row = body[1];
    let buttons = split(
        Direction::Horizontal,
        &button_split(button_row.width, yes_cells, no_cells),
        button_row,
    );
    let l = DialogLayout::arrange(
        dialog,
        &body,
        &buttons,
        state.no_button.is_some(),
        state.is_yes_selected(),
    );
    proof {
        assert(splits_into(l, *state, body@, buttons@));
        lemma_layout_parts(l, *state, area);
    }
    l
}

/// The look of a confirmation dialog: colours, border and the styles of its
/// parts. It holds nothing of the dialog's state.
#[derive(Debug)]
pub struct ConfirmDialog {
    pub bg: Color,
    pub borders: Borders,
    pub border_type: BorderType,
    pub border_style: Style,
    pub button_style: Style,
    pub selected_button_style: Style,
    pub text_style: Style,
}

/// The steps that paint the dialog `state` with the look `look` where `l`
/// places it, in order: the cells of the dialog are reset; the message is
/// written in its style, padded and wrapped, with leading blanks trimmed; the
/// frame is drawn over the whole dialog with the title in the middle of its
/// top; then come the labels of the buttons, the selected one in the style of
/// the selected button and the other in that of the buttons.
pub open spec fn dialog_steps(look: ConfirmDialog, state: ConfirmDialogState, l: DialogLayout) -> Seq<
    PaintOp<'static>,
> {
    let steps = seq![
        PaintOp::Clear { area: l.area },
        PaintOp::Wrapped {
            text: &state.text,
            style: look.text_style,
            padding: Padding {
                left: HORIZONTAL_PADDING,
                right: HORIZONTAL_PADDING,
                top: VERTICAL_PADDING,
                bottom: VERTICAL_PADDING,
            },
            trim: true,
            area: l.text_area,
        },
        PaintOp::Frame {
            title: &state.title,
            title_alignment: HorizontalAlignment::Center,
            borders: look.borders,
            border_type: look.border_type,
            border_style: look.border_style,
            bg: look.bg,
            area: l.area,
        },
        PaintOp::Label {
            label: &state.yes_button.label,
            style: look.spec_style_for(l.yes_selected),
            area: l.yes_area,
        },
    ];
    match (state.no_button, l.no_area) {
        (Some(no_button), Some(no_area)) => steps.push(
            PaintOp::Label {
                label: &no_button.label,
                style: look.spec_style_for(!l.yes_selected),
                area: no_area,
            },
        ),
        _ => steps,
    }
}

impl ConfirmDialog {
    /// The toolkit's default colour, borders and border type; the border and
    /// the buttons in the toolkit's plain style, the selected button in that
    /// style underlined, and the text in that style in white.
    pub fn new() -> (look: ConfirmDialog)
        ensures
            look.border_style == look.button_style,
            look.selected_button_style == underlined_of(look.button_style),
            look.text_style == white_of(look.button_style),
    {
        let plain = plain_style();
        ConfirmDialog {
            bg: default_color(),
            borders: default_borders(),
            border_type: default_border_type(),
            border_style: plain,
            button_style: plain,
            selected_button_style: underlined(plain),
            text_style: white(plain),
        }
    }

    /// Sets the background colour.
    pub fn bg(self, color: Color) -> (d: ConfirmDialog)
        ensures
            d == (ConfirmDialog { bg: color, ..self }),
    {
        ConfirmDialog { bg: color, ..self }
    }

    /// Sets the sides that carry a border.
    pub fn borders(self, borders: Borders) -> (d: ConfirmDialog)
        ensures
            d == (ConfirmDialog { borders, ..self }),
    {
        ConfirmDialog { borders, ..self }
    }

    /// Sets the line drawing of the border.
    pub fn border_type(self, border_type: BorderType) -> (d: ConfirmDialog)
        ensures
            d == (ConfirmDialog { border_type, ..self }),
    {
        ConfirmDialog { border_type, ..self }
    }

    /// Sets the style of the border.
    pub fn border_style(self, border_style: Style) -> (d: ConfirmDialog)
        ensures
            d == (ConfirmDialog { border_style, ..self }),
    {
        ConfirmDialog { border_style, ..self }
    }

    /// Sets the style of a button that is not selected.
    pub fn button_style(self, button_style: Style) -> (d: ConfirmDialog)
        ensures
            d == (ConfirmDialog { button_style, ..self }),
    {
        ConfirmDialog { button_style, ..self }
    }

    /// Sets the style of the selected button.
    pub fn selected_button_style(self, selected_button_style: Style) -> (d: ConfirmDialog)
        ensures
            d == (ConfirmDialog { selected_button_style, ..self }),
    {
        ConfirmDialog { selected_button_style, ..self }
    }

    /// Sets the style of the message.
    pub fn text_style(self, text_style: Style) -> (d: ConfirmDialog)
        ensures
            d == (ConfirmDialog { text_style, ..self }),
    {
        ConfirmDialog { text_style, ..self }
    }

    /// The style in which a button is painted: that of the selected button,
    /// or that of the others.
    pub open spec fn spec_style_for(self, selected: bool) -> Style {
        if selected {
            self.selected_button_style
        } else {
            self.button_style
        }
    }

    /// The style in which a button is painted: that of the selected button,
    /// or that of the others.
    pub fn style_for(&self, selected: bool) -> (style: Style)
        ensures
            style == self.spec_style_for(selected),
    {
        if selected {
            self.selected_button_style
        } else {
            self.button_style
        }
    }

    /// The steps that paint the dialog `state` where `l` places it.
    pub fn steps<'s>(&self, state: &'s ConfirmDialogState, l: &DialogLayout) -> (ops: Vec<
        PaintOp<'s>,
    >)
        ensures
            ops@ == dialog_steps(*self, *state, *l),
    {
        let mut ops: Vec<PaintOp<'s>> = Vec::new();
        ops.push(PaintOp::Clear { area: l.area });
        ops.push(
            PaintOp::Wrapped {
                text: &state.text,
                style: self.text_style,
                padding: Padding::new(
                    HORIZONTAL_PADDING,
                    HORIZONTAL_PADDING,
                    VERTICAL_PADDING,
                    VERTICAL_PADDING,
                ),
                trim: true,
                area: l.text_area,
            },
        );
        ops.push(
            PaintOp::Frame {
                title: &state.title,
                title_alignment: HorizontalAlignment::Center,
                borders: self.borders,
                border_type: self.border_type,
                border_style: self.border_style,
                bg: self.bg,
                area: l.area,
            },
        );
        ops.push(
            PaintOp::Label {
                label: &state.yes_button.label,
                style: self.style_for(l.yes_selected),
                area: l.yes_area,
            },
        );
        match (&state.no_button, l.no_area) {
            (Some(no_button), Some(no_area)) => {
                ops.push(
                    PaintOp::Label {
                        label: &no_button.label,
                        style: self.style_for(!l.yes_selected),
                        area: no_area,
                    },
                );
            },
            _ => {},
        }
        assert(ops@ =~= dialog_steps(*self, *state, *l));
        ops
    }

    /// Paints the dialog `state` onto `buf`, centred in the part of `area`
    /// that `buf` covers.
    ///
    /// The dialog is laid out there, by some layout that `is_layout` admits,
    /// and the steps of `dialog_steps` for that layout are painted in order.
    /// Each of them fits the surface, so none is left out, but for the frame
    /// where the toolkit cannot place the title, and for the message and the
    /// buttons where the dialog is wider than `TEXT_WIDTH_LIMIT`. The state
    /// is only read, and the surface keeps its extent and every cell outside
    /// the dialog.
    pub fn render(self, area: Rect, buf: &mut Buffer, state: &mut ConfirmDialogState)
        ensures
            *final(state) == *old(state),
            buffer_area(*final(buf)) == buffer_area(*old(buf)),
            exists|l: DialogLayout|
                {
                    &&& #[trigger] is_layout(
                        l,
                        *old(state),
                        area.overlap(buffer_area(*old(buf))),
                    )
                    &&& title_fits(title_width(old(state).title)) && text_fits(l.area) ==> all_fit(
                        dialog_steps(self, *old(state), l),
                        buffer_area(*old(buf)),
                    )
                    &&& *final(buf) == after_steps(
                        *old(buf),
                        dialog_steps(self, *old(state), l),
                        buffer_area(*old(buf)),
                    )
                    &&& same_outside(*old(buf), *final(buf), l.area)
                },
    {
        let visible = area.intersection(surface_area(buf));
        let l = dialog_layout(state, visible);
        let ops = self.steps(state, &l);
        assert(all_within(ops@, l.area));
        paint(&ops, buf);
        assert(is_layout(l, *old(state), area.overlap(buffer_area(*old(buf)))));
    }
}

impl Default for ConfirmDialog {
    /// The look that `new` gives.
    fn default() -> (look: ConfirmDialog)
        ensures
            look.border_style == look.button_style,
            look.selected_button_style == underlined_of(look.button_style),
            look.text_style == white_of(look.button_style),
    {
        ConfirmDialog::new()
    }
}

} // verus!
