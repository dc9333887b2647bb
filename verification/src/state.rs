//! The dialog's state and its reaction to key events.
//!
//! A dialog is closed or open, and an open one is modal or dismissible. While
//! it is open, a key press can move the selection between its buttons, or
//! close it with an outcome: confirmed, declined or dismissed. The outcome is
//! sent to the dialog's listener, if it has one, at the moment the dialog
//! closes.

use vstd::prelude::*;
use ratatui::text::Text;
use ratatui::widgets::block::Title;
use std::sync::mpsc::Sender;
use crate::event::{press, KeyCode, KeyEvent, KeyEventKind};
use crate::label::ButtonLabel;
use crate::surface::{empty_text, empty_title, line_widths, title_width};

verus! {

/// The sending half of a channel.
#[verifier::external_type_specification]
#[verifier::external_body]
#[verifier::reject_recursive_types(T)]
pub struct ExSender<T>(Sender<T>);

/// What a listener receives when a dialog closes: the dialog's `id`, and
/// `Some(true)` for confirmed, `Some(false)` for declined, `None` for
/// dismissed without a choice.
pub type Listener = (u16, Option<bool>);

/// A confirmation dialog: what it shows, whether it is open, which button is
/// selected, and whom it tells how it was closed.
#[derive(Debug)]
pub struct ConfirmDialogState {
    /// Tells apart the dialogs that share one listener.
    pub id: u16,
    pub title: Title<'static>,
    pub text: Text<'static>,
    /// A modal dialog is not closed by Esc.
    pub modal: bool,
    pub opened: bool,
    /// Whether Enter confirms. It counts only while there is a `no` button.
    pub yes_selected: bool,
    pub yes_button: ButtonLabel,
    /// Without it the dialog has one button, which only acknowledges.
    pub no_button: Option<ButtonLabel>,
    pub listener: Option<Sender<Listener>>,
}

/// What one key event does to a dialog.
pub struct Reaction {
    /// Whether the dialog is open afterwards.
    pub opened: bool,
    /// The selection afterwards.
    pub yes_selected: bool,
    /// Whether the dialog claims the event, so that the host should not act
    /// on it as well.
    pub consumed: bool,
    /// What the listener is sent, if anything.
    pub message: Option<Listener>,
}

/// Whether Enter would confirm: `yes` is selected, or there is no other
/// button.
pub open spec fn confirms(s: ConfirmDialogState) -> bool {
    s.yes_selected || s.no_button is None
}

/// The event changes nothing; a modal dialog claims it all the same if
/// `claimed_when_modal` holds.
pub open spec fn stays(s: ConfirmDialogState, claimed_when_modal: bool) -> Reaction {
    Reaction {
        opened: s.opened,
        yes_selected: s.yes_selected,
        consumed: claimed_when_modal && s.modal,
        message: None,
    }
}

/// The dialog closes with `outcome` and claims the event.
pub open spec fn closes(s: ConfirmDialogState, outcome: Option<bool>) -> Reaction {
    Reaction {
        opened: false,
        yes_selected: s.yes_selected,
        consumed: true,
        message: Some((s.id, outcome)),
    }
}

/// The selection moves to `yes` or away from it, where there is a `no` button
/// to move to.
pub open spec fn selects(s: ConfirmDialogState, yes: bool) -> Reaction {
    Reaction {
        opened: s.opened,
        yes_selected: if s.no_button is Some {
            yes
        } else {
            s.yes_selected
        },
        consumed: s.modal,
        message: None,
    }
}

/// The reaction of dialog `s` to `event`.
///
/// A closed dialog ignores every event, and an open one every event that is
/// not a key press. Esc dismisses a dialog that is not modal. The control
/// character of `yes` confirms and that of `no` declines, `yes` first where
/// both are the same character. Right and Left move the selection, and Enter
/// closes with the selection as the outcome. Any other press changes nothing,
/// and a modal dialog claims it.
pub open spec fn react(s: ConfirmDialogState, event: KeyEvent) -> Reaction {
    if !s.opened || event.kind != KeyEventKind::Press {
        stays(s, false)
    } else {
        match event.code {
            KeyCode::Esc => if s.modal {
                stays(s, false)
            } else {
                closes(s, None)
            },
            KeyCode::Char(c) => if c == s.yes_button.control {
                closes(s, Some(true))
            } else if s.no_button is Some && c == s.no_button->0.control {
                closes(s, Some(false))
            } else {
                stays(s, true)
            },
            KeyCode::Right => selects(s, false),
            KeyCode::Left => selects(s, true),
            KeyCode::Enter => closes(s, Some(confirms(s))),
            KeyCode::Other => stays(s, true),
        }
    }
}

/// The dialog `s` after `event`.
pub open spec fn after(s: ConfirmDialogState, event: KeyEvent) -> ConfirmDialogState {
    ConfirmDialogState {
        opened: react(s, event).opened,
        yes_selected: react(s, event).yes_selected,
        ..s
    }
}

/// The dialog `s` after the events of `events`, in order.
pub open spec fn after_all(s: ConfirmDialogState, events: Seq<KeyEvent>) -> ConfirmDialogState
    decreases events.len(),
{
    if events.len() == 0 {
        s
    } else {
        after(after_all(s, events.drop_last()), events.last())
    }
}

/// Hands `message` to `Sender::send` and drops the answer: a receiver that is
/// gone is no error. Nothing is claimed of what the channel then holds.
#[verifier::external_body]
fn notify(listener: &Sender<Listener>, message: Listener) {
    let _ = listener.send(message);
}

/// A number from `rand::random`. Nothing is claimed of it.
#[verifier::external_body]
fn random_id() -> u16 {
    rand::random()
}

impl ConfirmDialogState {
    /// A closed, dismissible dialog with the buttons `Yes` and `No`, `yes`
    /// selected, and no listener.
    pub fn new(id: u16, title: Title<'static>, text: Text<'static>) -> (s: ConfirmDialogState)
        ensures
            s.id == id,
            s.title == title,
            s.text == text,
            !s.modal,
            !s.opened,
            s.yes_selected,
            s.yes_button.label@ == "Yes"@,
            s.yes_button.control == 'y',
            s.yes_button.style is None,
            s.no_button matches Some(no) && no.label@ == "No"@ && no.control == 'n'
                && no.style is None,
            s.listener is None,
    {
        let yes_button = ButtonLabel::new("Yes", 'y');
        let no_button = ButtonLabel::new("No", 'n');
        ConfirmDialogState {
            id,
            title,
            text,
            modal: false,
            opened: false,
            listener: None,
            yes_selected: true,
            yes_button,
            no_button: Some(no_button),
        }
    }

    /// The dialog itself, for a chain of settings to start from.
    pub fn as_mut(&mut self) -> (r: &mut ConfirmDialogState)
        ensures
            *r == *old(self),
            *final(self) == *final(r),
    {
        self
    }

    /// Opens the dialog. An open dialog stays as it is.
    pub fn open(&mut self)
        ensures
            *final(self) == (ConfirmDialogState { opened: true, ..*old(self) }),
            old(self).opened ==> *final(self) == *old(self),
    {
        self.opened = true;
    }

    /// Closes the dialog without telling the listener. A closed dialog stays
    /// as it is.
    pub fn close(&mut self)
        ensures
            *final(self) == (ConfirmDialogState { opened: false, ..*old(self) }),
            !old(self).opened ==> *final(self) == *old(self),
    {
        self.opened = false;
    }

    /// Makes the dialog modal or dismissible.
    pub fn modal(&mut self, value: bool) -> (r: &mut ConfirmDialogState)
        ensures
            *r == (ConfirmDialogState { modal: value, ..*old(self) }),
            *final(self) == *final(r),
    {
        self.modal = value;
        self
    }

    /// Sets the title.
    pub fn with_title(&mut self, title: Title<'static>) -> (r: &mut ConfirmDialogState)
        ensures
            *r == (ConfirmDialogState { title, ..*old(self) }),
            *final(self) == *final(r),
    {
        self.title = title;
        self
    }

    /// Sets the message.
    pub fn with_text(&mut self, text: Text<'static>) -> (r: &mut ConfirmDialogState)
        ensures
            *r == (ConfirmDialogState { text, ..*old(self) }),
            *final(self) == *final(r),
    {
        self.text = text;
        self
    }

    /// Sets or removes the listener.
    pub fn with_listener(&mut self, listener: Option<Sender<Listener>>) -> (r:
        &mut ConfirmDialogState)
        ensures
            *r == (ConfirmDialogState { listener, ..*old(self) }),
            *final(self) == *final(r),
    {
        self.listener = listener;
        self
    }

    /// Sets the `yes` button.
    pub fn with_yes_button(&mut self, label: ButtonLabel) -> (r: &mut ConfirmDialogState)
        ensures
            *r == (ConfirmDialogState { yes_button: label, ..*old(self) }),
            *final(self) == *final(r),
    {
        self.yes_button = label;
        self
    }

    /// Sets the `no` button.
    pub fn with_no_button(&mut self, label: ButtonLabel) -> (r: &mut ConfirmDialogState)
        ensures
            *r == (ConfirmDialogState { no_button: Some(label), ..*old(self) }),
            *final(self) == *final(r),
    {
        self.no_button = Some(label);
        self
    }

    /// Removes the `no` button: the dialog then only acknowledges.
    pub fn without_no_button(&mut self) -> (r: &mut ConfirmDialogState)
        ensures
            *r == (ConfirmDialogState { no_button: None, ..*old(self) }),
            *final(self) == *final(r),
    {
        self.no_button = None;
        self
    }

    /// Selects the `yes` button, or the `no` button.
    pub fn with_yes_button_selected(&mut self, selected: bool) -> (r: &mut ConfirmDialogState)
        ensures
            *r == (ConfirmDialogState { yes_selected: selected, ..*old(self) }),
            *final(self) == *final(r),
    {
        self.yes_selected = selected;
        self
    }

    /// Whether the dialog is open.
    pub fn is_opened(&self) -> (opened: bool)
        ensures
            opened == self.opened,
    {
        self.opened
    }

    /// Whether Enter would confirm.
    pub fn is_yes_selected(&self) -> (yes: bool)
        ensures
            yes == confirms(*self),
    {
        self.yes_selected || self.no_button.is_none()
    }

    /// Applies `event` to the dialog and says whether the dialog claims the
    /// event and what its listener is to be sent. Nothing is sent here.
    pub fn transition(&mut self, event: &KeyEvent) -> (out: (bool, Option<Listener>))
        ensures
            *final(self) == after(*old(self), *event),
            out.0 == react(*old(self), *event).consumed,
            out.1 == react(*old(self), *event).message,
    {
        if !self.opened {
            return (false, None);
        }
        match event.kind {
            KeyEventKind::Press => {},
            _ => {
                return (false, None);
            },
        }
        match event.code {
            KeyCode::Esc => {
                if self.modal {
                    (false, None)
                } else {
                    self.opened = false;
                    (true, Some((self.id, None)))
                }
            },
            KeyCode::Char(c) => {
                if c == self.yes_button.control {
                    self.opened = false;
                    return (true, Some((self.id, Some(true))));
                }
                let declines = match &self.no_button {
                    Some(no_button) => c == no_button.control,
                    None => false,
                };
                if declines {
                    self.opened = false;
                    return (true, Some((self.id, Some(false))));
                }
                (self.modal, None)
            },
            KeyCode::Right => {
                if self.no_button.is_some() {
                    self.yes_selected = false;
                }
                (self.modal, None)
            },
            KeyCode::Left => {
                if self.no_button.is_some() {
                    self.yes_selected = true;
                }
                (self.modal, None)
            },
            KeyCode::Enter => {
                let outcome = self.is_yes_selected();
                self.opened = false;
                (true, Some((self.id, Some(outcome))))
            },
            KeyCode::Other => (self.modal, None),
        }
    }

    /// Applies `event` to the dialog, sends the listener what `transition`
    /// says it is to be sent, and says whether the dialog claims the event.
    pub fn handle(&mut self, event: &KeyEvent) -> (consumed: bool)
        ensures
            *final(self) == after(*old(self), *event),
            consumed == react(*old(self), *event).consumed,
    {
        let (consumed, message) = self.transition(event);
        match message {
            Some(sent) => {
                self.send_close_message(sent.1);
            },
            None => {},
        }
        consumed
    }

    /// Tells the listener, if there is one, that the dialog closed with
    /// `result`.
    fn send_close_message(&self, result: Option<bool>) {
        match &self.listener {
            Some(listener) => {
                notify(listener, (self.id, result));
            },
            None => {},
        }
    }
}

impl Default for ConfirmDialogState {
    /// A dialog as `new` makes it, with a random `id`, an empty title and a
    /// text without lines.
    fn default() -> (s: ConfirmDialogState)
        ensures
            title_width(s.title) == 0,
            line_widths(s.text) == Seq::<usize>::empty(),
            !s.modal,
            !s.opened,
            s.yes_selected,
            s.yes_button.label@ == "Yes"@,
            s.yes_button.control == 'y',
            s.yes_button.style is None,
            s.no_button matches Some(no) && no.label@ == "No"@ && no.control == 'n'
                && no.style is None,
            s.listener is None,
    {
        ConfirmDialogState::new(random_id(), empty_title(), empty_text())
    }
}

/// Esc closes an open dialog that is not modal, and its listener is told that
/// the dialog was dismissed. A modal dialog stays open, and its listener is
/// told nothing.
pub proof fn law_escape_dismisses_unless_modal(s: ConfirmDialogState)
    requires
        s.opened,
    ensures
        !s.modal ==> !after(s, press(KeyCode::Esc)).opened && react(
            s,
            press(KeyCode::Esc),
        ).message == Some((s.id, None::<bool>)),
        s.modal ==> after(s, press(KeyCode::Esc)) == s && react(s, press(KeyCode::Esc)).message
            is None,
{
}

/// The control character of `yes` closes an open dialog as confirmed, and
/// that of `no`, where it is another character, closes it as declined.
pub proof fn law_control_characters_choose(s: ConfirmDialogState, c: char)
    requires
        s.opened,
    ensures
        c == s.yes_button.control ==> !after(s, press(KeyCode::Char(c))).opened && react(
            s,
            press(KeyCode::Char(c)),
        ).message == Some((s.id, Some(true))),
        s.no_button matches Some(no) && c == no.control && c != s.yes_button.control ==> !after(
            s,
            press(KeyCode::Char(c)),
        ).opened && react(s, press(KeyCode::Char(c))).message == Some((s.id, Some(false))),
{
}

/// With a `no` button and `yes` selected, Right moves the selection so that
/// Enter declines, and Left after that moves it back so that Enter confirms.
pub proof fn law_arrows_move_selection(s: ConfirmDialogState)
    requires
        s.opened,
        s.yes_selected,
        s.no_button is Some,
    ensures
        react(after(s, press(KeyCode::Right)), press(KeyCode::Enter)).message == Some(
            (s.id, Some(false)),
        ),
        react(
            after(after(s, press(KeyCode::Right)), press(KeyCode::Left)),
            press(KeyCode::Enter),
        ).message == Some((s.id, Some(true))),
{
}

/// A dialog without a `no` button is not changed by Left and Right, however
/// many, and Enter then confirms, whatever `yes_selected` holds.
pub proof fn law_single_button_confirms(s: ConfirmDialogState, arrows: Seq<KeyEvent>)
    requires
        s.opened,
        s.no_button is None,
        forall|i: int|
            0 <= i < arrows.len() ==> arrows[i] == press(KeyCode::Left) || arrows[i] == press(
                KeyCode::Right,
            ),
    ensures
        after_all(s, arrows) == s,
        react(after_all(s, arrows), press(KeyCode::Enter)).message == Some((s.id, Some(true))),
        !after(after_all(s, arrows), press(KeyCode::Enter)).opened,
    decreases arrows.len(),
{
    if arrows.len() > 0 {
        law_single_button_confirms(s, arrows.drop_last());
    }
}

/// A listener is told of a dialog at most once between two openings: an event
/// that sends a message closes the dialog, and a closed dialog takes no event
/// and sends nothing.
pub proof fn law_one_message_per_opening(s: ConfirmDialogState, event: KeyEvent)
    ensures
        react(s, event).message is Some ==> s.opened && !after(s, event).opened,
        !s.opened ==> after(s, event) == s && react(s, event).message is None && !react(
            s,
            event,
        ).consumed,
{
}

} // verus!
