use ratatui::text::Text;
use ratatui::widgets::block::Title;
use std::sync::mpsc::{channel, Receiver, TryRecvError};
use tui_confirm_dialog::{
    ButtonLabel, ConfirmDialogState, KeyCode, KeyEvent, KeyEventKind, Listener,
};

fn dialog(id: u16) -> (ConfirmDialogState, Receiver<Listener>) {
    let (tx, rx) = channel();
    let mut state = ConfirmDialogState::new(id, Title::from("Sure?"), Text::from("Really?"));
    state.with_listener(Some(tx));
    state.open();
    (state, rx)
}

fn nothing_sent(rx: &Receiver<Listener>) -> bool {
    matches!(rx.try_recv(), Err(TryRecvError::Empty))
}

#[test]
fn new_dialog_is_closed_and_dismissible() {
    let state = ConfirmDialogState::new(7, Title::from("T"), Text::from("text"));
    assert_eq!(7, state.id);
    assert_eq!(Title::from("T"), state.title);
    assert_eq!(Text::from("text"), state.text);
    assert!(!state.modal);
    assert!(!state.opened);
    assert!(!state.is_opened());
    assert!(state.yes_selected);
    assert!(state.is_yes_selected());
    assert_eq!("Yes", state.yes_button.label);
    assert_eq!('y', state.yes_button.control);
    let no = state.no_button.as_ref().unwrap();
    assert_eq!("No", no.label);
    assert_eq!('n', no.control);
    assert!(state.listener.is_none());
}

#[test]
fn default_dialog_has_no_content() {
    let state = ConfirmDialogState::default();
    assert_eq!(Title::default(), state.title);
    assert_eq!(0, state.title.content.width());
    assert_eq!(Text::default(), state.text);
    assert_eq!(0, state.text.lines.len());
    assert!(!state.modal);
    assert!(!state.is_opened());
    assert!(state.yes_selected);
    assert_eq!("Yes", state.yes_button.label);
    assert_eq!("No", state.no_button.as_ref().unwrap().label);
    assert!(state.listener.is_none());
}

#[test]
fn settings_chain_in_any_order() {
    let (tx, rx) = channel();
    let mut state = ConfirmDialogState::default();
    state
        .modal(true)
        .with_title(Title::from(" Please Select "))
        .with_text(Text::from("Are you sure?\nThis cannot be undone."))
        .with_yes_button(ButtonLabel::from("(O)k").unwrap())
        .with_no_button(ButtonLabel::no())
        .with_yes_button_selected(false)
        .with_listener(Some(tx));
    state.id = 42;
    state.open();
    assert!(state.modal);
    assert!(state.is_opened());
    assert_eq!(Title::from(" Please Select "), state.title);
    assert_eq!(2, state.text.lines.len());
    assert_eq!('o', state.yes_button.control);
    assert_eq!("(N)o", state.no_button.as_ref().unwrap().label);
    assert!(!state.yes_selected);
    assert!(!state.is_yes_selected());

    // Settings may also follow the opening.
    state.as_mut().modal(false).without_no_button();
    assert!(state.is_opened());
    assert!(!state.modal);
    assert!(state.no_button.is_none());
    assert!(state.is_yes_selected());

    assert!(state.handle(&KeyEvent::new(KeyCode::Char('o'))));
    assert_eq!(Ok((42, Some(true))), rx.try_recv());
}

#[test]
fn escape_dismisses_a_dismissible_dialog() {
    let (mut state, rx) = dialog(1);
    assert!(state.handle(&KeyEvent::new(KeyCode::Esc)));
    assert!(!state.is_opened());
    assert_eq!(Ok((1, None)), rx.try_recv());
    assert!(nothing_sent(&rx));
}

#[test]
fn escape_leaves_a_modal_dialog_open() {
    let (mut state, rx) = dialog(1);
    state.modal(true);
    assert!(!state.handle(&KeyEvent::new(KeyCode::Esc)));
    assert!(state.is_opened());
    assert!(nothing_sent(&rx));
}

#[test]
fn control_characters_choose() {
    let (mut state, rx) = dialog(2);
    assert!(state.handle(&KeyEvent::new(KeyCode::Char('y'))));
    assert!(!state.is_opened());
    assert_eq!(Ok((2, Some(true))), rx.try_recv());

    let (mut state, rx) = dialog(3);
    assert!(state.handle(&KeyEvent::new(KeyCode::Char('n'))));
    assert!(!state.is_opened());
    assert_eq!(Ok((3, Some(false))), rx.try_recv());
    assert!(nothing_sent(&rx));
}

#[test]
fn yes_wins_where_both_buttons_share_a_control() {
    let (mut state, rx) = dialog(4);
    state
        .with_yes_button(ButtonLabel::new("One", 'x'))
        .with_no_button(ButtonLabel::new("Other", 'x'));
    assert!(state.handle(&KeyEvent::new(KeyCode::Char('x'))));
    assert_eq!(Ok((4, Some(true))), rx.try_recv());
}

#[test]
fn control_of_a_removed_button_is_just_another_key() {
    let (mut state, rx) = dialog(5);
    state.without_no_button();
    assert!(!state.handle(&KeyEvent::new(KeyCode::Char('n'))));
    assert!(state.is_opened());
    assert!(nothing_sent(&rx));
}

#[test]
fn controls_are_matched_exactly() {
    let (mut state, rx) = dialog(5);
    assert!(!state.handle(&KeyEvent::new(KeyCode::Char('Y'))));
    assert!(state.is_opened());
    assert!(nothing_sent(&rx));
}

#[test]
fn arrows_move_the_selection() {
    let (mut state, rx) = dialog(6);
    assert!(state.yes_selected);
    assert!(!state.handle(&KeyEvent::new(KeyCode::Right)));
    assert!(!state.yes_selected);
    assert!(state.is_opened());
    // Right again changes nothing.
    state.handle(&KeyEvent::new(KeyCode::Right));
    assert!(!state.yes_selected);
    assert!(state.handle(&KeyEvent::new(KeyCode::Enter)));
    assert!(!state.is_opened());
    assert_eq!(Ok((6, Some(false))), rx.try_recv());

    let (mut state, rx) = dialog(6);
    state.handle(&KeyEvent::new(KeyCode::Right));
    state.handle(&KeyEvent::new(KeyCode::Left));
    assert!(state.yes_selected);
    state.handle(&KeyEvent::new(KeyCode::Left));
    assert!(state.yes_selected);
    assert!(state.handle(&KeyEvent::new(KeyCode::Enter)));
    assert_eq!(Ok((6, Some(true))), rx.try_recv());
    assert!(nothing_sent(&rx));
}

#[test]
fn enter_takes_the_selection_that_was_set() {
    let (mut state, rx) = dialog(8);
    state.with_yes_button_selected(false);
    assert!(state.handle(&KeyEvent::new(KeyCode::Enter)));
    assert_eq!(Ok((8, Some(false))), rx.try_recv());
}

#[test]
fn single_button_always_confirms() {
    let (mut state, rx) = dialog(9);
    state.without_no_button();
    for code in [KeyCode::Right, KeyCode::Left, KeyCode::Right, KeyCode::Right] {
        assert!(!state.handle(&KeyEvent::new(code)));
        assert!(state.yes_selected);
        assert!(state.is_opened());
    }
    assert!(state.handle(&KeyEvent::new(KeyCode::Enter)));
    assert_eq!(Ok((9, Some(true))), rx.try_recv());

    // Even with the selection set away from `yes` beforehand.
    let (mut state, rx) = dialog(10);
    state.with_yes_button_selected(false).without_no_button();
    state.handle(&KeyEvent::new(KeyCode::Right));
    assert!(state.handle(&KeyEvent::new(KeyCode::Enter)));
    assert_eq!(Ok((10, Some(true))), rx.try_recv());
}

#[test]
fn other_keys_are_claimed_by_a_modal_dialog_only() {
    let (mut state, rx) = dialog(11);
    for code in [KeyCode::Other, KeyCode::Char('q'), KeyCode::Left, KeyCode::Right] {
        assert!(!state.handle(&KeyEvent::new(code)));
    }
    state.modal(true);
    for code in [KeyCode::Other, KeyCode::Char('q'), KeyCode::Left, KeyCode::Right] {
        assert!(state.handle(&KeyEvent::new(code)));
    }
    assert!(state.is_opened());
    assert!(nothing_sent(&rx));
}

#[test]
fn only_presses_count() {
    let (mut state, rx) = dialog(12);
    state.modal(true);
    for kind in [KeyEventKind::Release, KeyEventKind::Repeat] {
        for code in [KeyCode::Esc, KeyCode::Enter, KeyCode::Char('y'), KeyCode::Right, KeyCode::Other] {
            assert!(!state.handle(&KeyEvent { code, kind }));
            assert!(state.is_opened());
            assert!(state.yes_selected);
        }
    }
    assert!(nothing_sent(&rx));
    assert_eq!(
        KeyEvent { code: KeyCode::Enter, kind: KeyEventKind::Press },
        KeyEvent::new(KeyCode::Enter)
    );
}

#[test]
fn closed_dialog_takes_no_event() {
    let (mut state, rx) = dialog(13);
    state.modal(true);
    state.close();
    for code in [
        KeyCode::Esc,
        KeyCode::Enter,
        KeyCode::Char('y'),
        KeyCode::Char('n'),
        KeyCode::Right,
        KeyCode::Other,
    ] {
        assert!(!state.handle(&KeyEvent::new(code)));
        assert!(!state.is_opened());
        assert!(state.yes_selected);
    }
    assert!(nothing_sent(&rx));
}

#[test]
fn one_message_for_each_opening() {
    let (mut state, rx) = dialog(14);
    assert!(state.handle(&KeyEvent::new(KeyCode::Enter)));
    assert!(!state.handle(&KeyEvent::new(KeyCode::Enter)));
    assert!(!state.handle(&KeyEvent::new(KeyCode::Char('n'))));
    assert_eq!(Ok((14, Some(true))), rx.try_recv());
    assert!(nothing_sent(&rx));
    state.open();
    assert!(state.handle(&KeyEvent::new(KeyCode::Char('n'))));
    assert_eq!(Ok((14, Some(false))), rx.try_recv());
    assert!(nothing_sent(&rx));
}

#[test]
fn open_and_close_are_idempotent_and_silent() {
    let (mut state, rx) = dialog(15);
    assert!(state.is_opened());
    state.open();
    assert!(state.is_opened());
    state.close();
    assert!(!state.is_opened());
    state.close();
    assert!(!state.is_opened());
    state.open();
    assert!(state.is_opened());
    assert!(nothing_sent(&rx));
}

#[test]
fn transition_says_what_would_be_sent_and_sends_nothing() {
    let (mut state, rx) = dialog(16);
    assert_eq!((false, None), state.transition(&KeyEvent::new(KeyCode::Right)));
    assert!(!state.yes_selected);
    assert_eq!(
        (true, Some((16, Some(false)))),
        state.transition(&KeyEvent::new(KeyCode::Enter))
    );
    assert!(!state.is_opened());
    assert_eq!((false, None), state.transition(&KeyEvent::new(KeyCode::Enter)));
    state.open();
    assert_eq!((true, Some((16, None))), state.transition(&KeyEvent::new(KeyCode::Esc)));
    assert!(nothing_sent(&rx));
}

#[test]
fn listener_that_is_gone_is_no_error() {
    let (mut state, rx) = dialog(17);
    drop(rx);
    assert!(state.handle(&KeyEvent::new(KeyCode::Char('y'))));
    assert!(!state.is_opened());
}

#[test]
fn dialog_without_listener_closes_all_the_same() {
    let mut state = ConfirmDialogState::new(18, Title::default(), Text::default());
    state.open();
    assert!(state.handle(&KeyEvent::new(KeyCode::Esc)));
    assert!(!state.is_opened());
}

#[test]
fn dialogs_that_share_a_listener_are_told_apart_by_id() {
    let (tx, rx) = channel();
    let mut first = ConfirmDialogState::new(100, Title::default(), Text::default());
    let mut second = ConfirmDialogState::new(200, Title::default(), Text::default());
    first.with_listener(Some(tx.clone())).open();
    second.with_listener(Some(tx)).open();
    second.handle(&KeyEvent::new(KeyCode::Char('n')));
    first.handle(&KeyEvent::new(KeyCode::Char('y')));
    assert_eq!(Ok((200, Some(false))), rx.try_recv());
    assert_eq!(Ok((100, Some(true))), rx.try_recv());
}
