//! A modal confirmation dialog and a plain message popup for terminal user
//! interfaces built on `ratatui`.
//!
//! The host program owns the drawing surface and the event loop. It keeps one
//! [`ConfirmDialogState`] for each question it may ask, hands key events to
//! it while the dialog is open, and on each frame has a [`ConfirmDialog`]
//! paint it. The outcome of a dialog reaches the host through a channel.
//!
//! Everything here is verified with Verus: the grammar of button labels
//! ([`label`]), the reaction of a dialog to keys ([`state`]), the centring of
//! a box in an area ([`helper`]), and the size, the layout and the painting
//! steps of the dialog ([`confirm_dialog`]) and of the popup
//! ([`popup_message`]), both over the sizes of [`measure`]. What the toolkit
//! itself does, splitting rectangles ([`layout`]), measuring text and
//! painting cells ([`surface`]), is taken on trust and said so at each call.

pub mod confirm_dialog;
pub mod event;
pub mod helper;
pub mod label;
pub mod layout;
pub mod measure;
pub mod popup_message;
pub mod state;
pub mod surface;

pub use confirm_dialog::{ConfirmDialog, DialogLayout};
pub use event::{KeyCode, KeyEvent, KeyEventKind};
pub use helper::Rect;
pub use label::{ButtonLabel, TryFromSliceError};
pub use popup_message::PopupMessage;
pub use state::{ConfirmDialogState, Listener};
pub use surface::{HorizontalAlignment, Padding, PaintOp};
