//! Modal dialogs of a level editor, as a state machine that a render loop drives.
//!
//! The registry holds one slot per kind of dialog. Once per frame the host
//! gathers what the user did in each open dialog and hands it to
//! [`gui::Gui::show_modals`], which advances every open dialog in a fixed
//! order and returns the effects that the host then carries out.

pub mod kind;
pub mod payload;
pub mod effect;
pub mod input;
pub mod reaction;
pub mod registry;
pub mod progress;
pub mod notice;
pub mod confirm;
pub mod select;
pub mod gui;
pub mod laws;
