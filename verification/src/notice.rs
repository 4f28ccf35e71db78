//! The dialogs that only inform, and the resize form.
//!
//! A notice has one button, which closes it. The resize form is drawn and
//! filled in by the host; the dialog keeps what the form holds and closes
//! when the user is done with it.

use vstd::prelude::*;
use crate::input::ResizeInput;
use crate::payload::{AboutData, AlertData, BugReportData, HelpData, ResizeData};
use crate::reaction::{Reaction, ReactionView};

verus! {

/// What a notice decides: it closes when its button was pressed.
pub open spec fn notice_reaction(pressed: bool) -> ReactionView {
    if pressed {
        ReactionView::dismiss()
    } else {
        ReactionView::stay()
    }
}

/// What the Resize dialog holds after a frame: what the form holds, where
/// the form was touched.
pub open spec fn resize_after(data: ResizeData, input: Option<ResizeInput>) -> ResizeData {
    match input {
        Some(form) => form.edited,
        None => data,
    }
}

/// What the Resize dialog decides: it closes when the user is done with the
/// form.
pub open spec fn resize_reaction(input: Option<ResizeInput>) -> ReactionView {
    match input {
        Some(form) => notice_reaction(form.finished),
        None => ReactionView::stay(),
    }
}

fn react_to_button(pressed: bool) -> (reaction: Reaction)
    ensures
        reaction@ == notice_reaction(pressed),
{
    if pressed {
        Reaction::dismiss()
    } else {
        Reaction::stay()
    }
}

/// One frame of the Resize dialog.
pub fn show_resize(data: &mut ResizeData, input: Option<ResizeInput>) -> (reaction: Reaction)
    ensures
        *final(data) == resize_after(*old(data), input),
        reaction@ == resize_reaction(input),
{
    match input {
        Some(form) => {
            *data = form.edited;
            react_to_button(form.finished)
        },
        None => Reaction::stay(),
    }
}

/// One frame of the Alert dialog. `okay` says that its button was pressed.
pub fn show_alert(data: &mut AlertData, okay: bool) -> (reaction: Reaction)
    ensures
        *final(data) == *old(data),
        reaction@ == notice_reaction(okay),
{
    react_to_button(okay)
}

/// One frame of the About dialog. `close` says that its button was pressed.
pub fn show_about(data: &mut AboutData, close: bool) -> (reaction: Reaction)
    ensures
        *final(data) == *old(data),
        reaction@ == notice_reaction(close),
{
    react_to_button(close)
}

/// One frame of the bug report dialog. `close` says that its button was
/// pressed.
pub fn show_bug_report(data: &mut BugReportData, close: bool) -> (reaction: Reaction)
    ensures
        *final(data) == *old(data),
        reaction@ == notice_reaction(close),
{
    react_to_button(close)
}

/// One frame of the Help dialog. `close` says that its button was pressed.
pub fn show_help(data: &mut HelpData, close: bool) -> (reaction: Reaction)
    ensures
        *final(data) == *old(data),
        reaction@ == notice_reaction(close),
{
    react_to_button(close)
}

} // verus!
