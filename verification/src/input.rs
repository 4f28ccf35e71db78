//! What the user did in each dialog during one frame.
//!
//! The host draws every open dialog, notes which control was used, and hands
//! the notes of the frame over as one `FrameInput`. A dialog that was not
//! touched has `None`, or `false`, in its field.

use vstd::prelude::*;
use crate::payload::ResizeData;

verus! {

/// What the resize form holds after the frame, and whether the user is done
/// with it.
#[derive(Clone, Copy, Debug, PartialEq, Eq, Structural)]
pub struct ResizeInput {
    pub edited: ResizeData,
    pub finished: bool,
}

/// The buttons of the dialog that asks whether to save before quitting.
#[derive(Clone, Copy, Debug, PartialEq, Eq, Structural)]
pub enum CloseChangesChoice {
    Cancel,
    Discard,
    Save,
}

/// The buttons of a dialog that asks whether to save before going on.
#[derive(Clone, Copy, Debug, PartialEq, Eq, Structural)]
pub enum SaveFirstChoice {
    Cancel,
    Continue,
    SaveAndContinue,
}

/// The controls of the course selection.
#[derive(Clone, Copy, Debug, PartialEq, Eq, Structural)]
pub enum ChangeCourseChoice {
    /// A world was picked from the list; counted from zero.
    SelectWorld(u32),
    /// A level was picked from the list; counted from zero.
    SelectLevel(u32),
    Cancel,
    Okay,
}

/// The buttons of the dialog that asks whether to clear the current layer.
#[derive(Clone, Copy, Debug, PartialEq, Eq, Structural)]
pub enum ClearChoice {
    Cancel,
    ClearLayer,
}

/// The buttons of the dialog that offers the map templates.
#[derive(Debug, PartialEq, Eq)]
pub enum AddMapChoice {
    Cancel,
    /// Add the selected template. The host has looked the selection up:
    /// `level_file` is the file of the template named `selected`, if the
    /// document knows that name, and `template_path` the folder of the
    /// templates, if it was found.
    Add { selected: String, level_file: Option<String>, template_path: Option<String> },
}

/// What the user did during one frame, dialog by dialog.
#[derive(Debug, PartialEq, Eq)]
pub struct FrameInput {
    pub resize: Option<ResizeInput>,
    /// The Okay button of the alert was pressed.
    pub alert_okay: bool,
    pub close_changes: Option<CloseChangesChoice>,
    pub export_change: Option<SaveFirstChoice>,
    pub course_changes: Option<SaveFirstChoice>,
    pub map_changes: Option<SaveFirstChoice>,
    /// The map that was picked from the list, by its place in the course.
    pub change_map: Option<u32>,
    pub change_course: Option<ChangeCourseChoice>,
    /// The Close button of the About dialog was pressed.
    pub about_close: bool,
    /// The Close button of the bug report dialog was pressed.
    pub bug_report_close: bool,
    pub clear: Option<ClearChoice>,
    /// The Close button of the Help dialog was pressed.
    pub help_close: bool,
    pub add_map: Option<AddMapChoice>,
}

impl FrameInput {
    /// The input of a frame in which the user touched no dialog.
    pub open spec fn spec_idle() -> FrameInput {
        FrameInput {
            resize: None,
            alert_okay: false,
            close_changes: None,
            export_change: None,
            course_changes: None,
            map_changes: None,
            change_map: None,
            change_course: None,
            about_close: false,
            bug_report_close: false,
            clear: None,
            help_close: false,
            add_map: None,
        }
    }

    /// The input of a frame in which the user touched no dialog.
    #[verifier::when_used_as_spec(spec_idle)]
    pub fn idle() -> (input: FrameInput)
        ensures
            input == Self::spec_idle(),
    {
        FrameInput {
            resize: None,
            alert_okay: false,
            close_changes: None,
            export_change: None,
            course_changes: None,
            map_changes: None,
            change_map: None,
            change_course: None,
            about_close: false,
            bug_report_close: false,
            clear: None,
            help_close: false,
            add_map: None,
        }
    }
}

impl Default for FrameInput {
    /// The input of a frame in which the user touched no dialog.
    fn default() -> (input: Self)
        ensures
            input == FrameInput::idle(),
    {
        FrameInput::idle()
    }
}

} // verus!
