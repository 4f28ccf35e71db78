//! The dialogs that ask before something is lost.
//!
//! Cancel closes the dialog and nothing else happens. The other buttons close
//! it too, and either go on at once or save first: a save is a Saving dialog
//! that opens in the wake of this one, with its orders for what follows.

use vstd::prelude::*;
use crate::effect::Effect;
use crate::input::{ClearChoice, CloseChangesChoice, SaveFirstChoice};
use crate::payload::{
    ChangeCourseData, ChangeMapData, ClearData, CloseChangesData, CourseChangesData,
    ExportChangeData, MapChangesData, Payload, SavingData,
};
use crate::reaction::{Reaction, ReactionView};

verus! {

/// A save that has not begun, with its orders for what follows it.
pub open spec fn fresh_save(quit_when_done: bool, export_after_done: bool) -> Payload {
    Payload::Saving(SavingData { quit_when_done, export_after_done, progress: 0 })
}

/// A course selection that stands at the first level of the first world.
pub open spec fn fresh_course_selection() -> Payload {
    Payload::ChangeCourse(
        ChangeCourseData { change_level_world_index: 0, change_level_level_index: 0 },
    )
}

/// What the dialog before quitting decides.
///
/// Discard marks the document as saved and closes the application. Save
/// opens a save that quits when it is done.
pub open spec fn close_changes_reaction(choice: Option<CloseChangesChoice>) -> ReactionView {
    match choice {
        None => ReactionView::stay(),
        Some(CloseChangesChoice::Cancel) => ReactionView::dismiss(),
        Some(CloseChangesChoice::Discard) => ReactionView {
            close: true,
            follow_ups: Seq::empty(),
            effects: seq![Effect::SetUnsavedChanges(false), Effect::RequestApplicationClose],
        },
        Some(CloseChangesChoice::Save) => ReactionView {
            close: true,
            follow_ups: seq![fresh_save(true, false)],
            effects: Seq::empty(),
        },
    }
}

/// What the dialog before an export decides.
///
/// Continue starts the export of what is not saved. Save and Continue opens
/// a save that starts the export when it is done.
pub open spec fn export_change_reaction(choice: Option<SaveFirstChoice>) -> ReactionView {
    match choice {
        None => ReactionView::stay(),
        Some(SaveFirstChoice::Cancel) => ReactionView::dismiss(),
        Some(SaveFirstChoice::Continue) => ReactionView {
            close: true,
            follow_ups: Seq::empty(),
            effects: seq![Effect::BeginExport { unsaved_confirmed: true }],
        },
        Some(SaveFirstChoice::SaveAndContinue) => ReactionView {
            close: true,
            follow_ups: seq![fresh_save(false, true)],
            effects: Seq::empty(),
        },
    }
}

/// What the dialog before a change of course decides.
///
/// Continue opens the course selection. Save and Continue opens it too, and
/// a save beside it.
pub open spec fn course_changes_reaction(choice: Option<SaveFirstChoice>) -> ReactionView {
    match choice {
        None => ReactionView::stay(),
        Some(SaveFirstChoice::Cancel) => ReactionView::dismiss(),
        Some(SaveFirstChoice::Continue) => ReactionView {
            close: true,
            follow_ups: seq![fresh_course_selection()],
            effects: Seq::empty(),
        },
        Some(SaveFirstChoice::SaveAndContinue) => ReactionView {
            close: true,
            follow_ups: seq![fresh_course_selection(), fresh_save(false, false)],
            effects: Seq::empty(),
        },
    }
}

/// What the dialog before a change of map decides.
///
/// Continue opens the list of maps. Save and Continue opens it too, and a
/// save beside it.
pub open spec fn map_changes_reaction(choice: Option<SaveFirstChoice>) -> ReactionView {
    match choice {
        None => ReactionView::stay(),
        Some(SaveFirstChoice::Cancel) => ReactionView::dismiss(),
        Some(SaveFirstChoice::Continue) => ReactionView {
            close: true,
            follow_ups: seq![Payload::ChangeMap(ChangeMapData {  })],
            effects: Seq::empty(),
        },
        Some(SaveFirstChoice::SaveAndContinue) => ReactionView {
            close: true,
            follow_ups: seq![Payload::ChangeMap(ChangeMapData {  }), fresh_save(false, false)],
            effects: Seq::empty(),
        },
    }
}

/// What the dialog before clearing a layer decides.
pub open spec fn clear_reaction(choice: Option<ClearChoice>) -> ReactionView {
    match choice {
        None => ReactionView::stay(),
        Some(ClearChoice::Cancel) => ReactionView::dismiss(),
        Some(ClearChoice::ClearLayer) => ReactionView {
            close: true,
            follow_ups: Seq::empty(),
            effects: seq![Effect::ClearLayer],
        },
    }
}

fn new_save(quit_when_done: bool, export_after_done: bool) -> (payload: Payload)
    ensures
        payload == fresh_save(quit_when_done, export_after_done),
{
    Payload::Saving(SavingData { quit_when_done, export_after_done, progress: 0 })
}

fn new_course_selection() -> (payload: Payload)
    ensures
        payload == fresh_course_selection(),
{
    Payload::ChangeCourse(
        ChangeCourseData { change_level_world_index: 0, change_level_level_index: 0 },
    )
}

/// One frame of the dialog that asks whether to save before quitting.
pub fn show_close_changes(data: &mut CloseChangesData, choice: Option<CloseChangesChoice>) -> (reaction:
    Reaction)
    ensures
        *final(data) == *old(data),
        reaction@ == close_changes_reaction(choice),
{
    match choice {
        None => Reaction::stay(),
        Some(CloseChangesChoice::Cancel) => Reaction::dismiss(),
        Some(CloseChangesChoice::Discard) => {
            let mut effects: Vec<Effect> = Vec::new();
            effects.push(Effect::SetUnsavedChanges(false));
            effects.push(Effect::RequestApplicationClose);
            assert(effects@ =~= close_changes_reaction(choice).effects);
            Reaction { close: true, follow_ups: Vec::new(), effects }
        },
        Some(CloseChangesChoice::Save) => {
            let mut follow_ups: Vec<Payload> = Vec::new();
            follow_ups.push(new_save(true, false));
            assert(follow_ups@ =~= close_changes_reaction(choice).follow_ups);
            Reaction { close: true, follow_ups, effects: Vec::new() }
        },
    }
}

/// One frame of the dialog that asks whether to save before exporting.
pub fn show_export_change(data: &mut ExportChangeData, choice: Option<SaveFirstChoice>) -> (reaction:
    Reaction)
    ensures
        *final(data) == *old(data),
        reaction@ == export_change_reaction(choice),
{
    match choice {
        None => Reaction::stay(),
        Some(SaveFirstChoice::Cancel) => Reaction::dismiss(),
        Some(SaveFirstChoice::Continue) => {
            let mut effects: Vec<Effect> = Vec::new();
            effects.push(Effect::BeginExport { unsaved_confirmed: true });
            assert(effects@ =~= export_change_reaction(choice).effects);
            Reaction { close: true, follow_ups: Vec::new(), effects }
        },
        Some(SaveFirstChoice::SaveAndContinue) => {
            let mut follow_ups: Vec<Payload> = Vec::new();
            follow_ups.push(new_save(false, true));
            assert(follow_ups@ =~= export_change_reaction(choice).follow_ups);
            Reaction { close: true, follow_ups, effects: Vec::new() }
        },
    }
}

/// One frame of the dialog that asks whether to save before changing course.
pub fn show_course_changes(data: &mut CourseChangesData, choice: Option<SaveFirstChoice>) -> (reaction:
    Reaction)
    ensures
        *final(data) == *old(data),
        reaction@ == course_changes_reaction(choice),
{
    match choice {
        None => Reaction::stay(),
        Some(SaveFirstChoice::Cancel) => Reaction::dismiss(),
        Some(SaveFirstChoice::Continue) => {
            let mut follow_ups: Vec<Payload> = Vec::new();
            follow_ups.push(new_course_selection());
            assert(follow_ups@ =~= course_changes_reaction(choice).follow_ups);
            Reaction { close: true, follow_ups, effects: Vec::new() }
        },
        Some(SaveFirstChoice::SaveAndContinue) => {
            let mut follow_ups: Vec<Payload> = Vec::new();
            follow_ups.push(new_course_selection());
            follow_ups.push(new_save(false, false));
            assert(follow_ups@ =~= course_changes_reaction(choice).follow_ups);
            Reaction { close: true, follow_ups, effects: Vec::new() }
        },
    }
}

/// One frame of the dialog that asks whether to save before changing map.
pub fn show_map_changes(data: &mut MapChangesData, choice: Option<SaveFirstChoice>) -> (reaction:
    Reaction)
    ensures
        *final(data) == *old(data),
        reaction@ == map_changes_reaction(choice),
{
    match choice {
        None => Reaction::stay(),
        Some(SaveFirstChoice::Cancel) => Reaction::dismiss(),
        Some(SaveFirstChoice::Continue) => {
            let mut follow_ups: Vec<Payload> = Vec::new();
            follow_ups.push(Payload::ChangeMap(ChangeMapData {  }));
            assert(follow_ups@ =~= map_changes_reaction(choice).follow_ups);
            Reaction { close: true, follow_ups, effects: Vec::new() }
        },
        Some(SaveFirstChoice::SaveAndContinue) => {
            let mut follow_ups: Vec<Payload> = Vec::new();
            follow_ups.push(Payload::ChangeMap(ChangeMapData {  }));
            follow_ups.push(new_save(false, false));
            assert(follow_ups@ =~= map_changes_reaction(choice).follow_ups);
            Reaction { close: true, follow_ups, effects: Vec::new() }
        },
    }
}

/// One frame of the dialog that asks whether to clear the current layer.
pub fn show_clear(data: &mut ClearData, choice: Option<ClearChoice>) -> (reaction: Reaction)
    ensures
        *final(data) == *old(data),
        reaction@ == clear_reaction(choice),
{
    match choice {
        None => Reaction::stay(),
        Some(ClearChoice::Cancel) => Reaction::dismiss(),
        Some(ClearChoice::ClearLayer) => {
            let mut effects: Vec<Effect> = Vec::new();
            effects.push(Effect::ClearLayer);
            assert(effects@ =~= clear_reaction(choice).effects);
            Reaction { close: true, follow_ups: Vec::new(), effects }
        },
    }
}

} // verus!
