//! The dialogs in which the user picks from a list: a map of the course, a
//! world and a level, a map template.
//!
//! The host draws the lists from the document. What the user picked comes
//! back as input, and the dialog answers with the change that the host is to
//! make to the document.

use vstd::prelude::*;
use crate::effect::{Diagnostic, Effect};
use crate::input::{AddMapChoice, ChangeCourseChoice};
use crate::payload::{AddMapData, ChangeCourseData, ChangeMapData, LEVEL_COUNT, WORLD_COUNT};
use crate::reaction::{Reaction, ReactionView};

verus! {

/// What the list of maps decides. Picking a map writes the course, since
/// leaving a map drops what was changed in memory, then goes to that map.
pub open spec fn change_map_reaction(picked: Option<u32>) -> ReactionView {
    match picked {
        None => ReactionView::stay(),
        Some(map_index) => ReactionView {
            close: true,
            follow_ups: Seq::empty(),
            effects: seq![Effect::PersistCourse, Effect::ChangeMap { map_index }],
        },
    }
}

/// The course selection after a frame. Picking a world or a level that
/// exists moves the selection there; anything else leaves it as it was.
pub open spec fn change_course_after(
    data: ChangeCourseData,
    choice: Option<ChangeCourseChoice>,
) -> ChangeCourseData {
    match choice {
        Some(ChangeCourseChoice::SelectWorld(world)) => if world < WORLD_COUNT {
            ChangeCourseData { change_level_world_index: world, ..data }
        } else {
            data
        },
        Some(ChangeCourseChoice::SelectLevel(level)) => if level < LEVEL_COUNT {
            ChangeCourseData { change_level_level_index: level, ..data }
        } else {
            data
        },
        _ => data,
    }
}

/// What the course selection decides. Okay goes to the world and level that
/// the selection stands at; Cancel goes nowhere.
pub open spec fn change_course_reaction(
    data: ChangeCourseData,
    choice: Option<ChangeCourseChoice>,
) -> ReactionView {
    match choice {
        Some(ChangeCourseChoice::Cancel) => ReactionView::dismiss(),
        Some(ChangeCourseChoice::Okay) => ReactionView {
            close: true,
            follow_ups: Seq::empty(),
            effects: seq![
                Effect::ChangeLevel {
                    world_index: data.change_level_world_index,
                    level_index: data.change_level_level_index,
                },
            ],
        },
        _ => ReactionView::stay(),
    }
}

/// What the dialog of the map templates decides.
///
/// Add gives up, and leaves the dialog open, where the selected name is
/// unknown to the document or the folder of the templates was not found:
/// the log gets a warning for the first, an error for the second, and the
/// name is looked at first. Otherwise the template is added, the document
/// is marked as changed, and the dialog closes.
pub open spec fn add_map_reaction(choice: Option<AddMapChoice>) -> ReactionView {
    match choice {
        None => ReactionView::stay(),
        Some(AddMapChoice::Cancel) => ReactionView::dismiss(),
        Some(AddMapChoice::Add { selected, level_file, template_path }) => match level_file {
            None => ReactionView {
                close: false,
                follow_ups: Seq::empty(),
                effects: seq![Effect::Log(Diagnostic::TemplateKeyNotFound { key: selected })],
            },
            Some(file) => match template_path {
                None => ReactionView {
                    close: false,
                    follow_ups: Seq::empty(),
                    effects: seq![Effect::Log(Diagnostic::TemplateFolderUnavailable)],
                },
                Some(path) => ReactionView {
                    close: true,
                    follow_ups: Seq::empty(),
                    effects: seq![
                        Effect::AddTemplate { level_file: file, template_path: path },
                        Effect::SetUnsavedChanges(true),
                        Effect::RequestGraphicsUpdate,
                    ],
                },
            },
        },
    }
}

/// One frame of the list of maps. `picked` is the place in the course of the
/// map that was picked.
pub fn show_change_map(data: &mut ChangeMapData, picked: Option<u32>) -> (reaction: Reaction)
    ensures
        *final(data) == *old(data),
        reaction@ == change_map_reaction(picked),
{
    match picked {
        None => Reaction::stay(),
        Some(map_index) => {
            let mut effects: Vec<Effect> = Vec::new();
            effects.push(Effect::PersistCourse);
            effects.push(Effect::ChangeMap { map_index });
            assert(effects@ =~= change_map_reaction(picked).effects);
            Reaction { close: true, follow_ups: Vec::new(), effects }
        },
    }
}

/// One frame of the course selection.
pub fn show_change_course(data: &mut ChangeCourseData, choice: Option<ChangeCourseChoice>) -> (reaction:
    Reaction)
    ensures
        *final(data) == change_course_after(*old(data), choice),
        reaction@ == change_course_reaction(*old(data), choice),
        old(data).is_valid() ==> final(data).is_valid(),
{
    match choice {
        None => Reaction::stay(),
        Some(ChangeCourseChoice::SelectWorld(world)) => {
            if world < WORLD_COUNT {
                data.change_level_world_index = world;
            }
            Reaction::stay()
        },
        Some(ChangeCourseChoice::SelectLevel(level)) => {
            if level < LEVEL_COUNT {
                data.change_level_level_index = level;
            }
            Reaction::stay()
        },
        Some(ChangeCourseChoice::Cancel) => Reaction::dismiss(),
        Some(ChangeCourseChoice::Okay) => {
            let mut effects: Vec<Effect> = Vec::new();
            effects.push(
                Effect::ChangeLevel {
                    world_index: data.change_level_world_index,
                    level_index: data.change_level_level_index,
                },
            );
            assert(effects@ =~= change_course_reaction(*old(data), choice).effects);
            Reaction { close: true, follow_ups: Vec::new(), effects }
        },
    }
}

/// One frame of the dialog that offers the map templates.
pub fn show_add_map(data: &mut AddMapData, choice: &Option<AddMapChoice>) -> (reaction: Reaction)
    ensures
        *final(data) == *old(data),
        reaction@ == add_map_reaction(*choice),
{
    match choice {
        None => Reaction::stay(),
        Some(AddMapChoice::Cancel) => Reaction::dismiss(),
        Some(AddMapChoice::Add { selected, level_file, template_path }) => {
            let mut effects: Vec<Effect> = Vec::new();
            let added: bool = match level_file {
                None => {
                    effects.push(
                        Effect::Log(Diagnostic::TemplateKeyNotFound { key: selected.clone() }),
                    );
                    false
                },
                Some(file) => match template_path {
                    None => {
                        effects.push(Effect::Log(Diagnostic::TemplateFolderUnavailable));
                        false
                    },
                    Some(path) => {
                        effects.push(
                            Effect::AddTemplate {
                                level_file: file.clone(),
                                template_path: path.clone(),
                            },
                        );
                        effects.push(Effect::SetUnsavedChanges(true));
                        effects.push(Effect::RequestGraphicsUpdate);
                        true
                    },
                },
            };
            assert(effects@ =~= add_map_reaction(*choice).effects);
            Reaction { close: added, follow_ups: Vec::new(), effects }
        },
    }
}

} // verus!
