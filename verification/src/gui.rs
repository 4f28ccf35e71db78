//! The driver: one frame of every open dialog, in the order of the kinds.

use vstd::prelude::*;
use crate::confirm::{
    clear_reaction, close_changes_reaction, course_changes_reaction, export_change_reaction,
    map_changes_reaction, show_clear, show_close_changes, show_course_changes,
    show_export_change, show_map_changes,
};
use crate::effect::Effect;
use crate::input::FrameInput;
use crate::kind::{ModalKind, MODAL_KIND_COUNT};
use crate::notice::{
    notice_reaction, resize_after, resize_reaction, show_about, show_alert, show_bug_report,
    show_help, show_resize,
};
use crate::payload::Payload;
use crate::progress::{
    exporting_after, exporting_reaction, saving_after, saving_reaction, show_exporting,
    show_saving,
};
use crate::reaction::ReactionView;
use crate::laws::{frame_keeps_slots_sound, turn_keeps_slots_sound};
use crate::registry::{slots_after_reaction, slots_valid, ModalRegistry, Slots};
use crate::select::{
    add_map_reaction, change_course_after, change_course_reaction, change_map_reaction,
    show_add_map, show_change_course, show_change_map,
};

verus! {

/// What the dialog that holds `payload` holds after its turn in a frame
/// with `input`.
pub open spec fn payload_after(payload: Payload, input: FrameInput) -> Payload {
    match payload {
        Payload::Resize(data) => Payload::Resize(resize_after(data, input.resize)),
        Payload::Exporting(data) => Payload::Exporting(exporting_after(data)),
        Payload::Saving(data) => Payload::Saving(saving_after(data)),
        Payload::ChangeCourse(data) => Payload::ChangeCourse(
            change_course_after(data, input.change_course),
        ),
        _ => payload,
    }
}

/// What the dialog that holds `payload` decides in a frame with `input`.
/// Each dialog looks at its own part of the input only.
pub open spec fn reaction_to(payload: Payload, input: FrameInput) -> ReactionView {
    match payload {
        Payload::Resize(_) => resize_reaction(input.resize),
        Payload::Alert(_) => notice_reaction(input.alert_okay),
        Payload::CloseChanges(_) => close_changes_reaction(input.close_changes),
        Payload::ExportChange(_) => export_change_reaction(input.export_change),
        Payload::Exporting(data) => exporting_reaction(data),
        Payload::Saving(data) => saving_reaction(data),
        Payload::CourseChanges(_) => course_changes_reaction(input.course_changes),
        Payload::MapChanges(_) => map_changes_reaction(input.map_changes),
        Payload::ChangeMap(_) => change_map_reaction(input.change_map),
        Payload::ChangeCourse(data) => change_course_reaction(data, input.change_course),
        Payload::About(_) => notice_reaction(input.about_close),
        Payload::BugReport(_) => notice_reaction(input.bug_report_close),
        Payload::Clear(_) => clear_reaction(input.clear),
        Payload::Help(_) => notice_reaction(input.help_close),
        Payload::AddMap(_) => add_map_reaction(input.add_map),
    }
}

/// The registry after the turn of `kind` in a frame with `input`. A closed
/// dialog is passed over. An open one has its payload brought up to date,
/// and then its reaction settled.
pub open spec fn slots_after_modal(slots: Slots, kind: ModalKind, input: FrameInput) -> Slots {
    if slots.dom().contains(kind) {
        slots_after_reaction(
            slots.insert(kind, payload_after(slots[kind], input)),
            kind,
            reaction_to(slots[kind], input),
        )
    } else {
        slots
    }
}

/// What the host is to do after the turn of `kind` in a frame with `input`:
/// nothing for a closed dialog.
pub open spec fn effects_of_modal(slots: Slots, kind: ModalKind, input: FrameInput) -> Seq<Effect> {
    if slots.dom().contains(kind) {
        reaction_to(slots[kind], input).effects
    } else {
        Seq::empty()
    }
}

/// The registry after the first `turns` kinds had their turn in a frame with
/// `input`.
pub open spec fn slots_after_turns(slots: Slots, input: FrameInput, turns: nat) -> Slots
    decreases turns,
{
    if turns == 0 {
        slots
    } else {
        let before = slots_after_turns(slots, input, (turns - 1) as nat);
        match ModalKind::at(turns - 1) {
            Some(kind) => slots_after_modal(before, kind, input),
            None => before,
        }
    }
}

/// What the host is to do after the first `turns` kinds had their turn in a
/// frame with `input`: the effects of each turn, in the order of the turns.
pub open spec fn effects_of_turns(slots: Slots, input: FrameInput, turns: nat) -> Seq<Effect>
    decreases turns,
{
    if turns == 0 {
        Seq::empty()
    } else {
        let before = slots_after_turns(slots, input, (turns - 1) as nat);
        let earlier = effects_of_turns(slots, input, (turns - 1) as nat);
        match ModalKind::at(turns - 1) {
            Some(kind) => earlier + effects_of_modal(before, kind, input),
            None => earlier,
        }
    }
}

/// The registry after a whole frame with `input`.
pub open spec fn slots_after_frame(slots: Slots, input: FrameInput) -> Slots {
    slots_after_turns(slots, input, MODAL_KIND_COUNT as nat)
}

/// What the host is to do after a whole frame with `input`.
pub open spec fn effects_of_frame(slots: Slots, input: FrameInput) -> Seq<Effect> {
    effects_of_turns(slots, input, MODAL_KIND_COUNT as nat)
}

fn turn_of_resize(modals: &mut ModalRegistry, input: &FrameInput) -> (effects: Vec<Effect>)
    ensures
        final(modals)@ == slots_after_modal(old(modals)@, ModalKind::Resize, *input),
        effects@ == effects_of_modal(old(modals)@, ModalKind::Resize, *input),
{
    let ghost before = modals@;
    match modals.resize.take() {
        Some(mut data) => {
            let reaction = show_resize(&mut data, input.resize);
            modals.resize = Some(data);
            assert(modals@ =~= before.insert(
                ModalKind::Resize,
                payload_after(before[ModalKind::Resize], *input),
            ));
            modals.settle(ModalKind::Resize, reaction)
        },
        None => {
            assert(modals@ =~= before);
            Vec::new()
        },
    }
}

fn turn_of_alert(modals: &mut ModalRegistry, input: &FrameInput) -> (effects: Vec<Effect>)
    ensures
        final(modals)@ == slots_after_modal(old(modals)@, ModalKind::Alert, *input),
        effects@ == effects_of_modal(old(modals)@, ModalKind::Alert, *input),
{
    let ghost before = modals@;
    match modals.alert.take() {
        Some(mut data) => {
            let reaction = show_alert(&mut data, input.alert_okay);
            modals.alert = Some(data);
            assert(modals@ =~= before.insert(
                ModalKind::Alert,
                payload_after(before[ModalKind::Alert], *input),
            ));
            modals.settle(ModalKind::Alert, reaction)
        },
        None => {
            assert(modals@ =~= before);
            Vec::new()
        },
    }
}

fn turn_of_close_changes(modals: &mut ModalRegistry, input: &FrameInput) -> (effects: Vec<Effect>)
    ensures
        final(modals)@ == slots_after_modal(old(modals)@, ModalKind::CloseChanges, *input),
        effects@ == effects_of_modal(old(modals)@, ModalKind::CloseChanges, *input),
{
    let ghost before = modals@;
    match modals.close_changes.take() {
        Some(mut data) => {
            let reaction = show_close_changes(&mut data, input.close_changes);
            modals.close_changes = Some(data);
            assert(modals@ =~= before.insert(
                ModalKind::CloseChanges,
                payload_after(before[ModalKind::CloseChanges], *input),
            ));
            modals.settle(ModalKind::CloseChanges, reaction)
        },
        None => {
            assert(modals@ =~= before);
            Vec::new()
        },
    }
}

fn turn_of_export_change(modals: &mut ModalRegistry, input: &FrameInput) -> (effects: Vec<Effect>)
    ensures
        final(modals)@ == slots_after_modal(old(modals)@, ModalKind::ExportChange, *input),
        effects@ == effects_of_modal(old(modals)@, ModalKind::ExportChange, *input),
{
    let ghost before = modals@;
    match modals.export_change.take() {
        Some(mut data) => {
            let reaction = show_export_change(&mut data, input.export_change);
            modals.export_change = Some(data);
            assert(modals@ =~= before.insert(
                ModalKind::ExportChange,
                payload_after(before[ModalKind::ExportChange], *input),
            ));
            modals.settle(ModalKind::ExportChange, reaction)
        },
        None => {
            assert(modals@ =~= before);
            Vec::new()
        },
    }
}

fn turn_of_exporting(modals: &mut ModalRegistry, input: &FrameInput) -> (effects: Vec<Effect>)
    ensures
        final(modals)@ == slots_after_modal(old(modals)@, ModalKind::Exporting, *input),
        effects@ == effects_of_modal(old(modals)@, ModalKind::Exporting, *input),
{
    let ghost before = modals@;
    match modals.exporting.take() {
        Some(mut data) => {
            let reaction = show_exporting(&mut data);
            modals.exporting = Some(data);
            assert(modals@ =~= before.insert(
                ModalKind::Exporting,
                payload_after(before[ModalKind::Exporting], *input),
            ));
            modals.settle(ModalKind::Exporting, reaction)
        },
        None => {
            assert(modals@ =~= before);
            Vec::new()
        },
    }
}

fn turn_of_saving(modals: &mut ModalRegistry, input: &FrameInput) -> (effects: Vec<Effect>)
    ensures
        final(modals)@ == slots_after_modal(old(modals)@, ModalKind::Saving, *input),
        effects@ == effects_of_modal(old(modals)@, ModalKind::Saving, *input),
{
    let ghost before = modals@;
    match modals.saving.take() {
        Some(mut data) => {
            let reaction = show_saving(&mut data);
            modals.saving = Some(data);
            assert(modals@ =~= before.insert(
                ModalKind::Saving,
                payload_after(before[ModalKind::Saving], *input),
            ));
            modals.settle(ModalKind::Saving, reaction)
        },
        None => {
            assert(modals@ =~= before);
            Vec::new()
        },
    }
}

fn turn_of_course_changes(modals: &mut ModalRegistry, input: &FrameInput) -> (effects: Vec<Effect>)
    ensures
        final(modals)@ == slots_after_modal(old(modals)@, ModalKind::CourseChanges, *input),
        effects@ == effects_of_modal(old(modals)@, ModalKind::CourseChanges, *input),
{
    let ghost before = modals@;
    match modals.course_changes.take() {
        Some(mut data) => {
            let reaction = show_course_changes(&mut data, input.course_changes);
            modals.course_changes = Some(data);
            assert(modals@ =~= before.insert(
                ModalKind::CourseChanges,
                payload_after(before[ModalKind::CourseChanges], *input),
            ));
            modals.settle(ModalKind::CourseChanges, reaction)
        },
        None => {
            assert(modals@ =~= before);
            Vec::new()
        },
    }
}

fn turn_of_map_changes(modals: &mut ModalRegistry, input: &FrameInput) -> (effects: Vec<Effect>)
    ensures
        final(modals)@ == slots_after_modal(old(modals)@, ModalKind::MapChanges, *input),
        effects@ == effects_of_modal(old(modals)@, ModalKind::MapChanges, *input),
{
    let ghost before = modals@;
    match modals.map_changes.take() {
        Some(mut data) => {
            let reaction = show_map_changes(&mut data, input.map_changes);
            modals.map_changes = Some(data);
            assert(modals@ =~= before.insert(
                ModalKind::MapChanges,
                payload_after(before[ModalKind::MapChanges], *input),
            ));
            modals.settle(ModalKind::MapChanges, reaction)
        },
        None => {
            assert(modals@ =~= before);
            Vec::new()
        },
    }
}

fn turn_of_change_map(modals: &mut ModalRegistry, input: &FrameInput) -> (effects: Vec<Effect>)
    ensures
        final(modals)@ == slots_after_modal(old(modals)@, ModalKind::ChangeMap, *input),
        effects@ == effects_of_modal(old(modals)@, ModalKind::ChangeMap, *input),
{
    let ghost before = modals@;
    match modals.change_map.take() {
        Some(mut data) => {
            let reaction = show_change_map(&mut data, input.change_map);
            modals.change_map = Some(data);
            assert(modals@ =~= before.insert(
                ModalKind::ChangeMap,
                payload_after(before[ModalKind::ChangeMap], *input),
            ));
            modals.settle(ModalKind::ChangeMap, reaction)
        },
        None => {
            assert(modals@ =~= before);
            Vec::new()
        },
    }
}

fn turn_of_change_course(modals: &mut ModalRegistry, input: &FrameInput) -> (effects: Vec<Effect>)
    ensures
        final(modals)@ == slots_after_modal(old(modals)@, ModalKind::ChangeCourse, *input),
        effects@ == effects_of_modal(old(modals)@, ModalKind::ChangeCourse, *input),
{
    let ghost before = modals@;
    match modals.change_course.take() {
        Some(mut data) => {
            let reaction = show_change_course(&mut data, input.change_course);
            modals.change_course = Some(data);
            assert(modals@ =~= before.insert(
                ModalKind::ChangeCourse,
                payload_after(before[ModalKind::ChangeCourse], *input),
            ));
            modals.settle(ModalKind::ChangeCourse, reaction)
        },
        None => {
            assert(modals@ =~= before);
            Vec::new()
        },
    }
}

fn turn_of_about(modals: &mut ModalRegistry, input: &FrameInput) -> (effects: Vec<Effect>)
    ensures
        final(modals)@ == slots_after_modal(old(modals)@, ModalKind::About, *input),
        effects@ == effects_of_modal(old(modals)@, ModalKind::About, *input),
{
    let ghost before = modals@;
    match modals.about.take() {
        Some(mut data) => {
            let reaction = show_about(&mut data, input.about_close);
            modals.about = Some(data);
            assert(modals@ =~= before.insert(
                ModalKind::About,
                payload_after(before[ModalKind::About], *input),
            ));
            modals.settle(ModalKind::About, reaction)
        },
        None => {
            assert(modals@ =~= before);
            Vec::new()
        },
    }
}

fn turn_of_bug_report(modals: &mut ModalRegistry, input: &FrameInput) -> (effects: Vec<Effect>)
    ensures
        final(modals)@ == slots_after_modal(old(modals)@, ModalKind::BugReport, *input),
        effects@ == effects_of_modal(old(modals)@, ModalKind::BugReport, *input),
{
    let ghost before = modals@;
    match modals.bug_report.take() {
        Some(mut data) => {
            let reaction = show_bug_report(&mut data, input.bug_report_close);
            modals.bug_report = Some(data);
            assert(modals@ =~= before.insert(
                ModalKind::BugReport,
                payload_after(before[ModalKind::BugReport], *input),
            ));
            modals.settle(ModalKind::BugReport, reaction)
        },
        None => {
            assert(modals@ =~= before);
            Vec::new()
        },
    }
}

fn turn_of_clear(modals: &mut ModalRegistry, input: &FrameInput) -> (effects: Vec<Effect>)
    ensures
        final(modals)@ == slots_after_modal(old(modals)@, ModalKind::Clear, *input),
        effects@ == effects_of_modal(old(modals)@, ModalKind::Clear, *input),
{
    let ghost before = modals@;
    match modals.clear.take() {
        Some(mut data) => {
            let reaction = show_clear(&mut data, input.clear);
            modals.clear = Some(data);
            assert(modals@ =~= before.insert(
                ModalKind::Clear,
                payload_after(before[ModalKind::Clear], *input),
            ));
            modals.settle(ModalKind::Clear, reaction)
        },
        None => {
            assert(modals@ =~= before);
            Vec::new()
        },
    }
}

fn turn_of_help(modals: &mut ModalRegistry, input: &FrameInput) -> (effects: Vec<Effect>)
    ensures
        final(modals)@ == slots_after_modal(old(modals)@, ModalKind::Help, *input),
        effects@ == effects_of_modal(old(modals)@, ModalKind::Help, *input),
{
    let ghost before = modals@;
    match modals.help.take() {
        Some(mut data) => {
            let reaction = show_help(&mut data, input.help_close);
            modals.help = Some(data);
            assert(modals@ =~= before.insert(
                ModalKind::Help,
                payload_after(before[ModalKind::Help], *input),
            ));
            modals.settle(ModalKind::Help, reaction)
        },
        None => {
            assert(modals@ =~= before);
            Vec::new()
        },
    }
}

fn turn_of_add_map(modals: &mut ModalRegistry, input: &FrameInput) -> (effects: Vec<Effect>)
    ensures
        final(modals)@ == slots_after_modal(old(modals)@, ModalKind::AddMap, *input),
        effects@ == effects_of_modal(old(modals)@, ModalKind::AddMap, *input),
{
    let ghost before = modals@;
    match modals.add_map.take() {
        Some(mut data) => {
            let reaction = show_add_map(&mut data, &input.add_map);
            modals.add_map = Some(data);
            assert(modals@ =~= before.insert(
                ModalKind::AddMap,
                payload_after(before[ModalKind::AddMap], *input),
            ));
            modals.settle(ModalKind::AddMap, reaction)
        },
        None => {
            assert(modals@ =~= before);
            Vec::new()
        },
    }
}

/// The dialogs of the editor.
#[derive(Debug, PartialEq, Eq)]
pub struct Gui {
    pub modals: ModalRegistry,
}

impl Gui {
    /// An editor with every dialog closed.
    pub fn new() -> (gui: Gui)
        ensures
            gui.modals@ == Slots::empty(),
            slots_valid(gui.modals@),
    {
        Gui { modals: ModalRegistry::new() }
    }

    /// The turn of one kind of dialog in a frame with `input`.
    ///
    /// A closed dialog is passed over. An open one reacts to its part of the
    /// input; the dialogs in its wake open, and it closes if its body asked
    /// for that. The result is what the host is to do, in order.
    pub fn show_modal(&mut self, kind: ModalKind, input: &FrameInput) -> (effects: Vec<Effect>)
        ensures
            final(self).modals@ == slots_after_modal(old(self).modals@, kind, *input),
            effects@ == effects_of_modal(old(self).modals@, kind, *input),
            slots_valid(old(self).modals@) ==> slots_valid(final(self).modals@),
    {
        proof {
            self.modals.slots_are_typed();
            if slots_valid(self.modals@) {
                turn_keeps_slots_sound(self.modals@, kind, *input);
            }
        }
        match kind {
            ModalKind::Resize => turn_of_resize(&mut self.modals, input),
            ModalKind::Alert => turn_of_alert(&mut self.modals, input),
            ModalKind::CloseChanges => turn_of_close_changes(&mut self.modals, input),
            ModalKind::ExportChange => turn_of_export_change(&mut self.modals, input),
            ModalKind::Exporting => turn_of_exporting(&mut self.modals, input),
            ModalKind::Saving => turn_of_saving(&mut self.modals, input),
            ModalKind::CourseChanges => turn_of_course_changes(&mut self.modals, input),
            ModalKind::MapChanges => turn_of_map_changes(&mut self.modals, input),
            ModalKind::ChangeMap => turn_of_change_map(&mut self.modals, input),
            ModalKind::ChangeCourse => turn_of_change_course(&mut self.modals, input),
            ModalKind::About => turn_of_about(&mut self.modals, input),
            ModalKind::BugReport => turn_of_bug_report(&mut self.modals, input),
            ModalKind::Clear => turn_of_clear(&mut self.modals, input),
            ModalKind::Help => turn_of_help(&mut self.modals, input),
            ModalKind::AddMap => turn_of_add_map(&mut self.modals, input),
        }
    }

    /// One frame of the dialogs.
    ///
    /// Every kind has its turn, in the order of the kinds, with its part of
    /// `input`. A dialog that an earlier turn of the same frame opened has
    /// its turn too. The result is what the host is to do after the frame:
    /// the effects of each turn, in the order of the turns.
    pub fn show_modals(&mut self, input: &FrameInput) -> (effects: Vec<Effect>)
        ensures
            final(self).modals@ == slots_after_frame(old(self).modals@, *input),
            effects@ == effects_of_frame(old(self).modals@, *input),
            slots_valid(old(self).modals@) ==> slots_valid(final(self).modals@),
    {
        proof {
            self.modals.slots_are_typed();
            if slots_valid(self.modals@) {
                frame_keeps_slots_sound(self.modals@, *input);
            }
        }
        let mut effects: Vec<Effect> = Vec::new();
        let mut turn: usize = 0;
        while turn < MODAL_KIND_COUNT
            invariant
                turn <= MODAL_KIND_COUNT,
                self.modals@ == slots_after_turns(old(self).modals@, *input, turn as nat),
                effects@ == effects_of_turns(old(self).modals@, *input, turn as nat),
            decreases MODAL_KIND_COUNT - turn,
        {
            match ModalKind::from_index(turn) {
                Some(kind) => {
                    let mut more = self.show_modal(kind, input);
                    effects.append(&mut more);
                },
                None => {},
            }
            turn += 1;
        }
        effects
    }
}

impl Default for Gui {
    /// An editor with every dialog closed.
    fn default() -> (gui: Self)
        ensures
            gui.modals@ == Slots::empty(),
            slots_valid(gui.modals@),
    {
        Gui::new()
    }
}

} // verus!
