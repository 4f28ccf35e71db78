//! What holds of the dialogs over more than one call.

use vstd::prelude::*;
use crate::confirm::fresh_save;
use crate::effect::{occurrences, unsaved_after, Diagnostic, Effect, LogLevel};
use crate::gui::{
    effects_of_frame, effects_of_modal, effects_of_turns, payload_after, reaction_to,
    slots_after_frame, slots_after_modal, slots_after_turns,
};
use crate::input::{AddMapChoice, ChangeCourseChoice, CloseChangesChoice, FrameInput};
use crate::kind::{ModalKind, MODAL_KIND_COUNT};
use crate::payload::{ChangeCourseData, Payload, SavingData, LEVEL_COUNT, WORLD_COUNT};
use crate::progress::{
    completed_save_marks_saved, saving_effects_of_ticks, saving_runs_its_course,
};
use crate::reaction::ReactionView;
use crate::registry::{slots_after_opening, slots_after_reaction, slots_typed, slots_valid, Slots};
use crate::select::{change_course_after, change_course_reaction};

verus! {

// ---------------------------------------------------------------------------
// Opening and closing

/// Right after a dialog was opened it is open, and holds the payload that it
/// was opened with.
pub proof fn opened_dialog_is_open(slots: Slots, payload: Payload)
    ensures
        slots.insert(payload.kind(), payload).dom().contains(payload.kind()),
        slots.insert(payload.kind(), payload)[payload.kind()] == payload,
{
}

/// Opening a dialog that is open drops its old payload for the new one, as
/// if the old one had never been there, and the dialog stays open.
pub proof fn reopening_overwrites(slots: Slots, first: Payload, second: Payload)
    requires
        first.kind() == second.kind(),
    ensures
        slots.insert(first.kind(), first).insert(second.kind(), second) == slots.insert(
            second.kind(),
            second,
        ),
        slots.insert(first.kind(), first).insert(second.kind(), second).dom().contains(
            first.kind(),
        ),
{
    assert(slots.insert(first.kind(), first).insert(second.kind(), second) =~= slots.insert(
        second.kind(),
        second,
    ));
}

/// Opening and closing touch the slot of one kind only.
pub proof fn other_slots_are_untouched(slots: Slots, payload: Payload, other: ModalKind)
    requires
        other != payload.kind(),
    ensures
        slots.insert(payload.kind(), payload).dom().contains(other) == slots.dom().contains(
            other,
        ),
        slots.insert(payload.kind(), payload)[other] == slots[other],
        slots.remove(payload.kind()).dom().contains(other) == slots.dom().contains(other),
        slots.remove(payload.kind())[other] == slots[other],
{
}

// ---------------------------------------------------------------------------
// One turn

/// Whether `reaction` opens a dialog of `kind` in its wake.
pub open spec fn opens(reaction: ReactionView, kind: ModalKind) -> bool {
    exists|i: int|
        0 <= i < reaction.follow_ups.len() && (#[trigger] reaction.follow_ups[i]).kind() == kind
}

/// Opening dialogs leaves alone every slot whose kind is not among them.
pub proof fn lemma_opening_touches_its_kinds(slots: Slots, payloads: Seq<Payload>, kind: ModalKind)
    requires
        forall|i: int| 0 <= i < payloads.len() ==> (#[trigger] payloads[i]).kind() != kind,
    ensures
        slots_after_opening(slots, payloads).dom().contains(kind) == slots.dom().contains(kind),
        slots_after_opening(slots, payloads)[kind] == slots[kind],
    decreases payloads.len(),
{
    if payloads.len() > 0 {
        assert(payloads[payloads.len() - 1].kind() != kind);
        assert forall|i: int| 0 <= i < payloads.drop_last().len() implies (
        #[trigger] payloads.drop_last()[i]).kind() != kind by {
            assert(payloads.drop_last()[i] == payloads[i]);
        }
        lemma_opening_touches_its_kinds(slots, payloads.drop_last(), kind);
    }
}

/// Only the dialogs that ask before something is lost open a dialog in
/// their wake, and what they open is a save, the course selection or the
/// list of maps.
pub proof fn wakes_open_three_kinds(payload: Payload, input: FrameInput, kind: ModalKind)
    requires
        opens(reaction_to(payload, input), kind),
    ensures
        kind == ModalKind::Saving || kind == ModalKind::ChangeCourse || kind
            == ModalKind::ChangeMap,
        payload.kind() == ModalKind::CloseChanges || payload.kind() == ModalKind::ExportChange
            || payload.kind() == ModalKind::CourseChanges || payload.kind()
            == ModalKind::MapChanges,
{
}

/// A dialog whose body asks to close is closed after its turn, whatever
/// else its body decided, and the next turn passes it over.
pub proof fn closing_turn_closes(slots: Slots, kind: ModalKind, input: FrameInput, next: FrameInput)
    requires
        slots.dom().contains(kind),
        reaction_to(slots[kind], input).close,
    ensures
        !slots_after_modal(slots, kind, input).dom().contains(kind),
        slots_after_modal(slots_after_modal(slots, kind, input), kind, next) == slots_after_modal(
            slots,
            kind,
            input,
        ),
        effects_of_modal(slots_after_modal(slots, kind, input), kind, next) == Seq::<
            Effect,
        >::empty(),
{
}

/// A reaction that closes the dialog leaves it closed, whatever payload the
/// body left behind and whatever else the reaction holds.
pub proof fn closing_reaction_closes(slots: Slots, kind: ModalKind, reaction: ReactionView)
    requires
        reaction.close,
    ensures
        !slots_after_reaction(slots, kind, reaction).dom().contains(kind),
{
}

/// The turn of a closed dialog changes nothing and asks nothing.
pub proof fn closed_dialog_is_passed_over(slots: Slots, kind: ModalKind, input: FrameInput)
    requires
        !slots.dom().contains(kind),
    ensures
        slots_after_modal(slots, kind, input) == slots,
        effects_of_modal(slots, kind, input) == Seq::<Effect>::empty(),
{
}

/// The turn of a dialog leaves alone the slot of every other kind that its
/// reaction does not open.
pub proof fn turn_touches_its_own_slot(
    slots: Slots,
    kind: ModalKind,
    input: FrameInput,
    other: ModalKind,
)
    requires
        other != kind,
        slots.dom().contains(kind) ==> !opens(reaction_to(slots[kind], input), other),
    ensures
        slots_after_modal(slots, kind, input).dom().contains(other) == slots.dom().contains(
            other,
        ),
        slots_after_modal(slots, kind, input)[other] == slots[other],
{
    if slots.dom().contains(kind) {
        let reaction = reaction_to(slots[kind], input);
        let updated = slots.insert(kind, payload_after(slots[kind], input));
        lemma_opening_touches_its_kinds(updated, reaction.follow_ups, other);
    }
}

// ---------------------------------------------------------------------------
// One frame

/// Whether the dialog of `kind` is open when its turn in the frame comes,
/// and its body then asks to close.
pub open spec fn closes_in_frame(slots: Slots, input: FrameInput, kind: ModalKind) -> bool {
    let before = slots_after_turns(slots, input, kind.position());
    before.dom().contains(kind) && reaction_to(before[kind], input).close
}

/// Whether the dialog of `opener` is open when its turn in the frame comes,
/// and then opens a dialog of `kind` in its wake.
pub open spec fn opened_in_turn_of(
    slots: Slots,
    input: FrameInput,
    opener: ModalKind,
    kind: ModalKind,
) -> bool {
    let before = slots_after_turns(slots, input, opener.position());
    before.dom().contains(opener) && opens(reaction_to(before[opener], input), kind)
}

/// Whether a turn that comes after the turn of `kind` in the frame opens a
/// dialog of `kind`.
pub open spec fn reopened_later(slots: Slots, input: FrameInput, kind: ModalKind) -> bool {
    exists|opener: ModalKind|
        opener.position() > kind.position() && #[trigger] opened_in_turn_of(
            slots,
            input,
            opener,
            kind,
        )
}

proof fn lemma_stays_closed(slots: Slots, input: FrameInput, kind: ModalKind, turns: nat)
    requires
        closes_in_frame(slots, input, kind),
        !reopened_later(slots, input, kind),
        kind.position() < turns <= MODAL_KIND_COUNT,
    ensures
        !slots_after_turns(slots, input, turns).dom().contains(kind),
    decreases turns,
{
    let before = slots_after_turns(slots, input, (turns - 1) as nat);
    if turns == kind.position() + 1 {
        assert(ModalKind::at(turns - 1) == Some(kind));
    } else {
        lemma_stays_closed(slots, input, kind, (turns - 1) as nat);
        let opener = ModalKind::at(turns - 1)->0;
        assert(opener.position() == turns - 1);
        assert(!opened_in_turn_of(slots, input, opener, kind));
        turn_touches_its_own_slot(before, opener, input, kind);
    }
}

/// A dialog whose body asks to close during a frame is closed when the
/// frame is over, so that the next frame finds it closed: unless a dialog
/// whose turn came later in the same frame opened it again.
pub proof fn closed_in_frame_stays_closed(slots: Slots, input: FrameInput, kind: ModalKind)
    requires
        closes_in_frame(slots, input, kind),
        !reopened_later(slots, input, kind),
    ensures
        !slots_after_frame(slots, input).dom().contains(kind),
{
    lemma_stays_closed(slots, input, kind, MODAL_KIND_COUNT as nat);
}

/// Whether any turn of the frame opens a dialog of `kind` in its wake.
pub open spec fn opened_in_frame(slots: Slots, input: FrameInput, kind: ModalKind) -> bool {
    exists|opener: ModalKind| #[trigger] opened_in_turn_of(slots, input, opener, kind)
}

proof fn lemma_one_turn(slots: Slots, input: FrameInput, kind: ModalKind, turns: nat)
    requires
        slots.dom().contains(kind),
        !opened_in_frame(slots, input, kind),
        turns <= MODAL_KIND_COUNT,
    ensures
        ({
            let now = slots_after_turns(slots, input, turns);
            if turns <= kind.position() {
                now.dom().contains(kind) && now[kind] == slots[kind]
            } else if reaction_to(slots[kind], input).close {
                !now.dom().contains(kind)
            } else {
                now.dom().contains(kind) && now[kind] == payload_after(slots[kind], input)
            }
        }),
    decreases turns,
{
    if turns > 0 {
        lemma_one_turn(slots, input, kind, (turns - 1) as nat);
        let before = slots_after_turns(slots, input, (turns - 1) as nat);
        let mover = ModalKind::at(turns - 1)->0;
        assert(mover.position() == turns - 1);
        assert(!opened_in_turn_of(slots, input, mover, kind));
        if mover == kind {
            let reaction = reaction_to(before[kind], input);
            let updated = before.insert(kind, payload_after(before[kind], input));
            lemma_opening_touches_its_kinds(updated, reaction.follow_ups, kind);
        } else {
            turn_touches_its_own_slot(before, mover, input, kind);
        }
    }
}

/// A frame gives an open dialog one turn. Where no turn of the frame opens
/// a dialog of its kind, the dialog is closed after the frame if its body
/// asked to close, and else holds what its body left it with.
pub proof fn frame_gives_one_turn(slots: Slots, input: FrameInput, kind: ModalKind)
    requires
        slots.dom().contains(kind),
        !opened_in_frame(slots, input, kind),
    ensures
        slots_after_frame(slots, input).dom().contains(kind) == !reaction_to(
            slots[kind],
            input,
        ).close,
        !reaction_to(slots[kind], input).close ==> slots_after_frame(slots, input)[kind]
            == payload_after(slots[kind], input),
{
    lemma_one_turn(slots, input, kind, MODAL_KIND_COUNT as nat);
}

/// A frame leaves a closed dialog closed, where no turn of the frame opens
/// a dialog of its kind.
pub proof fn frame_opens_nothing_unasked(slots: Slots, input: FrameInput, kind: ModalKind)
    requires
        !slots.dom().contains(kind),
        !opened_in_frame(slots, input, kind),
    ensures
        !slots_after_frame(slots, input).dom().contains(kind),
{
    lemma_stays_unopened(slots, input, kind, MODAL_KIND_COUNT as nat);
}

proof fn lemma_stays_unopened(slots: Slots, input: FrameInput, kind: ModalKind, turns: nat)
    requires
        !slots.dom().contains(kind),
        !opened_in_frame(slots, input, kind),
        turns <= MODAL_KIND_COUNT,
    ensures
        !slots_after_turns(slots, input, turns).dom().contains(kind),
    decreases turns,
{
    if turns > 0 {
        lemma_stays_unopened(slots, input, kind, (turns - 1) as nat);
        let before = slots_after_turns(slots, input, (turns - 1) as nat);
        let mover = ModalKind::at(turns - 1)->0;
        assert(mover.position() == turns - 1);
        assert(!opened_in_turn_of(slots, input, mover, kind));
        if mover != kind {
            turn_touches_its_own_slot(before, mover, input, kind);
        }
    }
}

/// A dialog that the user did not touch stays as it is, opens nothing and
/// asks nothing, unless it is one of the two that advance by themselves.
pub proof fn untouched_dialog_waits(payload: Payload)
    requires
        !payload.kind().is_progress(),
    ensures
        payload_after(payload, FrameInput::idle()) == payload,
        reaction_to(payload, FrameInput::idle()) == ReactionView::stay(),
{
}

proof fn lemma_idle_turns(slots: Slots, turns: nat)
    requires
        slots_typed(slots),
        !slots.dom().contains(ModalKind::Exporting),
        !slots.dom().contains(ModalKind::Saving),
        turns <= MODAL_KIND_COUNT,
    ensures
        slots_after_turns(slots, FrameInput::idle(), turns) == slots,
        effects_of_turns(slots, FrameInput::idle(), turns) == Seq::<Effect>::empty(),
    decreases turns,
{
    if turns > 0 {
        lemma_idle_turns(slots, (turns - 1) as nat);
        let mover = ModalKind::at(turns - 1)->0;
        if slots.dom().contains(mover) {
            untouched_dialog_waits(slots[mover]);
            assert(slots.insert(mover, slots[mover]) =~= slots);
        }
        assert(effects_of_turns(slots, FrameInput::idle(), turns) =~= Seq::<Effect>::empty());
    }
}

/// A frame in which the user touched nothing changes nothing and asks
/// nothing, while neither a save nor an export is running.
pub proof fn idle_frame_changes_nothing(slots: Slots)
    requires
        slots_typed(slots),
        !slots.dom().contains(ModalKind::Exporting),
        !slots.dom().contains(ModalKind::Saving),
    ensures
        slots_after_frame(slots, FrameInput::idle()) == slots,
        effects_of_frame(slots, FrameInput::idle()) == Seq::<Effect>::empty(),
{
    lemma_idle_turns(slots, MODAL_KIND_COUNT as nat);
}

// ---------------------------------------------------------------------------
// Soundness of what the registry holds

/// Opening valid payloads keeps every payload under its own kind, and valid.
pub proof fn lemma_opening_keeps_sound(slots: Slots, payloads: Seq<Payload>)
    requires
        slots_typed(slots),
        slots_valid(slots),
        forall|i: int| 0 <= i < payloads.len() ==> (#[trigger] payloads[i]).is_valid(),
    ensures
        slots_typed(slots_after_opening(slots, payloads)),
        slots_valid(slots_after_opening(slots, payloads)),
    decreases payloads.len(),
{
    if payloads.len() > 0 {
        assert(payloads[payloads.len() - 1].is_valid());
        assert forall|i: int| 0 <= i < payloads.drop_last().len() implies (
        #[trigger] payloads.drop_last()[i]).is_valid() by {
            assert(payloads.drop_last()[i] == payloads[i]);
        }
        lemma_opening_keeps_sound(slots, payloads.drop_last());
    }
}

/// A dialog opens only valid payloads in its wake, and keeps its own
/// payload of its kind, and valid if it was.
pub proof fn lemma_reaction_is_sound(payload: Payload, input: FrameInput)
    ensures
        payload_after(payload, input).kind() == payload.kind(),
        payload.is_valid() ==> payload_after(payload, input).is_valid(),
        forall|i: int|
            0 <= i < reaction_to(payload, input).follow_ups.len() ==> (#[trigger] reaction_to(
                payload,
                input,
            ).follow_ups[i]).is_valid(),
{
}

/// The turn of a dialog keeps every payload under its own kind, progress
/// within the whole, and the course selection within the worlds and levels
/// that exist.
pub proof fn turn_keeps_slots_sound(slots: Slots, kind: ModalKind, input: FrameInput)
    requires
        slots_typed(slots),
        slots_valid(slots),
    ensures
        slots_typed(slots_after_modal(slots, kind, input)),
        slots_valid(slots_after_modal(slots, kind, input)),
{
    if slots.dom().contains(kind) {
        let payload = slots[kind];
        lemma_reaction_is_sound(payload, input);
        let updated = slots.insert(kind, payload_after(payload, input));
        assert(slots_typed(updated));
        assert(slots_valid(updated));
        lemma_opening_keeps_sound(updated, reaction_to(payload, input).follow_ups);
    }
}

proof fn lemma_turns_keep_slots_sound(slots: Slots, input: FrameInput, turns: nat)
    requires
        slots_typed(slots),
        slots_valid(slots),
    ensures
        slots_typed(slots_after_turns(slots, input, turns)),
        slots_valid(slots_after_turns(slots, input, turns)),
    decreases turns,
{
    if turns > 0 {
        lemma_turns_keep_slots_sound(slots, input, (turns - 1) as nat);
        let before = slots_after_turns(slots, input, (turns - 1) as nat);
        match ModalKind::at(turns - 1) {
            Some(kind) => {
                turn_keeps_slots_sound(before, kind, input);
            },
            None => {},
        }
    }
}

/// A frame keeps every payload under its own kind, progress within the
/// whole, and the course selection within the worlds and levels that exist.
pub proof fn frame_keeps_slots_sound(slots: Slots, input: FrameInput)
    requires
        slots_typed(slots),
        slots_valid(slots),
    ensures
        slots_typed(slots_after_frame(slots, input)),
        slots_valid(slots_after_frame(slots, input)),
{
    lemma_turns_keep_slots_sound(slots, input, MODAL_KIND_COUNT as nat);
}

// ---------------------------------------------------------------------------
// The dialogs one by one

/// Save, in the dialog before quitting, closes that dialog and opens a save
/// that quits when it is done, and asks nothing of the host yet. Over the
/// six frames of that save the map and the course are written, the
/// document is marked as saved, and the application is asked to close once.
pub proof fn save_before_quit_quits_once(slots: Slots, input: FrameInput, unsaved_before: bool)
    requires
        slots_typed(slots),
        slots.dom().contains(ModalKind::CloseChanges),
        input.close_changes == Some(CloseChangesChoice::Save),
    ensures
        ({
            let after = slots_after_modal(slots, ModalKind::CloseChanges, input);
            let save = SavingData { quit_when_done: true, export_after_done: false, progress: 0 };
            let run = saving_effects_of_ticks(save, 6);
            &&& !after.dom().contains(ModalKind::CloseChanges)
            &&& after.dom().contains(ModalKind::Saving)
            &&& after[ModalKind::Saving] == Payload::Saving(save)
            &&& effects_of_modal(slots, ModalKind::CloseChanges, input) == Seq::<Effect>::empty()
            &&& run == seq![
                Effect::RequestRepaint,
                Effect::PersistMap,
                Effect::PersistCourse,
                Effect::SetUnsavedChanges(false),
                Effect::RequestApplicationClose,
            ]
            &&& occurrences(run, Effect::RequestApplicationClose) == 1
            &&& !unsaved_after(run, unsaved_before)
        }),
{
    let save = SavingData { quit_when_done: true, export_after_done: false, progress: 0 };
    let opened = seq![fresh_save(true, false)];
    assert(opened.drop_last() =~= Seq::<Payload>::empty());
    reveal_with_fuel(slots_after_opening, 2);
    saving_runs_its_course(save);
    completed_save_marks_saved(save, unsaved_before);
    assert(saving_effects_of_ticks(save, 6) =~= seq![
        Effect::RequestRepaint,
        Effect::PersistMap,
        Effect::PersistCourse,
        Effect::SetUnsavedChanges(false),
        Effect::RequestApplicationClose,
    ]);
}

/// Okay, in the course selection, goes to the world and the level that were
/// picked last, and nowhere else; Cancel goes nowhere.
pub proof fn course_selection_goes_where_picked(data: ChangeCourseData, world: u32, level: u32)
    requires
        world < WORLD_COUNT,
        level < LEVEL_COUNT,
    ensures
        ({
            let picked = change_course_after(
                change_course_after(data, Some(ChangeCourseChoice::SelectWorld(world))),
                Some(ChangeCourseChoice::SelectLevel(level)),
            );
            &&& picked == (ChangeCourseData {
                change_level_world_index: world,
                change_level_level_index: level,
            })
            &&& change_course_reaction(picked, Some(ChangeCourseChoice::Okay)).close
            &&& change_course_reaction(picked, Some(ChangeCourseChoice::Okay)).effects == seq![
                Effect::ChangeLevel { world_index: world, level_index: level },
            ]
            &&& change_course_reaction(picked, Some(ChangeCourseChoice::Cancel))
                == ReactionView::dismiss()
        }),
{
}

/// Add, in the dialog of the map templates, with a name that the document
/// does not know: every dialog stays as it is, the log gets a warning that
/// names the selection, and nothing is asked that changes the document.
pub proof fn unknown_template_changes_nothing(
    slots: Slots,
    input: FrameInput,
    selected: String,
    template_path: Option<String>,
)
    requires
        slots_typed(slots),
        slots.dom().contains(ModalKind::AddMap),
        input.add_map == Some(AddMapChoice::Add { selected, level_file: None, template_path }),
    ensures
        slots_after_modal(slots, ModalKind::AddMap, input) == slots,
        effects_of_modal(slots, ModalKind::AddMap, input) == seq![
            Effect::Log(Diagnostic::TemplateKeyNotFound { key: selected }),
        ],
        (Diagnostic::TemplateKeyNotFound { key: selected }).level() == LogLevel::Warn,
        forall|i: int|
            0 <= i < effects_of_modal(slots, ModalKind::AddMap, input).len()
                ==> !(#[trigger] effects_of_modal(
                slots,
                ModalKind::AddMap,
                input,
            )[i]).mutates_document(),
{
    reveal_with_fuel(slots_after_opening, 1);
    assert(slots_after_modal(slots, ModalKind::AddMap, input) =~= slots);
}

} // verus!
