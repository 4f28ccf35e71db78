//! The two dialogs that advance by themselves: Saving and Exporting.
//!
//! Each frame moves the dialog one step on. At `WORK_TRIGGER` the frame asks
//! the host for the work itself; a frame that finds the dialog complete
//! closes it.

use vstd::prelude::*;
use crate::effect::{
    lemma_occurrences_and_contains, lemma_occurrences_of_concat, occurrences, unsaved_after,
    Effect,
};
use crate::payload::{
    ExportingData, SavingData, EXPORTING_STEP, PROGRESS_COMPLETE, SAVING_STEP, WORK_TRIGGER,
};
use crate::reaction::{Reaction, ReactionView};

verus! {

/// `progress` moved on by `step`, and no further than complete.
pub open spec fn advanced(progress: u8, step: u8) -> u8 {
    if progress + step >= PROGRESS_COMPLETE {
        PROGRESS_COMPLETE
    } else {
        (progress + step) as u8
    }
}

/// The Saving dialog after one frame. A complete save lets go of its order
/// to export; any other moves on by `SAVING_STEP`.
pub open spec fn saving_after(data: SavingData) -> SavingData {
    if data.progress >= PROGRESS_COMPLETE {
        SavingData { export_after_done: false, ..data }
    } else {
        SavingData { progress: advanced(data.progress, SAVING_STEP), ..data }
    }
}

/// What the host is to do when a save is complete: mark the document as
/// saved, then quit and start the export as the save was told to.
pub open spec fn completion_effects(data: SavingData) -> Seq<Effect> {
    seq![Effect::SetUnsavedChanges(false)] + (if data.quit_when_done {
        seq![Effect::RequestApplicationClose]
    } else {
        Seq::empty()
    }) + (if data.export_after_done {
        seq![Effect::BeginExport { unsaved_confirmed: false }]
    } else {
        Seq::empty()
    })
}

/// What the host is to do for one frame of the Saving dialog.
///
/// A save that has not begun asks for another frame. At `WORK_TRIGGER` the
/// map and the course are written. A complete save has its completion
/// effects.
pub open spec fn saving_effects(data: SavingData) -> Seq<Effect> {
    if data.progress >= PROGRESS_COMPLETE {
        completion_effects(data)
    } else if data.progress == 0 {
        seq![Effect::RequestRepaint]
    } else if data.progress == WORK_TRIGGER {
        seq![Effect::PersistMap, Effect::PersistCourse]
    } else {
        Seq::empty()
    }
}

/// What the Saving dialog decides in one frame: it closes once it is
/// complete, and opens nothing.
pub open spec fn saving_reaction(data: SavingData) -> ReactionView {
    ReactionView {
        close: data.progress >= PROGRESS_COMPLETE,
        follow_ups: Seq::empty(),
        effects: saving_effects(data),
    }
}

/// The Exporting dialog after one frame: one step on, until it is complete.
pub open spec fn exporting_after(data: ExportingData) -> ExportingData {
    if data.progress >= PROGRESS_COMPLETE {
        data
    } else {
        ExportingData { progress: advanced(data.progress, EXPORTING_STEP), ..data }
    }
}

/// What the host is to do for one frame of the Exporting dialog: draw
/// another frame, and at `WORK_TRIGGER` write the export.
pub open spec fn exporting_effects(data: ExportingData) -> Seq<Effect> {
    if data.progress == WORK_TRIGGER {
        seq![Effect::RequestRepaint, Effect::ExportRom { destination: data.exporting_to }]
    } else {
        seq![Effect::RequestRepaint]
    }
}

/// What the Exporting dialog decides in one frame: it closes once it is
/// complete, and opens nothing.
pub open spec fn exporting_reaction(data: ExportingData) -> ReactionView {
    ReactionView {
        close: data.progress >= PROGRESS_COMPLETE,
        follow_ups: Seq::empty(),
        effects: exporting_effects(data),
    }
}

/// The Saving dialog after `ticks` frames in which it stayed open.
pub open spec fn saving_after_ticks(start: SavingData, ticks: nat) -> SavingData
    decreases ticks,
{
    if ticks == 0 {
        start
    } else {
        saving_after(saving_after_ticks(start, (ticks - 1) as nat))
    }
}

/// What the host is to do over the first `ticks` frames of a Saving dialog.
pub open spec fn saving_effects_of_ticks(start: SavingData, ticks: nat) -> Seq<Effect>
    decreases ticks,
{
    if ticks == 0 {
        Seq::empty()
    } else {
        saving_effects_of_ticks(start, (ticks - 1) as nat) + saving_effects(
            saving_after_ticks(start, (ticks - 1) as nat),
        )
    }
}

/// The Exporting dialog after `ticks` frames in which it stayed open.
pub open spec fn exporting_after_ticks(start: ExportingData, ticks: nat) -> ExportingData
    decreases ticks,
{
    if ticks == 0 {
        start
    } else {
        exporting_after(exporting_after_ticks(start, (ticks - 1) as nat))
    }
}

/// What the host is to do over the first `ticks` frames of an Exporting
/// dialog.
pub open spec fn exporting_effects_of_ticks(start: ExportingData, ticks: nat) -> Seq<Effect>
    decreases ticks,
{
    if ticks == 0 {
        Seq::empty()
    } else {
        exporting_effects_of_ticks(start, (ticks - 1) as nat) + exporting_effects(
            exporting_after_ticks(start, (ticks - 1) as nat),
        )
    }
}

/// One frame of the Saving dialog.
pub fn show_saving(data: &mut SavingData) -> (reaction: Reaction)
    ensures
        *final(data) == saving_after(*old(data)),
        reaction@ == saving_reaction(*old(data)),
        old(data).is_valid() ==> final(data).is_valid(),
{
    let progress: u8 = data.progress;
    let mut effects: Vec<Effect> = Vec::new();
    if progress == 0 {
        effects.push(Effect::RequestRepaint);
    }
    if progress == WORK_TRIGGER {
        effects.push(Effect::PersistMap);
        effects.push(Effect::PersistCourse);
    }
    let complete: bool = progress >= PROGRESS_COMPLETE;
    if complete {
        effects.push(Effect::SetUnsavedChanges(false));
        if data.quit_when_done {
            effects.push(Effect::RequestApplicationClose);
        }
        if data.export_after_done {
            data.export_after_done = false;
            effects.push(Effect::BeginExport { unsaved_confirmed: false });
        }
    } else if progress >= PROGRESS_COMPLETE - SAVING_STEP {
        data.progress = PROGRESS_COMPLETE;
    } else {
        data.progress = progress + SAVING_STEP;
    }
    assert(effects@ =~= saving_effects(*old(data)));
    Reaction { close: complete, follow_ups: Vec::new(), effects }
}

/// One frame of the Exporting dialog.
pub fn show_exporting(data: &mut ExportingData) -> (reaction: Reaction)
    ensures
        *final(data) == exporting_after(*old(data)),
        reaction@ == exporting_reaction(*old(data)),
        old(data).is_valid() ==> final(data).is_valid(),
{
    let progress: u8 = data.progress;
    let mut effects: Vec<Effect> = Vec::new();
    effects.push(Effect::RequestRepaint);
    if progress == WORK_TRIGGER {
        effects.push(Effect::ExportRom { destination: data.exporting_to.clone() });
    }
    let complete: bool = progress >= PROGRESS_COMPLETE;
    if !complete {
        data.progress = progress + EXPORTING_STEP;
    }
    assert(effects@ =~= exporting_effects(*old(data)));
    Reaction { close: complete, follow_ups: Vec::new(), effects }
}

proof fn lemma_occurrences_in_saving_frame(data: SavingData, wanted: Effect)
    requires
        wanted == Effect::PersistMap || wanted == Effect::PersistCourse,
    ensures
        occurrences(saving_effects(data), wanted) == (if data.progress == WORK_TRIGGER {
            1nat
        } else {
            0nat
        }),
{
    let effects = saving_effects(data);
    if data.progress == WORK_TRIGGER {
        let both = seq![Effect::PersistMap, Effect::PersistCourse];
        assert(both.drop_last() =~= seq![Effect::PersistMap]);
        assert(seq![Effect::PersistMap].drop_last() =~= Seq::<Effect>::empty());
        reveal_with_fuel(occurrences, 3);
    } else {
        assert forall|i: int| 0 <= i < effects.len() implies effects[i] != wanted by {}
        lemma_occurrences_and_contains(effects, wanted);
    }
}

proof fn lemma_saving_run(start: SavingData, ticks: nat, wanted: Effect)
    requires
        start.progress == 0,
        ticks <= 6,
        wanted == Effect::PersistMap || wanted == Effect::PersistCourse,
    ensures
        ticks <= 5 ==> saving_after_ticks(start, ticks) == (SavingData {
            progress: (2 * ticks) as u8,
            ..start
        }),
        occurrences(saving_effects_of_ticks(start, ticks), wanted) == (if ticks > 2 {
            1nat
        } else {
            0nat
        }),
    decreases ticks,
{
    if ticks > 0 {
        let earlier = (ticks - 1) as nat;
        lemma_saving_run(start, earlier, wanted);
        let state = saving_after_ticks(start, earlier);
        lemma_occurrences_in_saving_frame(state, wanted);
        lemma_occurrences_of_concat(
            saving_effects_of_ticks(start, earlier),
            saving_effects(state),
            wanted,
        );
    }
}

/// A save that has not begun shows 0, 2, 4, 6, 8 and 10 tenths to six frames
/// in a row. Five frames advance it; the sixth finds it complete and closes
/// it. The third frame, which finds it at `WORK_TRIGGER`, is the only one
/// that writes the map and the course, so that over the six frames each is
/// written once. The orders for what follows the save stay as they were
/// until it is complete.
pub proof fn saving_runs_its_course(start: SavingData)
    requires
        start.progress == 0,
    ensures
        forall|ticks: nat|
            ticks <= 5 ==> #[trigger] saving_after_ticks(start, ticks) == (SavingData {
                progress: (2 * ticks) as u8,
                ..start
            }),
        forall|ticks: nat|
            ticks <= 5 ==> (saving_reaction(#[trigger] saving_after_ticks(start, ticks)).close
                <==> ticks == 5),
        forall|ticks: nat|
            ticks <= 5 ==> (saving_effects(#[trigger] saving_after_ticks(start, ticks))
                == seq![Effect::PersistMap, Effect::PersistCourse] <==> ticks == 2),
        saving_effects_of_ticks(start, 6) == seq![
            Effect::RequestRepaint,
            Effect::PersistMap,
            Effect::PersistCourse,
        ] + completion_effects(start),
        occurrences(saving_effects_of_ticks(start, 6), Effect::PersistMap) == 1,
        occurrences(saving_effects_of_ticks(start, 6), Effect::PersistCourse) == 1,
{
    assert forall|ticks: nat| ticks <= 5 implies #[trigger] saving_after_ticks(start, ticks) == (
    SavingData { progress: (2 * ticks) as u8, ..start }) by {
        lemma_saving_run(start, ticks, Effect::PersistMap);
    }
    assert forall|ticks: nat| ticks <= 5 implies (saving_effects(
        #[trigger] saving_after_ticks(start, ticks),
    ) == seq![Effect::PersistMap, Effect::PersistCourse] <==> ticks == 2) by {
        let effects = saving_effects(saving_after_ticks(start, ticks));
        if ticks == 2 {
            assert(effects =~= seq![Effect::PersistMap, Effect::PersistCourse]);
        } else if ticks == 5 {
            assert(effects[0] == Effect::SetUnsavedChanges(false));
        } else if ticks == 0 {
            assert(effects[0] == Effect::RequestRepaint);
        } else {
            assert(effects.len() == 0);
        }
    }
    lemma_saving_run(start, 6, Effect::PersistMap);
    lemma_saving_run(start, 6, Effect::PersistCourse);
    reveal_with_fuel(saving_effects_of_ticks, 7);
    assert(saving_effects_of_ticks(start, 6) =~= seq![
        Effect::RequestRepaint,
        Effect::PersistMap,
        Effect::PersistCourse,
    ] + completion_effects(start));
}

proof fn lemma_quits_in_saving_frame(data: SavingData)
    ensures
        occurrences(saving_effects(data), Effect::RequestApplicationClose) == (if data.progress
            >= PROGRESS_COMPLETE && data.quit_when_done {
            1nat
        } else {
            0nat
        }),
{
    let effects = saving_effects(data);
    let wanted = Effect::RequestApplicationClose;
    if data.progress >= PROGRESS_COMPLETE && data.quit_when_done {
        let saved = seq![Effect::SetUnsavedChanges(false)];
        let quit = seq![Effect::RequestApplicationClose];
        let export = if data.export_after_done {
            seq![Effect::BeginExport { unsaved_confirmed: false }]
        } else {
            Seq::<Effect>::empty()
        };
        assert(effects == saved + quit + export);
        lemma_occurrences_of_concat(saved + quit, export, wanted);
        lemma_occurrences_of_concat(saved, quit, wanted);
        assert forall|i: int| 0 <= i < export.len() implies export[i] != wanted by {}
        lemma_occurrences_and_contains(export, wanted);
        assert(saved.drop_last() =~= Seq::<Effect>::empty());
        assert(quit.drop_last() =~= Seq::<Effect>::empty());
        reveal_with_fuel(occurrences, 2);
    } else {
        assert forall|i: int| 0 <= i < effects.len() implies effects[i] != wanted by {}
        lemma_occurrences_and_contains(effects, wanted);
    }
}

proof fn lemma_saving_run_quits(start: SavingData, ticks: nat)
    requires
        start.progress == 0,
        ticks <= 6,
    ensures
        occurrences(saving_effects_of_ticks(start, ticks), Effect::RequestApplicationClose) == (
        if ticks == 6 && start.quit_when_done {
            1nat
        } else {
            0nat
        }),
    decreases ticks,
{
    if ticks > 0 {
        let earlier = (ticks - 1) as nat;
        lemma_saving_run_quits(start, earlier);
        lemma_saving_run(start, earlier, Effect::PersistMap);
        let state = saving_after_ticks(start, earlier);
        lemma_quits_in_saving_frame(state);
        lemma_occurrences_of_concat(
            saving_effects_of_ticks(start, earlier),
            saving_effects(state),
            Effect::RequestApplicationClose,
        );
    }
}

/// Once a save that was not begun has run its six frames, the document
/// counts as saved, whatever it counted as before, and the application was
/// asked to close once if the save was to quit when done, and not at all
/// if it was not.
pub proof fn completed_save_marks_saved(start: SavingData, unsaved_before: bool)
    requires
        start.progress == 0,
    ensures
        !unsaved_after(saving_effects_of_ticks(start, 6), unsaved_before),
        occurrences(saving_effects_of_ticks(start, 6), Effect::RequestApplicationClose) == (
        if start.quit_when_done {
            1nat
        } else {
            0nat
        }),
{
    saving_runs_its_course(start);
    lemma_saving_run_quits(start, 6);
    let head = seq![Effect::RequestRepaint, Effect::PersistMap, Effect::PersistCourse];
    let saved = seq![Effect::SetUnsavedChanges(false)];
    let quit = seq![Effect::RequestApplicationClose];
    let export = seq![Effect::BeginExport { unsaved_confirmed: false }];
    let run = saving_effects_of_ticks(start, 6);
    let r4 = head + saved;
    let r5 = head + saved + quit;
    assert(r5.drop_last() =~= r4);
    assert((r4 + export).drop_last() =~= r4);
    assert((r5 + export).drop_last() =~= r5);
    reveal_with_fuel(unsaved_after, 3);
    if start.quit_when_done {
        if start.export_after_done {
            assert(run =~= r5 + export);
        } else {
            assert(run =~= r5);
        }
    } else {
        if start.export_after_done {
            assert(run =~= r4 + export);
        } else {
            assert(run =~= r4);
        }
    }
}

proof fn lemma_occurrences_in_exporting_frame(data: ExportingData, wanted: Effect)
    requires
        wanted == (Effect::ExportRom { destination: data.exporting_to }),
    ensures
        occurrences(exporting_effects(data), wanted) == (if data.progress == WORK_TRIGGER {
            1nat
        } else {
            0nat
        }),
{
    let effects = exporting_effects(data);
    let repaint = seq![Effect::RequestRepaint];
    assert(repaint.drop_last() =~= Seq::<Effect>::empty());
    if data.progress == WORK_TRIGGER {
        assert(effects.drop_last() =~= repaint);
    }
    reveal_with_fuel(occurrences, 3);
}

proof fn lemma_exporting_run(start: ExportingData, ticks: nat)
    requires
        start.progress == 0,
        ticks <= 11,
    ensures
        ticks <= 10 ==> exporting_after_ticks(start, ticks) == (ExportingData {
            progress: ticks as u8,
            ..start
        }),
        occurrences(
            exporting_effects_of_ticks(start, ticks),
            Effect::ExportRom { destination: start.exporting_to },
        ) == (if ticks > 4 {
            1nat
        } else {
            0nat
        }),
    decreases ticks,
{
    if ticks > 0 {
        let earlier = (ticks - 1) as nat;
        let wanted = Effect::ExportRom { destination: start.exporting_to };
        lemma_exporting_run(start, earlier);
        let state = exporting_after_ticks(start, earlier);
        lemma_occurrences_in_exporting_frame(state, wanted);
        lemma_occurrences_of_concat(
            exporting_effects_of_ticks(start, earlier),
            exporting_effects(state),
            wanted,
        );
    }
}

/// An export that has not begun shows 0, 1, 2 and so on up to 10 tenths to
/// eleven frames in a row. Ten frames advance it; the eleventh finds it
/// complete and closes it. The fifth frame, which finds it at
/// `WORK_TRIGGER`, is the only one that writes the export, so that over the
/// eleven frames it is written once, to the destination that the dialog
/// was opened with.
pub proof fn exporting_runs_its_course(start: ExportingData)
    requires
        start.progress == 0,
    ensures
        forall|ticks: nat|
            ticks <= 10 ==> #[trigger] exporting_after_ticks(start, ticks) == (ExportingData {
                progress: ticks as u8,
                ..start
            }),
        forall|ticks: nat|
            ticks <= 10 ==> (exporting_reaction(
                #[trigger] exporting_after_ticks(start, ticks),
            ).close <==> ticks == 10),
        forall|ticks: nat|
            ticks <= 10 ==> exporting_effects(#[trigger] exporting_after_ticks(start, ticks)) == (
            if ticks == 4 {
                seq![
                    Effect::RequestRepaint,
                    Effect::ExportRom { destination: start.exporting_to },
                ]
            } else {
                seq![Effect::RequestRepaint]
            }),
        occurrences(
            exporting_effects_of_ticks(start, 11),
            Effect::ExportRom { destination: start.exporting_to },
        ) == 1,
{
    assert forall|ticks: nat| ticks <= 10 implies #[trigger] exporting_after_ticks(start, ticks)
        == (ExportingData { progress: ticks as u8, ..start }) by {
        lemma_exporting_run(start, ticks);
    }
    lemma_exporting_run(start, 11);
}

} // verus!
