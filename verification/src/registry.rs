//! The registry of dialogs: one slot for each kind.
//!
//! A slot that holds a payload means that the dialog is open; an empty slot
//! means that it is closed. Contracts see the registry as a map from the
//! kinds that are open to their payloads.

use vstd::prelude::*;
use crate::effect::Effect;
use crate::kind::ModalKind;
use crate::reaction::{Reaction, ReactionView};
use crate::payload::{
    AboutData, AddMapData, AlertData, BugReportData, ChangeCourseData, ChangeMapData, ClearData,
    CloseChangesData, CourseChangesData, ExportChangeData, ExportingData, HelpData,
    MapChangesData, Payload, ResizeData, SavingData,
};

verus! {

/// The open dialogs with their payloads, as contracts see a registry.
pub type Slots = Map<ModalKind, Payload>;

/// Every payload in `slots` stands under its own kind.
pub open spec fn slots_typed(slots: Slots) -> bool {
    forall|kind: ModalKind| #[trigger] slots.dom().contains(kind) ==> slots[kind].kind() == kind
}

/// Every payload in `slots` is valid.
pub open spec fn slots_valid(slots: Slots) -> bool {
    forall|kind: ModalKind| #[trigger] slots.dom().contains(kind) ==> slots[kind].is_valid()
}

/// `slots` after the dialogs of `payloads` were opened one after the other:
/// where two of them are of one kind, the later one stays.
pub open spec fn slots_after_opening(slots: Slots, payloads: Seq<Payload>) -> Slots
    decreases payloads.len(),
{
    if payloads.len() == 0 {
        slots
    } else {
        slots_after_opening(slots, payloads.drop_last()).insert(
            payloads.last().kind(),
            payloads.last(),
        )
    }
}

/// `slots` after the dialog of `kind` had its turn and decided `reaction`:
/// first the dialogs in its wake open, then it closes if it asked to.
pub open spec fn slots_after_reaction(slots: Slots, kind: ModalKind, reaction: ReactionView) -> Slots {
    let opened = slots_after_opening(slots, reaction.follow_ups);
    if reaction.close {
        opened.remove(kind)
    } else {
        opened
    }
}

/// One slot for each kind of dialog.
#[derive(Debug, PartialEq, Eq)]
pub struct ModalRegistry {
    pub resize: Option<ResizeData>,
    pub alert: Option<AlertData>,
    pub close_changes: Option<CloseChangesData>,
    pub export_change: Option<ExportChangeData>,
    pub exporting: Option<ExportingData>,
    pub saving: Option<SavingData>,
    pub course_changes: Option<CourseChangesData>,
    pub map_changes: Option<MapChangesData>,
    pub change_map: Option<ChangeMapData>,
    pub change_course: Option<ChangeCourseData>,
    pub about: Option<AboutData>,
    pub bug_report: Option<BugReportData>,
    pub clear: Option<ClearData>,
    pub help: Option<HelpData>,
    pub add_map: Option<AddMapData>,
}

impl ModalRegistry {
    /// What the slot of `kind` holds, tagged with its kind.
    pub open spec fn slot(&self, kind: ModalKind) -> Option<Payload> {
        match kind {
            ModalKind::Resize => match self.resize {
                Some(data) => Some(Payload::Resize(data)),
                None => None,
            },
            ModalKind::Alert => match self.alert {
                Some(data) => Some(Payload::Alert(data)),
                None => None,
            },
            ModalKind::CloseChanges => match self.close_changes {
                Some(data) => Some(Payload::CloseChanges(data)),
                None => None,
            },
            ModalKind::ExportChange => match self.export_change {
                Some(data) => Some(Payload::ExportChange(data)),
                None => None,
            },
            ModalKind::Exporting => match self.exporting {
                Some(data) => Some(Payload::Exporting(data)),
                None => None,
            },
            ModalKind::Saving => match self.saving {
                Some(data) => Some(Payload::Saving(data)),
                None => None,
            },
            ModalKind::CourseChanges => match self.course_changes {
                Some(data) => Some(Payload::CourseChanges(data)),
                None => None,
            },
            ModalKind::MapChanges => match self.map_changes {
                Some(data) => Some(Payload::MapChanges(data)),
                None => None,
            },
            ModalKind::ChangeMap => match self.change_map {
                Some(data) => Some(Payload::ChangeMap(data)),
                None => None,
            },
            ModalKind::ChangeCourse => match self.change_course {
                Some(data) => Some(Payload::ChangeCourse(data)),
                None => None,
            },
            ModalKind::About => match self.about {
                Some(data) => Some(Payload::About(data)),
                None => None,
            },
            ModalKind::BugReport => match self.bug_report {
                Some(data) => Some(Payload::BugReport(data)),
                None => None,
            },
            ModalKind::Clear => match self.clear {
                Some(data) => Some(Payload::Clear(data)),
                None => None,
            },
            ModalKind::Help => match self.help {
                Some(data) => Some(Payload::Help(data)),
                None => None,
            },
            ModalKind::AddMap => match self.add_map {
                Some(data) => Some(Payload::AddMap(data)),
                None => None,
            },
        }
    }
}

impl View for ModalRegistry {
    type V = Slots;

    open spec fn view(&self) -> Slots {
        Map::new(|kind: ModalKind| self.slot(kind) is Some, |kind: ModalKind| self.slot(kind)->0)
    }
}

impl ModalRegistry {
    /// A registry in which every dialog is closed.
    pub fn new() -> (registry: ModalRegistry)
        ensures
            registry@ == Slots::empty(),
            slots_valid(registry@),
    {
        let registry = ModalRegistry {
            resize: None,
            alert: None,
            close_changes: None,
            export_change: None,
            exporting: None,
            saving: None,
            course_changes: None,
            map_changes: None,
            change_map: None,
            change_course: None,
            about: None,
            bug_report: None,
            clear: None,
            help: None,
            add_map: None,
        };
        assert(registry@ =~= Slots::empty());
        registry
    }

    /// Opens the dialog that `payload` belongs to. If it was open already,
    /// its old payload is dropped for the new one.
    pub fn open(&mut self, payload: Payload)
        ensures
            final(self)@ == old(self)@.insert(payload.kind(), payload),
            final(self)@.dom().contains(payload.kind()),
            final(self)@[payload.kind()] == payload,
            slots_valid(old(self)@) && payload.is_valid() ==> slots_valid(final(self)@),
    {
        match payload {
            Payload::Resize(data) => {
                self.resize = Some(data);
            },
            Payload::Alert(data) => {
                self.alert = Some(data);
            },
            Payload::CloseChanges(data) => {
                self.close_changes = Some(data);
            },
            Payload::ExportChange(data) => {
                self.export_change = Some(data);
            },
            Payload::Exporting(data) => {
                self.exporting = Some(data);
            },
            Payload::Saving(data) => {
                self.saving = Some(data);
            },
            Payload::CourseChanges(data) => {
                self.course_changes = Some(data);
            },
            Payload::MapChanges(data) => {
                self.map_changes = Some(data);
            },
            Payload::ChangeMap(data) => {
                self.change_map = Some(data);
            },
            Payload::ChangeCourse(data) => {
                self.change_course = Some(data);
            },
            Payload::About(data) => {
                self.about = Some(data);
            },
            Payload::BugReport(data) => {
                self.bug_report = Some(data);
            },
            Payload::Clear(data) => {
                self.clear = Some(data);
            },
            Payload::Help(data) => {
                self.help = Some(data);
            },
            Payload::AddMap(data) => {
                self.add_map = Some(data);
            },
        }
        assert(self@ =~= old(self)@.insert(payload.kind(), payload));
    }

    /// Closes the dialog of `kind` and drops its payload. Closing a dialog
    /// that is closed changes nothing.
    pub fn close(&mut self, kind: ModalKind)
        ensures
            final(self)@ == old(self)@.remove(kind),
            !final(self)@.dom().contains(kind),
            slots_valid(old(self)@) ==> slots_valid(final(self)@),
    {
        match kind {
            ModalKind::Resize => {
                self.resize = None;
            },
            ModalKind::Alert => {
                self.alert = None;
            },
            ModalKind::CloseChanges => {
                self.close_changes = None;
            },
            ModalKind::ExportChange => {
                self.export_change = None;
            },
            ModalKind::Exporting => {
                self.exporting = None;
            },
            ModalKind::Saving => {
                self.saving = None;
            },
            ModalKind::CourseChanges => {
                self.course_changes = None;
            },
            ModalKind::MapChanges => {
                self.map_changes = None;
            },
            ModalKind::ChangeMap => {
                self.change_map = None;
            },
            ModalKind::ChangeCourse => {
                self.change_course = None;
            },
            ModalKind::About => {
                self.about = None;
            },
            ModalKind::BugReport => {
                self.bug_report = None;
            },
            ModalKind::Clear => {
                self.clear = None;
            },
            ModalKind::Help => {
                self.help = None;
            },
            ModalKind::AddMap => {
                self.add_map = None;
            },
        }
        assert(self@ =~= old(self)@.remove(kind));
    }

    /// Whether the dialog of `kind` is open.
    pub fn is_open(&self, kind: ModalKind) -> (open: bool)
        ensures
            open == self@.dom().contains(kind),
    {
        match kind {
            ModalKind::Resize => self.resize.is_some(),
            ModalKind::Alert => self.alert.is_some(),
            ModalKind::CloseChanges => self.close_changes.is_some(),
            ModalKind::ExportChange => self.export_change.is_some(),
            ModalKind::Exporting => self.exporting.is_some(),
            ModalKind::Saving => self.saving.is_some(),
            ModalKind::CourseChanges => self.course_changes.is_some(),
            ModalKind::MapChanges => self.map_changes.is_some(),
            ModalKind::ChangeMap => self.change_map.is_some(),
            ModalKind::ChangeCourse => self.change_course.is_some(),
            ModalKind::About => self.about.is_some(),
            ModalKind::BugReport => self.bug_report.is_some(),
            ModalKind::Clear => self.clear.is_some(),
            ModalKind::Help => self.help.is_some(),
            ModalKind::AddMap => self.add_map.is_some(),
        }
    }

    /// A copy of what the dialog of `kind` holds, or `None` if it is closed.
    pub fn payload(&self, kind: ModalKind) -> (payload: Option<Payload>)
        ensures
            payload == self.slot(kind),
            payload is Some <==> self@.dom().contains(kind),
            payload matches Some(held) ==> held == self@[kind],
    {
        match kind {
            ModalKind::Resize => match &self.resize {
                Some(data) => Some(Payload::Resize(*data)),
                None => None,
            },
            ModalKind::Alert => match &self.alert {
                Some(data) => Some(Payload::Alert(data.clone())),
                None => None,
            },
            ModalKind::CloseChanges => match &self.close_changes {
                Some(data) => Some(Payload::CloseChanges(*data)),
                None => None,
            },
            ModalKind::ExportChange => match &self.export_change {
                Some(data) => Some(Payload::ExportChange(*data)),
                None => None,
            },
            ModalKind::Exporting => match &self.exporting {
                Some(data) => Some(Payload::Exporting(data.clone())),
                None => None,
            },
            ModalKind::Saving => match &self.saving {
                Some(data) => Some(Payload::Saving(*data)),
                None => None,
            },
            ModalKind::CourseChanges => match &self.course_changes {
                Some(data) => Some(Payload::CourseChanges(*data)),
                None => None,
            },
            ModalKind::MapChanges => match &self.map_changes {
                Some(data) => Some(Payload::MapChanges(*data)),
                None => None,
            },
            ModalKind::ChangeMap => match &self.change_map {
                Some(data) => Some(Payload::ChangeMap(*data)),
                None => None,
            },
            ModalKind::ChangeCourse => match &self.change_course {
                Some(data) => Some(Payload::ChangeCourse(*data)),
                None => None,
            },
            ModalKind::About => match &self.about {
                Some(data) => Some(Payload::About(*data)),
                None => None,
            },
            ModalKind::BugReport => match &self.bug_report {
                Some(data) => Some(Payload::BugReport(*data)),
                None => None,
            },
            ModalKind::Clear => match &self.clear {
                Some(data) => Some(Payload::Clear(*data)),
                None => None,
            },
            ModalKind::Help => match &self.help {
                Some(data) => Some(Payload::Help(*data)),
                None => None,
            },
            ModalKind::AddMap => match &self.add_map {
                Some(data) => Some(Payload::AddMap(*data)),
                None => None,
            },
        }
    }

    /// Settles the turn of the dialog of `kind`, whose body decided
    /// `reaction`: opens the dialogs in its wake, closes the dialog if its
    /// body asked for that, and hands back what the host is to do.
    ///
    /// A dialog whose body asked to close is closed afterwards, whatever else
    /// the body decided.
    pub fn settle(&mut self, kind: ModalKind, reaction: Reaction) -> (effects: Vec<Effect>)
        ensures
            final(self)@ == slots_after_reaction(old(self)@, kind, reaction@),
            effects@ == reaction@.effects,
            reaction.close ==> !final(self)@.dom().contains(kind),
    {
        let Reaction { close, follow_ups, effects } = reaction;
        let mut next: usize = 0;
        while next < follow_ups.len()
            invariant
                next <= follow_ups.len(),
                self@ == slots_after_opening(old(self)@, follow_ups@.take(next as int)),
            decreases follow_ups.len() - next,
        {
            let payload = follow_ups[next].clone();
            self.open(payload);
            proof {
                let opened = follow_ups@.take(next + 1);
                assert(opened.drop_last() =~= follow_ups@.take(next as int));
                assert(opened.last() == follow_ups@[next as int]);
            }
            next += 1;
        }
        assert(follow_ups@.take(next as int) =~= follow_ups@);
        if close {
            self.close(kind);
        }
        effects
    }

    /// Every slot holds a payload of its own kind, whatever was opened and
    /// closed before.
    pub proof fn slots_are_typed(&self)
        ensures
            slots_typed(self@),
    {
    }
}

impl Default for ModalRegistry {
    /// A registry in which every dialog is closed.
    fn default() -> (registry: Self)
        ensures
            registry@ == Slots::empty(),
            slots_valid(registry@),
    {
        ModalRegistry::new()
    }
}

} // verus!
