//! The kinds of dialog and the order in which a frame visits them.

use vstd::prelude::*;

verus! {

/// The identity of a dialog. The variants stand in the order in which a frame
/// visits them.
#[derive(Clone, Copy, Debug, PartialEq, Eq, Hash, Structural)]
pub enum ModalKind {
    Resize,
    Alert,
    CloseChanges,
    ExportChange,
    Exporting,
    Saving,
    CourseChanges,
    MapChanges,
    ChangeMap,
    ChangeCourse,
    About,
    BugReport,
    Clear,
    Help,
    AddMap,
}

/// How many kinds of dialog there are.
pub const MODAL_KIND_COUNT: usize = 15;

impl ModalKind {
    /// The place of this kind in the order of a frame, counted from zero.
    pub open spec fn position(self) -> nat {
        match self {
            ModalKind::Resize => 0,
            ModalKind::Alert => 1,
            ModalKind::CloseChanges => 2,
            ModalKind::ExportChange => 3,
            ModalKind::Exporting => 4,
            ModalKind::Saving => 5,
            ModalKind::CourseChanges => 6,
            ModalKind::MapChanges => 7,
            ModalKind::ChangeMap => 8,
            ModalKind::ChangeCourse => 9,
            ModalKind::About => 10,
            ModalKind::BugReport => 11,
            ModalKind::Clear => 12,
            ModalKind::Help => 13,
            ModalKind::AddMap => 14,
        }
    }

    /// The kind that stands at place `i`, if there is one.
    pub open spec fn at(i: int) -> Option<ModalKind> {
        if i == 0 {
            Some(ModalKind::Resize)
        } else if i == 1 {
            Some(ModalKind::Alert)
        } else if i == 2 {
            Some(ModalKind::CloseChanges)
        } else if i == 3 {
            Some(ModalKind::ExportChange)
        } else if i == 4 {
            Some(ModalKind::Exporting)
        } else if i == 5 {
            Some(ModalKind::Saving)
        } else if i == 6 {
            Some(ModalKind::CourseChanges)
        } else if i == 7 {
            Some(ModalKind::MapChanges)
        } else if i == 8 {
            Some(ModalKind::ChangeMap)
        } else if i == 9 {
            Some(ModalKind::ChangeCourse)
        } else if i == 10 {
            Some(ModalKind::About)
        } else if i == 11 {
            Some(ModalKind::BugReport)
        } else if i == 12 {
            Some(ModalKind::Clear)
        } else if i == 13 {
            Some(ModalKind::Help)
        } else if i == 14 {
            Some(ModalKind::AddMap)
        } else {
            None
        }
    }

    /// Whether the dialog of this kind advances by itself from frame to frame.
    pub open spec fn is_progress(self) -> bool {
        self == ModalKind::Exporting || self == ModalKind::Saving
    }

    /// The name by which the host tells the window of this kind of dialog
    /// from other windows: the name of the kind, and `_modal` behind it.
    pub open spec fn id_text(self) -> Seq<char> {
        match self {
            ModalKind::Resize => "Resize_modal"@,
            ModalKind::Alert => "Alert_modal"@,
            ModalKind::CloseChanges => "CloseChanges_modal"@,
            ModalKind::ExportChange => "ExportChange_modal"@,
            ModalKind::Exporting => "Exporting_modal"@,
            ModalKind::Saving => "Saving_modal"@,
            ModalKind::CourseChanges => "CourseChanges_modal"@,
            ModalKind::MapChanges => "MapChanges_modal"@,
            ModalKind::ChangeMap => "ChangeMap_modal"@,
            ModalKind::ChangeCourse => "ChangeCourse_modal"@,
            ModalKind::About => "About_modal"@,
            ModalKind::BugReport => "BugReport_modal"@,
            ModalKind::Clear => "Clear_modal"@,
            ModalKind::Help => "Help_modal"@,
            ModalKind::AddMap => "AddMap_modal"@,
        }
    }

    /// The place of this kind in the order of a frame.
    pub fn index(self) -> (i: usize)
        ensures
            i == self.position(),
            i < MODAL_KIND_COUNT,
    {
        match self {
            ModalKind::Resize => 0,
            ModalKind::Alert => 1,
            ModalKind::CloseChanges => 2,
            ModalKind::ExportChange => 3,
            ModalKind::Exporting => 4,
            ModalKind::Saving => 5,
            ModalKind::CourseChanges => 6,
            ModalKind::MapChanges => 7,
            ModalKind::ChangeMap => 8,
            ModalKind::ChangeCourse => 9,
            ModalKind::About => 10,
            ModalKind::BugReport => 11,
            ModalKind::Clear => 12,
            ModalKind::Help => 13,
            ModalKind::AddMap => 14,
        }
    }

    /// The kind at place `i`, or `None` from `MODAL_KIND_COUNT` on.
    pub fn from_index(i: usize) -> (kind: Option<ModalKind>)
        ensures
            kind == Self::at(i as int),
            kind is Some <==> i < MODAL_KIND_COUNT,
            kind matches Some(k) ==> k.position() == i,
    {
        match i {
            0 => Some(ModalKind::Resize),
            1 => Some(ModalKind::Alert),
            2 => Some(ModalKind::CloseChanges),
            3 => Some(ModalKind::ExportChange),
            4 => Some(ModalKind::Exporting),
            5 => Some(ModalKind::Saving),
            6 => Some(ModalKind::CourseChanges),
            7 => Some(ModalKind::MapChanges),
            8 => Some(ModalKind::ChangeMap),
            9 => Some(ModalKind::ChangeCourse),
            10 => Some(ModalKind::About),
            11 => Some(ModalKind::BugReport),
            12 => Some(ModalKind::Clear),
            13 => Some(ModalKind::Help),
            14 => Some(ModalKind::AddMap),
            _ => None,
        }
    }

    /// The kind that a frame visits after this one, or `None` after the last.
    pub fn next(self) -> (kind: Option<ModalKind>)
        ensures
            kind == Self::at((self.position() + 1) as int),
    {
        Self::from_index(self.index() + 1)
    }

    /// The name by which the host tells the window of this kind of dialog
    /// from other windows.
    pub fn id_source(self) -> (name: &'static str)
        ensures
            name@ == self.id_text(),
    {
        match self {
            ModalKind::Resize => "Resize_modal",
            ModalKind::Alert => "Alert_modal",
            ModalKind::CloseChanges => "CloseChanges_modal",
            ModalKind::ExportChange => "ExportChange_modal",
            ModalKind::Exporting => "Exporting_modal",
            ModalKind::Saving => "Saving_modal",
            ModalKind::CourseChanges => "CourseChanges_modal",
            ModalKind::MapChanges => "MapChanges_modal",
            ModalKind::ChangeMap => "ChangeMap_modal",
            ModalKind::ChangeCourse => "ChangeCourse_modal",
            ModalKind::About => "About_modal",
            ModalKind::BugReport => "BugReport_modal",
            ModalKind::Clear => "Clear_modal",
            ModalKind::Help => "Help_modal",
            ModalKind::AddMap => "AddMap_modal",
        }
    }

    /// Whether the dialog of this kind advances by itself from frame to frame.
    pub fn has_progress(self) -> (b: bool)
        ensures
            b == self.is_progress(),
    {
        match self {
            ModalKind::Exporting | ModalKind::Saving => true,
            _ => false,
        }
    }
}

/// Every kind has a place below `MODAL_KIND_COUNT`, and `at` finds the kind
/// back from its place: no two kinds share a place.
pub proof fn kind_positions_are_distinct(kind: ModalKind)
    ensures
        kind.position() < MODAL_KIND_COUNT,
        ModalKind::at(kind.position() as int) == Some(kind),
{
}

/// Exactly the places below `MODAL_KIND_COUNT` hold a kind, and each holds
/// the kind whose position it is.
pub proof fn kind_at_inverts_position(i: int)
    ensures
        ModalKind::at(i) is Some <==> 0 <= i < MODAL_KIND_COUNT,
        ModalKind::at(i) matches Some(k) ==> k.position() == i,
{
}

} // verus!
