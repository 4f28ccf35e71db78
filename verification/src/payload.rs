//! What each kind of dialog holds while it is open.
//!
//! Progress is counted in tenths of the whole, so that the step at which the
//! work is done is met exactly.

use vstd::prelude::*;
use crate::kind::ModalKind;

verus! {

/// The progress, in tenths, at which a progress dialog is complete.
pub const PROGRESS_COMPLETE: u8 = 10;

/// The progress, in tenths, at which a progress dialog does its work.
pub const WORK_TRIGGER: u8 = 4;

/// By how many tenths one frame advances the Saving dialog.
pub const SAVING_STEP: u8 = 2;

/// By how many tenths one frame advances the Exporting dialog.
pub const EXPORTING_STEP: u8 = 1;

/// The number of worlds that the course selection offers.
pub const WORLD_COUNT: u32 = 5;

/// The number of levels in each world that the course selection offers.
pub const LEVEL_COUNT: u32 = 10;

/// The size that the Resize dialog is set to, and whether taking it would
/// throw the present content away.
#[derive(Clone, Copy, Debug, PartialEq, Eq, Structural)]
pub struct ResizeData {
    pub new_width: u16,
    pub new_height: u16,
    pub reset_needed: bool,
}

/// The message of an Alert dialog.
#[derive(Debug, PartialEq, Eq)]
pub struct AlertData {
    pub alert: String,
}

/// Marks the dialog that asks whether to save before quitting.
#[derive(Clone, Copy, Debug, PartialEq, Eq, Structural)]
pub struct CloseChangesData {}

/// Marks the dialog that asks whether to save before exporting.
#[derive(Clone, Copy, Debug, PartialEq, Eq, Structural)]
pub struct ExportChangeData {}

/// Where an export goes, and how far its dialog has advanced, in tenths.
#[derive(Debug, PartialEq, Eq)]
pub struct ExportingData {
    pub exporting_to: String,
    pub progress: u8,
}

/// What follows a save, and how far its dialog has advanced, in tenths.
#[derive(Clone, Copy, Debug, PartialEq, Eq, Structural)]
pub struct SavingData {
    pub quit_when_done: bool,
    pub export_after_done: bool,
    pub progress: u8,
}

/// Marks the dialog that asks whether to save before changing course.
#[derive(Clone, Copy, Debug, PartialEq, Eq, Structural)]
pub struct CourseChangesData {}

/// Marks the dialog that asks whether to save before changing map.
#[derive(Clone, Copy, Debug, PartialEq, Eq, Structural)]
pub struct MapChangesData {}

/// Marks the dialog that lists the maps of the course.
#[derive(Clone, Copy, Debug, PartialEq, Eq, Structural)]
pub struct ChangeMapData {}

/// The world and level that the course selection stands at, both counted
/// from zero.
#[derive(Clone, Copy, Debug, PartialEq, Eq, Structural)]
pub struct ChangeCourseData {
    pub change_level_world_index: u32,
    pub change_level_level_index: u32,
}

/// Marks the About dialog.
#[derive(Clone, Copy, Debug, PartialEq, Eq, Structural)]
pub struct AboutData {}

/// Marks the dialog that says where to report a bug.
#[derive(Clone, Copy, Debug, PartialEq, Eq, Structural)]
pub struct BugReportData {}

/// Marks the dialog that asks whether to clear the current layer.
#[derive(Clone, Copy, Debug, PartialEq, Eq, Structural)]
pub struct ClearData {}

/// Marks the Help dialog.
#[derive(Clone, Copy, Debug, PartialEq, Eq, Structural)]
pub struct HelpData {}

/// Marks the dialog that offers the map templates.
#[derive(Clone, Copy, Debug, PartialEq, Eq, Structural)]
pub struct AddMapData {}

impl ExportingData {
    /// The progress lies within the whole.
    pub open spec fn is_valid(self) -> bool {
        self.progress <= PROGRESS_COMPLETE
    }
}

impl SavingData {
    /// The progress lies within the whole.
    pub open spec fn is_valid(self) -> bool {
        self.progress <= PROGRESS_COMPLETE
    }
}

impl ChangeCourseData {
    /// The selection stands at a world and a level that exist.
    pub open spec fn is_valid(self) -> bool {
        self.change_level_world_index < WORLD_COUNT && self.change_level_level_index < LEVEL_COUNT
    }
}

impl Clone for AlertData {
    fn clone(&self) -> (copy: Self)
        ensures
            copy == *self,
    {
        AlertData { alert: self.alert.clone() }
    }
}

impl Clone for ExportingData {
    fn clone(&self) -> (copy: Self)
        ensures
            copy == *self,
    {
        ExportingData { exporting_to: self.exporting_to.clone(), progress: self.progress }
    }
}

impl Default for ResizeData {
    /// A form that asks for no size yet.
    fn default() -> (data: Self)
        ensures
            data == (ResizeData { new_width: 0, new_height: 0, reset_needed: false }),
    {
        ResizeData { new_width: 0, new_height: 0, reset_needed: false }
    }
}

impl Default for AlertData {
    /// An alert without a message.
    fn default() -> (data: Self)
        ensures
            data.alert@ == Seq::<char>::empty(),
    {
        AlertData { alert: String::new() }
    }
}

impl Default for ExportingData {
    /// An export that has not begun and has no destination yet.
    fn default() -> (data: Self)
        ensures
            data.exporting_to@ == Seq::<char>::empty(),
            data.progress == 0,
            data.is_valid(),
    {
        ExportingData { exporting_to: String::new(), progress: 0 }
    }
}

impl Default for SavingData {
    /// A save that has not begun and that nothing follows.
    fn default() -> (data: Self)
        ensures
            data == (SavingData { quit_when_done: false, export_after_done: false, progress: 0 }),
            data.is_valid(),
    {
        SavingData { quit_when_done: false, export_after_done: false, progress: 0 }
    }
}

impl Default for ChangeCourseData {
    /// A selection that stands at the first level of the first world.
    fn default() -> (data: Self)
        ensures
            data == (ChangeCourseData {
                change_level_world_index: 0,
                change_level_level_index: 0,
            }),
            data.is_valid(),
    {
        ChangeCourseData { change_level_world_index: 0, change_level_level_index: 0 }
    }
}

impl Default for CloseChangesData {
    /// The mark of the dialog before quitting.
    fn default() -> (data: Self)
        ensures
            data == (CloseChangesData {  }),
    {
        CloseChangesData {  }
    }
}

impl Default for ExportChangeData {
    /// The mark of the dialog before an export.
    fn default() -> (data: Self)
        ensures
            data == (ExportChangeData {  }),
    {
        ExportChangeData {  }
    }
}

impl Default for CourseChangesData {
    /// The mark of the dialog before a change of course.
    fn default() -> (data: Self)
        ensures
            data == (CourseChangesData {  }),
    {
        CourseChangesData {  }
    }
}

impl Default for MapChangesData {
    /// The mark of the dialog before a change of map.
    fn default() -> (data: Self)
        ensures
            data == (MapChangesData {  }),
    {
        MapChangesData {  }
    }
}

impl Default for ChangeMapData {
    /// The mark of the list of maps.
    fn default() -> (data: Self)
        ensures
            data == (ChangeMapData {  }),
    {
        ChangeMapData {  }
    }
}

impl Default for AboutData {
    /// The mark of the About dialog.
    fn default() -> (data: Self)
        ensures
            data == (AboutData {  }),
    {
        AboutData {  }
    }
}

impl Default for BugReportData {
    /// The mark of the bug report dialog.
    fn default() -> (data: Self)
        ensures
            data == (BugReportData {  }),
    {
        BugReportData {  }
    }
}

impl Default for ClearData {
    /// The mark of the dialog before clearing a layer.
    fn default() -> (data: Self)
        ensures
            data == (ClearData {  }),
    {
        ClearData {  }
    }
}

impl Default for HelpData {
    /// The mark of the Help dialog.
    fn default() -> (data: Self)
        ensures
            data == (HelpData {  }),
    {
        HelpData {  }
    }
}

impl Default for AddMapData {
    /// The mark of the dialog of the map templates.
    fn default() -> (data: Self)
        ensures
            data == (AddMapData {  }),
    {
        AddMapData {  }
    }
}

/// The payload of an open dialog, tagged with its kind.
#[derive(Debug, PartialEq, Eq)]
pub enum Payload {
    Resize(ResizeData),
    Alert(AlertData),
    CloseChanges(CloseChangesData),
    ExportChange(ExportChangeData),
    Exporting(ExportingData),
    Saving(SavingData),
    CourseChanges(CourseChangesData),
    MapChanges(MapChangesData),
    ChangeMap(ChangeMapData),
    ChangeCourse(ChangeCourseData),
    About(AboutData),
    BugReport(BugReportData),
    Clear(ClearData),
    Help(HelpData),
    AddMap(AddMapData),
}

impl Payload {
    /// The kind of dialog that this payload belongs to.
    pub open spec fn spec_kind(&self) -> ModalKind {
        match self {
            Payload::Resize(_) => ModalKind::Resize,
            Payload::Alert(_) => ModalKind::Alert,
            Payload::CloseChanges(_) => ModalKind::CloseChanges,
            Payload::ExportChange(_) => ModalKind::ExportChange,
            Payload::Exporting(_) => ModalKind::Exporting,
            Payload::Saving(_) => ModalKind::Saving,
            Payload::CourseChanges(_) => ModalKind::CourseChanges,
            Payload::MapChanges(_) => ModalKind::MapChanges,
            Payload::ChangeMap(_) => ModalKind::ChangeMap,
            Payload::ChangeCourse(_) => ModalKind::ChangeCourse,
            Payload::About(_) => ModalKind::About,
            Payload::BugReport(_) => ModalKind::BugReport,
            Payload::Clear(_) => ModalKind::Clear,
            Payload::Help(_) => ModalKind::Help,
            Payload::AddMap(_) => ModalKind::AddMap,
        }
    }

    /// Progress lies within the whole, and a course selection within the
    /// worlds and levels that exist.
    pub open spec fn is_valid(self) -> bool {
        match self {
            Payload::Exporting(data) => data.is_valid(),
            Payload::Saving(data) => data.is_valid(),
            Payload::ChangeCourse(data) => data.is_valid(),
            _ => true,
        }
    }

    /// The kind of dialog that this payload belongs to.
    #[verifier::when_used_as_spec(spec_kind)]
    pub fn kind(&self) -> (kind: ModalKind)
        ensures
            kind == self.spec_kind(),
    {
        match self {
            Payload::Resize(_) => ModalKind::Resize,
            Payload::Alert(_) => ModalKind::Alert,
            Payload::CloseChanges(_) => ModalKind::CloseChanges,
            Payload::ExportChange(_) => ModalKind::ExportChange,
            Payload::Exporting(_) => ModalKind::Exporting,
            Payload::Saving(_) => ModalKind::Saving,
            Payload::CourseChanges(_) => ModalKind::CourseChanges,
            Payload::MapChanges(_) => ModalKind::MapChanges,
            Payload::ChangeMap(_) => ModalKind::ChangeMap,
            Payload::ChangeCourse(_) => ModalKind::ChangeCourse,
            Payload::About(_) => ModalKind::About,
            Payload::BugReport(_) => ModalKind::BugReport,
            Payload::Clear(_) => ModalKind::Clear,
            Payload::Help(_) => ModalKind::Help,
            Payload::AddMap(_) => ModalKind::AddMap,
        }
    }
}

impl Clone for Payload {
    fn clone(&self) -> (copy: Self)
        ensures
            copy == *self,
    {
        match self {
            Payload::Resize(data) => Payload::Resize(*data),
            Payload::Alert(data) => Payload::Alert(data.clone()),
            Payload::CloseChanges(data) => Payload::CloseChanges(*data),
            Payload::ExportChange(data) => Payload::ExportChange(*data),
            Payload::Exporting(data) => Payload::Exporting(data.clone()),
            Payload::Saving(data) => Payload::Saving(*data),
            Payload::CourseChanges(data) => Payload::CourseChanges(*data),
            Payload::MapChanges(data) => Payload::MapChanges(*data),
            Payload::ChangeMap(data) => Payload::ChangeMap(*data),
            Payload::ChangeCourse(data) => Payload::ChangeCourse(*data),
            Payload::About(data) => Payload::About(*data),
            Payload::BugReport(data) => Payload::BugReport(*data),
            Payload::Clear(data) => Payload::Clear(*data),
            Payload::Help(data) => Payload::Help(*data),
            Payload::AddMap(data) => Payload::AddMap(*data),
        }
    }
}

} // verus!
