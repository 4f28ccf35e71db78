//! What a dialog asks of the host: the work that lies outside the dialogs.

use vstd::prelude::*;

verus! {

/// How grave a diagnostic is.
#[derive(Clone, Copy, Debug, PartialEq, Eq, Structural)]
pub enum LogLevel {
    Warn,
    Error,
}

/// A lookup that failed while a dialog carried out what the user chose.
#[derive(Debug, PartialEq, Eq)]
pub enum Diagnostic {
    /// No map template goes by the selected name.
    TemplateKeyNotFound { key: String },
    /// The folder that holds the map templates could not be found.
    TemplateFolderUnavailable,
}

impl Diagnostic {
    /// How grave this diagnostic is: an unknown name is a warning, a missing
    /// folder an error.
    pub open spec fn spec_level(&self) -> LogLevel {
        match self {
            Diagnostic::TemplateKeyNotFound { .. } => LogLevel::Warn,
            Diagnostic::TemplateFolderUnavailable => LogLevel::Error,
        }
    }

    /// The line that the log gets for this diagnostic.
    pub open spec fn text(&self) -> Seq<char> {
        match self {
            Diagnostic::TemplateKeyNotFound { key } => "Map template key not found: '"@ + key@
                + "'"@,
            Diagnostic::TemplateFolderUnavailable => "Failed to get template directory"@,
        }
    }

    /// How grave this diagnostic is.
    #[verifier::when_used_as_spec(spec_level)]
    pub fn level(&self) -> (level: LogLevel)
        ensures
            level == self.spec_level(),
    {
        match self {
            Diagnostic::TemplateKeyNotFound { .. } => LogLevel::Warn,
            Diagnostic::TemplateFolderUnavailable => LogLevel::Error,
        }
    }

    /// The line that the log gets for this diagnostic.
    pub fn message(&self) -> (line: String)
        ensures
            line@ == self.text(),
    {
        match self {
            Diagnostic::TemplateKeyNotFound { key } => {
                let mut line = String::from_str("Map template key not found: '");
                line.append(key.as_str());
                line.append("'");
                line
            },
            Diagnostic::TemplateFolderUnavailable => String::from_str(
                "Failed to get template directory",
            ),
        }
    }
}

impl Clone for Diagnostic {
    fn clone(&self) -> (copy: Self)
        ensures
            copy == *self,
    {
        match self {
            Diagnostic::TemplateKeyNotFound { key } => Diagnostic::TemplateKeyNotFound {
                key: key.clone(),
            },
            Diagnostic::TemplateFolderUnavailable => Diagnostic::TemplateFolderUnavailable,
        }
    }
}

/// One thing that the host is to do after a frame. The host carries the
/// effects of a frame out in the order in which they were returned.
#[derive(Debug, PartialEq, Eq)]
pub enum Effect {
    /// Draw another frame soon, though no input came.
    RequestRepaint,
    /// Close the application's window.
    RequestApplicationClose,
    /// Write the current map to disk.
    PersistMap,
    /// Write the course to disk.
    PersistCourse,
    /// Encode the course and write it to `destination`.
    ExportRom { destination: String },
    /// Start an export. `unsaved_confirmed` says that the user has already
    /// agreed to export what is not saved.
    BeginExport { unsaved_confirmed: bool },
    /// Set the flag that says whether the document has unsaved changes.
    SetUnsavedChanges(bool),
    /// Rebuild what the editor draws of the document.
    RequestGraphicsUpdate,
    /// Leave the current map for the map at `map_index` of the course.
    ChangeMap { map_index: u32 },
    /// Leave the current course for the given world and level.
    ChangeLevel { world_index: u32, level_index: u32 },
    /// Delete everything on the current layer.
    ClearLayer,
    /// Add the map template `level_file`, found under `template_path`, to
    /// the course.
    AddTemplate { level_file: String, template_path: String },
    /// Write a diagnostic to the log.
    Log(Diagnostic),
}

impl Effect {
    /// Whether carrying this effect out changes the document or its
    /// unsaved-changes flag.
    pub open spec fn mutates_document(self) -> bool {
        match self {
            Effect::SetUnsavedChanges(_) => true,
            Effect::ChangeMap { .. } => true,
            Effect::ChangeLevel { .. } => true,
            Effect::ClearLayer => true,
            Effect::AddTemplate { .. } => true,
            _ => false,
        }
    }
}

/// How often `wanted` stands in `effects`.
pub open spec fn occurrences(effects: Seq<Effect>, wanted: Effect) -> nat
    decreases effects.len(),
{
    if effects.len() == 0 {
        0
    } else {
        occurrences(effects.drop_last(), wanted) + if effects.last() == wanted {
            1nat
        } else {
            0nat
        }
    }
}

/// The occurrences in two runs of effects add up in the run of both.
pub proof fn lemma_occurrences_of_concat(first: Seq<Effect>, second: Seq<Effect>, wanted: Effect)
    ensures
        occurrences(first + second, wanted) == occurrences(first, wanted) + occurrences(
            second,
            wanted,
        ),
    decreases second.len(),
{
    if second.len() == 0 {
        assert(first + second =~= first);
    } else {
        assert((first + second).drop_last() =~= first + second.drop_last());
        assert((first + second).last() == second.last());
        lemma_occurrences_of_concat(first, second.drop_last(), wanted);
    }
}

/// An effect occurs in a run as often as it stands in it: not at all where
/// it stands nowhere, and at least once where it stands somewhere.
pub proof fn lemma_occurrences_and_contains(effects: Seq<Effect>, wanted: Effect)
    ensures
        effects.contains(wanted) <==> occurrences(effects, wanted) > 0,
    decreases effects.len(),
{
    if effects.len() > 0 {
        let front = effects.drop_last();
        lemma_occurrences_and_contains(front, wanted);
        if effects.contains(wanted) {
            let i = choose|i: int| 0 <= i < effects.len() && effects[i] == wanted;
            if i < front.len() {
                assert(front[i] == wanted);
            }
        }
        if front.contains(wanted) {
            let i = choose|i: int| 0 <= i < front.len() && front[i] == wanted;
            assert(effects[i] == wanted);
        }
        if effects.last() == wanted {
            assert(effects[effects.len() - 1] == wanted);
        }
    }
}

/// Whether the document has unsaved changes once `effects` are carried out,
/// if it had them, or not, `before`.
pub open spec fn unsaved_after(effects: Seq<Effect>, before: bool) -> bool
    decreases effects.len(),
{
    if effects.len() == 0 {
        before
    } else {
        match effects.last() {
            Effect::SetUnsavedChanges(unsaved) => unsaved,
            _ => unsaved_after(effects.drop_last(), before),
        }
    }
}

impl Clone for Effect {
    fn clone(&self) -> (copy: Self)
        ensures
            copy == *self,
    {
        match self {
            Effect::RequestRepaint => Effect::RequestRepaint,
            Effect::RequestApplicationClose => Effect::RequestApplicationClose,
            Effect::PersistMap => Effect::PersistMap,
            Effect::PersistCourse => Effect::PersistCourse,
            Effect::ExportRom { destination } => Effect::ExportRom {
                destination: destination.clone(),
            },
            Effect::BeginExport { unsaved_confirmed } => Effect::BeginExport {
                unsaved_confirmed: *unsaved_confirmed,
            },
            Effect::SetUnsavedChanges(unsaved) => Effect::SetUnsavedChanges(*unsaved),
            Effect::RequestGraphicsUpdate => Effect::RequestGraphicsUpdate,
            Effect::ChangeMap { map_index } => Effect::ChangeMap { map_index: *map_index },
            Effect::ChangeLevel { world_index, level_index } => Effect::ChangeLevel {
                world_index: *world_index,
                level_index: *level_index,
            },
            Effect::ClearLayer => Effect::ClearLayer,
            Effect::AddTemplate { level_file, template_path } => Effect::AddTemplate {
                level_file: level_file.clone(),
                template_path: template_path.clone(),
            },
            Effect::Log(diagnostic) => Effect::Log(diagnostic.clone()),
        }
    }
}

} // verus!
