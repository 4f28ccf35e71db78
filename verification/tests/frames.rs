use modals::effect::{Diagnostic, Effect};
use modals::gui::Gui;
use modals::input::{
    AddMapChoice, ChangeCourseChoice, ClearChoice, CloseChangesChoice, FrameInput, ResizeInput,
    SaveFirstChoice,
};
use modals::kind::ModalKind;
use modals::payload::{
    AlertData, ChangeCourseData, ExportingData, Payload, ResizeData, SavingData,
};

fn every_kind() -> Vec<ModalKind> {
    let mut kinds = Vec::new();
    let mut place = 0;
    while let Some(kind) = ModalKind::from_index(place) {
        kinds.push(kind);
        place += 1;
    }
    kinds
}

fn open_kinds(gui: &Gui) -> Vec<ModalKind> {
    every_kind().into_iter().filter(|kind| gui.modals.is_open(*kind)).collect()
}

fn gui_with(payloads: Vec<Payload>) -> Gui {
    let mut gui = Gui::new();
    for payload in payloads {
        gui.modals.open(payload);
    }
    gui
}

fn save(quit_when_done: bool, export_after_done: bool, progress: u8) -> SavingData {
    SavingData { quit_when_done, export_after_done, progress }
}

#[test]
fn a_new_gui_has_nothing_to_show() {
    let mut gui = Gui::new();
    assert_eq!(gui, Gui::default());
    assert!(gui.show_modals(&FrameInput::idle()).is_empty());
    assert!(open_kinds(&gui).is_empty());
}

#[test]
fn the_idle_input_touches_nothing() {
    let idle = FrameInput::idle();
    assert_eq!(idle, FrameInput::default());
    assert_eq!(idle.resize, None);
    assert!(!idle.alert_okay);
    assert_eq!(idle.close_changes, None);
    assert_eq!(idle.export_change, None);
    assert_eq!(idle.course_changes, None);
    assert_eq!(idle.map_changes, None);
    assert_eq!(idle.change_map, None);
    assert_eq!(idle.change_course, None);
    assert!(!idle.about_close);
    assert!(!idle.bug_report_close);
    assert_eq!(idle.clear, None);
    assert!(!idle.help_close);
    assert_eq!(idle.add_map, None);
}

#[test]
fn input_for_a_closed_dialog_is_passed_over() {
    let mut gui = Gui::new();
    let input = FrameInput {
        resize: Some(ResizeInput {
            edited: ResizeData { new_width: 1, new_height: 1, reset_needed: true },
            finished: true,
        }),
        alert_okay: true,
        close_changes: Some(CloseChangesChoice::Save),
        export_change: Some(SaveFirstChoice::SaveAndContinue),
        course_changes: Some(SaveFirstChoice::SaveAndContinue),
        map_changes: Some(SaveFirstChoice::Continue),
        change_map: Some(2),
        change_course: Some(ChangeCourseChoice::Okay),
        about_close: true,
        bug_report_close: true,
        clear: Some(ClearChoice::ClearLayer),
        help_close: true,
        add_map: Some(AddMapChoice::Cancel),
    };
    for kind in every_kind() {
        assert!(gui.show_modal(kind, &input).is_empty());
    }
    assert!(gui.show_modals(&input).is_empty());
    assert!(open_kinds(&gui).is_empty());
}

#[test]
fn an_idle_frame_keeps_the_waiting_dialogs() {
    let waiting = vec![
        Payload::Resize(ResizeData { new_width: 3, new_height: 4, reset_needed: false }),
        Payload::Alert(AlertData { alert: String::from("hello") }),
        Payload::CloseChanges(Default::default()),
        Payload::ExportChange(Default::default()),
        Payload::CourseChanges(Default::default()),
        Payload::MapChanges(Default::default()),
        Payload::ChangeMap(Default::default()),
        Payload::ChangeCourse(ChangeCourseData {
            change_level_world_index: 1,
            change_level_level_index: 8,
        }),
        Payload::About(Default::default()),
        Payload::BugReport(Default::default()),
        Payload::Clear(Default::default()),
        Payload::Help(Default::default()),
        Payload::AddMap(Default::default()),
    ];
    let mut gui = gui_with(waiting.clone());
    let before = gui_with(waiting);
    assert!(gui.show_modals(&FrameInput::idle()).is_empty());
    assert_eq!(gui, before);
}

#[test]
fn each_dialog_looks_at_its_own_input_only() {
    let mut gui = gui_with(vec![
        Payload::About(Default::default()),
        Payload::Help(Default::default()),
        Payload::BugReport(Default::default()),
        Payload::Alert(AlertData { alert: String::from("x") }),
    ]);
    let input = FrameInput { help_close: true, ..FrameInput::idle() };
    assert!(gui.show_modals(&input).is_empty());
    assert_eq!(open_kinds(&gui), vec![ModalKind::Alert, ModalKind::About, ModalKind::BugReport]);
    let input = FrameInput { alert_okay: true, bug_report_close: true, ..FrameInput::idle() };
    assert!(gui.show_modals(&input).is_empty());
    assert_eq!(open_kinds(&gui), vec![ModalKind::About]);
    let input = FrameInput { about_close: true, ..FrameInput::idle() };
    assert!(gui.show_modals(&input).is_empty());
    assert!(open_kinds(&gui).is_empty());
}

#[test]
fn a_dialog_that_closed_is_closed_in_the_next_frame() {
    for kind in every_kind() {
        let payload = match kind {
            ModalKind::Resize => Payload::Resize(Default::default()),
            ModalKind::Alert => Payload::Alert(Default::default()),
            ModalKind::CloseChanges => Payload::CloseChanges(Default::default()),
            ModalKind::ExportChange => Payload::ExportChange(Default::default()),
            ModalKind::Exporting => {
                Payload::Exporting(ExportingData { exporting_to: String::new(), progress: 10 })
            }
            ModalKind::Saving => Payload::Saving(save(false, false, 10)),
            ModalKind::CourseChanges => Payload::CourseChanges(Default::default()),
            ModalKind::MapChanges => Payload::MapChanges(Default::default()),
            ModalKind::ChangeMap => Payload::ChangeMap(Default::default()),
            ModalKind::ChangeCourse => Payload::ChangeCourse(Default::default()),
            ModalKind::About => Payload::About(Default::default()),
            ModalKind::BugReport => Payload::BugReport(Default::default()),
            ModalKind::Clear => Payload::Clear(Default::default()),
            ModalKind::Help => Payload::Help(Default::default()),
            ModalKind::AddMap => Payload::AddMap(Default::default()),
        };
        let closing = FrameInput {
            resize: Some(ResizeInput { edited: Default::default(), finished: true }),
            alert_okay: true,
            close_changes: Some(CloseChangesChoice::Cancel),
            export_change: Some(SaveFirstChoice::Cancel),
            course_changes: Some(SaveFirstChoice::Cancel),
            map_changes: Some(SaveFirstChoice::Cancel),
            change_map: Some(0),
            change_course: Some(ChangeCourseChoice::Cancel),
            about_close: true,
            bug_report_close: true,
            clear: Some(ClearChoice::Cancel),
            help_close: true,
            add_map: Some(AddMapChoice::Cancel),
        };
        let mut gui = gui_with(vec![payload]);
        gui.show_modals(&closing);
        assert!(!gui.modals.is_open(kind));
        assert!(gui.show_modals(&closing).is_empty());
        assert!(!gui.modals.is_open(kind));
    }
}

#[test]
fn saving_before_quitting_quits_once_when_the_save_is_done() {
    let mut gui = gui_with(vec![Payload::CloseChanges(Default::default())]);
    let click = FrameInput { close_changes: Some(CloseChangesChoice::Save), ..FrameInput::idle() };
    let mut all = gui.show_modal(ModalKind::CloseChanges, &click);
    assert!(all.is_empty());
    assert!(!gui.modals.is_open(ModalKind::CloseChanges));
    assert_eq!(gui.modals.saving, Some(save(true, false, 0)));

    let idle = FrameInput::idle();
    let mut frames = 0;
    while gui.modals.is_open(ModalKind::Saving) {
        all.extend(gui.show_modals(&idle));
        frames += 1;
    }
    assert_eq!(frames, 6);
    assert_eq!(
        all,
        vec![
            Effect::RequestRepaint,
            Effect::PersistMap,
            Effect::PersistCourse,
            Effect::SetUnsavedChanges(false),
            Effect::RequestApplicationClose,
        ]
    );
    let quits = all.iter().filter(|effect| **effect == Effect::RequestApplicationClose).count();
    assert_eq!(quits, 1);
    let mut unsaved = true;
    for effect in &all {
        if let Effect::SetUnsavedChanges(value) = effect {
            unsaved = *value;
        }
    }
    assert!(!unsaved);
    assert!(open_kinds(&gui).is_empty());
}

#[test]
fn a_save_opened_in_a_frame_has_its_first_turn_in_that_frame() {
    let mut gui = gui_with(vec![Payload::CloseChanges(Default::default())]);
    let click = FrameInput { close_changes: Some(CloseChangesChoice::Save), ..FrameInput::idle() };
    let effects = gui.show_modals(&click);
    assert_eq!(effects, vec![Effect::RequestRepaint]);
    assert_eq!(open_kinds(&gui), vec![ModalKind::Saving]);
    assert_eq!(gui.modals.saving, Some(save(true, false, 2)));
}

#[test]
fn saving_before_exporting_starts_the_export_when_the_save_is_done() {
    let mut gui = gui_with(vec![Payload::ExportChange(Default::default())]);
    let click =
        FrameInput { export_change: Some(SaveFirstChoice::SaveAndContinue), ..FrameInput::idle() };
    let mut all = gui.show_modals(&click);
    assert_eq!(gui.modals.saving, Some(save(false, true, 2)));
    let idle = FrameInput::idle();
    while gui.modals.is_open(ModalKind::Saving) {
        all.extend(gui.show_modals(&idle));
    }
    assert_eq!(
        all,
        vec![
            Effect::RequestRepaint,
            Effect::PersistMap,
            Effect::PersistCourse,
            Effect::SetUnsavedChanges(false),
            Effect::BeginExport { unsaved_confirmed: false },
        ]
    );
}

#[test]
fn exporting_without_saving_starts_at_once() {
    let mut gui = gui_with(vec![Payload::ExportChange(Default::default())]);
    let click = FrameInput { export_change: Some(SaveFirstChoice::Continue), ..FrameInput::idle() };
    let effects = gui.show_modals(&click);
    assert_eq!(effects, vec![Effect::BeginExport { unsaved_confirmed: true }]);
    assert!(open_kinds(&gui).is_empty());
}

#[test]
fn discarding_before_quitting_quits_at_once() {
    let mut gui = gui_with(vec![Payload::CloseChanges(Default::default())]);
    let click =
        FrameInput { close_changes: Some(CloseChangesChoice::Discard), ..FrameInput::idle() };
    let effects = gui.show_modals(&click);
    assert_eq!(effects, vec![Effect::SetUnsavedChanges(false), Effect::RequestApplicationClose]);
    assert!(open_kinds(&gui).is_empty());
}

#[test]
fn continuing_to_another_course_opens_the_selection() {
    let mut gui = gui_with(vec![Payload::CourseChanges(Default::default())]);
    let click = FrameInput { course_changes: Some(SaveFirstChoice::Continue), ..FrameInput::idle() };
    assert!(gui.show_modals(&click).is_empty());
    assert_eq!(open_kinds(&gui), vec![ModalKind::ChangeCourse]);
    assert_eq!(gui.modals.change_course, Some(ChangeCourseData::default()));
}

#[test]
fn saving_and_continuing_to_another_course_opens_selection_and_save() {
    let mut gui = gui_with(vec![Payload::CourseChanges(Default::default())]);
    let click =
        FrameInput { course_changes: Some(SaveFirstChoice::SaveAndContinue), ..FrameInput::idle() };
    assert!(gui.show_modals(&click).is_empty());
    assert_eq!(open_kinds(&gui), vec![ModalKind::Saving, ModalKind::ChangeCourse]);
    assert_eq!(gui.modals.saving, Some(save(false, false, 0)));
    assert_eq!(gui.modals.change_course, Some(ChangeCourseData::default()));
}

#[test]
fn saving_and_continuing_to_another_map_opens_list_and_save() {
    let mut gui = gui_with(vec![Payload::MapChanges(Default::default())]);
    let click =
        FrameInput { map_changes: Some(SaveFirstChoice::SaveAndContinue), ..FrameInput::idle() };
    assert!(gui.show_modals(&click).is_empty());
    assert_eq!(open_kinds(&gui), vec![ModalKind::Saving, ModalKind::ChangeMap]);
    assert_eq!(gui.modals.saving, Some(save(false, false, 0)));
}

#[test]
fn a_list_opened_in_a_frame_sees_the_input_of_that_frame() {
    let mut gui = gui_with(vec![Payload::MapChanges(Default::default())]);
    let input = FrameInput {
        map_changes: Some(SaveFirstChoice::Continue),
        change_map: Some(6),
        ..FrameInput::idle()
    };
    let effects = gui.show_modals(&input);
    assert_eq!(effects, vec![Effect::PersistCourse, Effect::ChangeMap { map_index: 6 }]);
    assert!(open_kinds(&gui).is_empty());
}

#[test]
fn a_complete_save_that_a_later_dialog_opens_again_stays_open() {
    let mut gui = gui_with(vec![
        Payload::Saving(save(false, false, 10)),
        Payload::CourseChanges(Default::default()),
    ]);
    let click =
        FrameInput { course_changes: Some(SaveFirstChoice::SaveAndContinue), ..FrameInput::idle() };
    let effects = gui.show_modals(&click);
    assert_eq!(effects, vec![Effect::SetUnsavedChanges(false)]);
    assert_eq!(gui.modals.saving, Some(save(false, false, 0)));
    assert!(gui.modals.is_open(ModalKind::ChangeCourse));
}

#[test]
fn a_running_save_is_restarted_by_a_new_one() {
    let mut gui = gui_with(vec![
        Payload::Saving(save(false, false, 6)),
        Payload::CloseChanges(Default::default()),
    ]);
    let click = FrameInput { close_changes: Some(CloseChangesChoice::Save), ..FrameInput::idle() };
    let effects = gui.show_modals(&click);
    assert_eq!(effects, vec![Effect::RequestRepaint]);
    assert_eq!(gui.modals.saving, Some(save(true, false, 2)));
}

#[test]
fn the_effects_of_a_frame_come_in_the_order_of_the_kinds() {
    let mut gui = gui_with(vec![
        Payload::AddMap(Default::default()),
        Payload::Clear(Default::default()),
        Payload::ChangeCourse(ChangeCourseData {
            change_level_world_index: 2,
            change_level_level_index: 5,
        }),
        Payload::Saving(save(false, false, 4)),
        Payload::Exporting(ExportingData { exporting_to: String::from("rom"), progress: 4 }),
        Payload::CloseChanges(Default::default()),
    ]);
    let input = FrameInput {
        close_changes: Some(CloseChangesChoice::Discard),
        change_course: Some(ChangeCourseChoice::Okay),
        clear: Some(ClearChoice::ClearLayer),
        add_map: Some(AddMapChoice::Add {
            selected: String::from("Sky"),
            level_file: None,
            template_path: None,
        }),
        ..FrameInput::idle()
    };
    let effects = gui.show_modals(&input);
    assert_eq!(
        effects,
        vec![
            Effect::SetUnsavedChanges(false),
            Effect::RequestApplicationClose,
            Effect::RequestRepaint,
            Effect::ExportRom { destination: String::from("rom") },
            Effect::PersistMap,
            Effect::PersistCourse,
            Effect::ChangeLevel { world_index: 2, level_index: 5 },
            Effect::ClearLayer,
            Effect::Log(Diagnostic::TemplateKeyNotFound { key: String::from("Sky") }),
        ]
    );
    assert_eq!(
        open_kinds(&gui),
        vec![ModalKind::Exporting, ModalKind::Saving, ModalKind::AddMap]
    );
}

#[test]
fn changing_course_through_frames() {
    let mut gui = gui_with(vec![Payload::ChangeCourse(Default::default())]);
    let world =
        FrameInput { change_course: Some(ChangeCourseChoice::SelectWorld(2)), ..FrameInput::idle() };
    let level =
        FrameInput { change_course: Some(ChangeCourseChoice::SelectLevel(5)), ..FrameInput::idle() };
    let okay = FrameInput { change_course: Some(ChangeCourseChoice::Okay), ..FrameInput::idle() };
    assert!(gui.show_modals(&world).is_empty());
    assert!(gui.show_modals(&level).is_empty());
    assert!(gui.show_modals(&FrameInput::idle()).is_empty());
    assert!(gui.modals.is_open(ModalKind::ChangeCourse));
    assert_eq!(
        gui.show_modals(&okay),
        vec![Effect::ChangeLevel { world_index: 2, level_index: 5 }]
    );
    assert!(!gui.modals.is_open(ModalKind::ChangeCourse));
}

#[test]
fn cancelling_the_course_selection_goes_nowhere() {
    let mut gui = gui_with(vec![Payload::ChangeCourse(ChangeCourseData {
        change_level_world_index: 2,
        change_level_level_index: 5,
    })]);
    let cancel = FrameInput { change_course: Some(ChangeCourseChoice::Cancel), ..FrameInput::idle() };
    assert!(gui.show_modals(&cancel).is_empty());
    assert!(open_kinds(&gui).is_empty());
}

#[test]
fn an_unknown_template_closes_no_dialog() {
    let mut gui = gui_with(vec![
        Payload::AddMap(Default::default()),
        Payload::Alert(AlertData { alert: String::from("still here") }),
    ]);
    let before = gui_with(vec![
        Payload::AddMap(Default::default()),
        Payload::Alert(AlertData { alert: String::from("still here") }),
    ]);
    let input = FrameInput {
        add_map: Some(AddMapChoice::Add {
            selected: String::from("Nowhere"),
            level_file: None,
            template_path: Some(String::from("/t")),
        }),
        ..FrameInput::idle()
    };
    let effects = gui.show_modals(&input);
    assert_eq!(
        effects,
        vec![Effect::Log(Diagnostic::TemplateKeyNotFound { key: String::from("Nowhere") })]
    );
    assert_eq!(gui, before);
}

#[test]
fn adding_a_template_through_a_frame() {
    let mut gui = gui_with(vec![Payload::AddMap(Default::default())]);
    let input = FrameInput {
        add_map: Some(AddMapChoice::Add {
            selected: String::from("Cave"),
            level_file: Some(String::from("cave.mpdz")),
            template_path: Some(String::from("/t")),
        }),
        ..FrameInput::idle()
    };
    let effects = gui.show_modals(&input);
    assert_eq!(
        effects,
        vec![
            Effect::AddTemplate {
                level_file: String::from("cave.mpdz"),
                template_path: String::from("/t"),
            },
            Effect::SetUnsavedChanges(true),
            Effect::RequestGraphicsUpdate,
        ]
    );
    assert!(open_kinds(&gui).is_empty());
}

#[test]
fn the_resize_form_through_frames() {
    let mut gui = gui_with(vec![Payload::Resize(ResizeData {
        new_width: 8,
        new_height: 8,
        reset_needed: false,
    })]);
    let edited = ResizeData { new_width: 4, new_height: 8, reset_needed: true };
    let typing =
        FrameInput { resize: Some(ResizeInput { edited, finished: false }), ..FrameInput::idle() };
    assert!(gui.show_modals(&typing).is_empty());
    assert_eq!(gui.modals.resize, Some(edited));
    let done =
        FrameInput { resize: Some(ResizeInput { edited, finished: true }), ..FrameInput::idle() };
    assert!(gui.show_modals(&done).is_empty());
    assert!(open_kinds(&gui).is_empty());
}

#[test]
fn one_turn_is_one_step_of_a_frame() {
    let payloads = vec![
        Payload::Saving(save(true, true, 10)),
        Payload::Exporting(ExportingData { exporting_to: String::from("rom"), progress: 4 }),
        Payload::Clear(Default::default()),
    ];
    let input = FrameInput { clear: Some(ClearChoice::ClearLayer), ..FrameInput::idle() };
    let mut by_frame = gui_with(payloads.clone());
    let mut by_turns = gui_with(payloads);
    let whole = by_frame.show_modals(&input);
    let mut pieces = Vec::new();
    for kind in every_kind() {
        pieces.extend(by_turns.show_modal(kind, &input));
    }
    assert_eq!(whole, pieces);
    assert_eq!(by_frame, by_turns);
}

#[test]
fn frames_keep_progress_and_selection_within_bounds() {
    let mut gui = gui_with(vec![
        Payload::Saving(save(false, false, 9)),
        Payload::Exporting(ExportingData { exporting_to: String::from("rom"), progress: 9 }),
        Payload::ChangeCourse(ChangeCourseData {
            change_level_world_index: 4,
            change_level_level_index: 9,
        }),
    ]);
    let input = FrameInput {
        change_course: Some(ChangeCourseChoice::SelectLevel(10)),
        ..FrameInput::idle()
    };
    gui.show_modals(&input);
    assert_eq!(gui.modals.saving, Some(save(false, false, 10)));
    assert_eq!(
        gui.modals.exporting,
        Some(ExportingData { exporting_to: String::from("rom"), progress: 10 })
    );
    assert_eq!(
        gui.modals.change_course,
        Some(ChangeCourseData { change_level_world_index: 4, change_level_level_index: 9 })
    );
}

#[test]
fn only_the_asking_dialogs_open_dialogs() {
    let everything = FrameInput {
        resize: Some(ResizeInput { edited: Default::default(), finished: false }),
        alert_okay: true,
        close_changes: None,
        export_change: None,
        course_changes: None,
        map_changes: None,
        change_map: Some(1),
        change_course: Some(ChangeCourseChoice::Okay),
        about_close: true,
        bug_report_close: true,
        clear: Some(ClearChoice::ClearLayer),
        help_close: true,
        add_map: Some(AddMapChoice::Add {
            selected: String::from("a"),
            level_file: Some(String::from("b")),
            template_path: Some(String::from("c")),
        }),
    };
    let mut gui = gui_with(vec![
        Payload::Resize(Default::default()),
        Payload::Alert(Default::default()),
        Payload::ChangeMap(Default::default()),
        Payload::ChangeCourse(Default::default()),
        Payload::About(Default::default()),
        Payload::BugReport(Default::default()),
        Payload::Clear(Default::default()),
        Payload::Help(Default::default()),
        Payload::AddMap(Default::default()),
    ]);
    gui.show_modals(&everything);
    assert_eq!(open_kinds(&gui), vec![ModalKind::Resize]);
}
