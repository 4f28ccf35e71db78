use modals::kind::{ModalKind, MODAL_KIND_COUNT};

fn declared_order() -> Vec<ModalKind> {
    vec![
        ModalKind::Resize,
        ModalKind::Alert,
        ModalKind::CloseChanges,
        ModalKind::ExportChange,
        ModalKind::Exporting,
        ModalKind::Saving,
        ModalKind::CourseChanges,
        ModalKind::MapChanges,
        ModalKind::ChangeMap,
        ModalKind::ChangeCourse,
        ModalKind::About,
        ModalKind::BugReport,
        ModalKind::Clear,
        ModalKind::Help,
        ModalKind::AddMap,
    ]
}

#[test]
fn there_are_fifteen_kinds() {
    assert_eq!(MODAL_KIND_COUNT, 15);
    assert_eq!(declared_order().len(), MODAL_KIND_COUNT);
}

#[test]
fn index_follows_the_declared_order() {
    for (place, kind) in declared_order().into_iter().enumerate() {
        assert_eq!(kind.index(), place);
    }
}

#[test]
fn from_index_finds_each_kind_back() {
    for kind in declared_order() {
        assert_eq!(ModalKind::from_index(kind.index()), Some(kind));
    }
}

#[test]
fn from_index_ends_after_the_last_kind() {
    assert_eq!(ModalKind::from_index(14), Some(ModalKind::AddMap));
    assert_eq!(ModalKind::from_index(15), None);
    assert_eq!(ModalKind::from_index(usize::MAX), None);
}

#[test]
fn next_walks_the_declared_order() {
    let mut walked = vec![ModalKind::Resize];
    let mut current = ModalKind::Resize;
    while let Some(following) = current.next() {
        walked.push(following);
        current = following;
    }
    assert_eq!(walked, declared_order());
    assert_eq!(ModalKind::AddMap.next(), None);
}

#[test]
fn only_saving_and_exporting_advance_by_themselves() {
    for kind in declared_order() {
        let expected = kind == ModalKind::Saving || kind == ModalKind::Exporting;
        assert_eq!(kind.has_progress(), expected);
    }
}

#[test]
fn each_kind_names_its_window() {
    let names: Vec<&str> = declared_order().into_iter().map(|kind| kind.id_source()).collect();
    assert_eq!(
        names,
        vec![
            "Resize_modal",
            "Alert_modal",
            "CloseChanges_modal",
            "ExportChange_modal",
            "Exporting_modal",
            "Saving_modal",
            "CourseChanges_modal",
            "MapChanges_modal",
            "ChangeMap_modal",
            "ChangeCourse_modal",
            "About_modal",
            "BugReport_modal",
            "Clear_modal",
            "Help_modal",
            "AddMap_modal",
        ]
    );
}

#[test]
fn no_two_kinds_share_a_window_name() {
    let kinds = declared_order();
    for first in &kinds {
        for second in &kinds {
            assert_eq!(first.id_source() == second.id_source(), first == second);
        }
    }
}
