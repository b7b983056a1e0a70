use metagate_menu::menu::create_menu;
use metagate_menu::menu::MenuDescriptor;
use metagate_menu::menu::MenuEntry;
use metagate_menu::menu::MenuItem;

/// The full closed identifier list, in declared menu order.
const ALL_IDS: [&str; 33] = [
    "preferences",
    "quit",
    "new_project",
    "open_project",
    "save_project",
    "import_model",
    "export_model",
    "close_window",
    "undo",
    "redo",
    "cut",
    "copy",
    "paste",
    "select_all",
    "dashboard",
    "models",
    "datasets",
    "pipelines",
    "monitoring",
    "toggle_sidebar",
    "full_screen",
    "train_model",
    "deploy_model",
    "run_pipeline",
    "stop_pipeline",
    "view_logs",
    "minimize",
    "zoom",
    "bring_to_front",
    "documentation",
    "shortcuts",
    "report_issue",
    "check_updates",
];

fn find_item<'a>(d: &'a MenuDescriptor, id: &str) -> Option<&'a MenuItem> {
    for g in &d.groups {
        for e in &g.entries {
            if let MenuEntry::Item(item) = e {
                if item.id == id {
                    return Some(item);
                }
            }
        }
    }
    None
}

#[test]
fn seven_groups_in_declared_order() {
    let d = create_menu();
    assert_eq!(d.group_count(), 7);
    let labels: Vec<&str> = d.groups.iter().map(|g| g.label.as_str()).collect();
    assert_eq!(labels, vec!["Metagate", "File", "Edit", "View", "MLOps", "Window", "Help"]);
}

#[test]
fn save_project_and_quit_have_accelerators() {
    let d = create_menu();
    let save = find_item(&d, "save_project").expect("save_project item");
    assert_eq!(save.label, "Save Project");
    assert_eq!(save.accelerator.as_deref(), Some("CmdOrCtrl+S"));
    let quit = find_item(&d, "quit").expect("quit item");
    assert_eq!(quit.label, "Quit");
    assert_eq!(quit.accelerator.as_deref(), Some("CmdOrCtrl+Q"));
}

#[test]
fn command_ids_are_duplicate_free() {
    let d = create_menu();
    let ids = d.command_ids();
    for i in 0..ids.len() {
        for j in (i + 1)..ids.len() {
            assert_ne!(ids[i], ids[j], "duplicate command identifier");
        }
    }
}

#[test]
fn command_ids_in_declared_order() {
    let d = create_menu();
    let ids = d.command_ids();
    assert_eq!(ids.len(), ALL_IDS.len());
    for (got, expected) in ids.iter().zip(ALL_IDS.iter()) {
        assert_eq!(got, expected);
    }
}

#[test]
fn file_group_entries_in_declared_order() {
    let d = create_menu();
    let file = &d.groups[1];
    assert_eq!(file.label, "File");
    assert_eq!(file.entries.len(), 8);
    let expected: [Option<(&str, &str, Option<&str>)>; 8] = [
        Some(("new_project", "New Project", Some("CmdOrCtrl+N"))),
        Some(("open_project", "Open Project...", Some("CmdOrCtrl+O"))),
        Some(("save_project", "Save Project", Some("CmdOrCtrl+S"))),
        None,
        Some(("import_model", "Import Model...", None)),
        Some(("export_model", "Export Model...", None)),
        None,
        Some(("close_window", "Close Window", Some("CmdOrCtrl+W"))),
    ];
    for (entry, want) in file.entries.iter().zip(expected.iter()) {
        match (entry, want) {
            (MenuEntry::Item(item), Some((id, label, accel))) => {
                assert_eq!(item.id, *id);
                assert_eq!(item.label, *label);
                assert_eq!(item.accelerator.as_deref(), *accel);
            }
            (MenuEntry::Separator, None) => {}
            _ => panic!("entry kind differs from the declared sequence"),
        }
    }
}

#[test]
fn every_declared_identifier_is_present() {
    let d = create_menu();
    for id in ALL_IDS.iter() {
        assert!(find_item(&d, id).is_some(), "missing command identifier");
    }
}

#[test]
fn mlops_group_accelerators() {
    let d = create_menu();
    let train = find_item(&d, "train_model").expect("train_model item");
    assert_eq!(train.accelerator.as_deref(), Some("CmdOrCtrl+T"));
    let stop = find_item(&d, "stop_pipeline").expect("stop_pipeline item");
    assert_eq!(stop.accelerator.as_deref(), Some("CmdOrCtrl+."));
    let zoom = find_item(&d, "zoom").expect("zoom item");
    assert_eq!(zoom.accelerator, None);
}

#[test]
fn app_group_stands_alone() {
    let g = metagate_menu::menu::app_group();
    assert_eq!(g.label, "Metagate");
    assert_eq!(g.entries.len(), 3);
    assert!(matches!(g.entries[1], MenuEntry::Separator));
}

#[test]
fn entry_constructors() {
    let e = metagate_menu::menu::menu_item("export_model", "Export Model...", None);
    match e {
        MenuEntry::Item(item) => {
            assert_eq!(item.id, "export_model");
            assert_eq!(item.label, "Export Model...");
            assert_eq!(item.accelerator, None);
        }
        MenuEntry::Separator => panic!("expected an item"),
    }
    assert!(matches!(metagate_menu::menu::separator(), MenuEntry::Separator));
}
