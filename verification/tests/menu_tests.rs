use md_viewer::menu::{build_menu_spec, MenuEntry, MenuSpec, NativeItem};

fn action_identifiers(menu: &MenuSpec) -> Vec<String> {
    let mut ids = Vec::new();
    for submenu in &menu.submenus {
        for entry in &submenu.entries {
            if let MenuEntry::Action { identifier, .. } = entry {
                ids.push(identifier.clone());
            }
        }
    }
    ids
}

#[test]
fn menu_has_four_submenus_in_order() {
    let menu = build_menu_spec();
    let titles: Vec<&str> = menu.submenus.iter().map(|s| s.title.as_str()).collect();
    assert_eq!(titles, vec!["md-viewer", "File", "Edit", "View"]);
}

#[test]
fn each_dispatched_identifier_appears_exactly_once() {
    let menu = build_menu_spec();
    let ids = action_identifiers(&menu);
    for wanted in ["open-file", "zoom-in", "zoom-out", "zoom-reset", "toggle-theme"] {
        let occurrences = ids.iter().filter(|i| i.as_str() == wanted).count();
        assert_eq!(occurrences, 1, "identifier {wanted} should appear exactly once");
    }
    assert_eq!(ids.len(), 5);
}

#[test]
fn open_action_carries_label_and_accelerator() {
    let menu = build_menu_spec();
    let file_menu = &menu.submenus[1];
    match &file_menu.entries[0] {
        MenuEntry::Action { identifier, label, accelerator } => {
            assert_eq!(identifier, "open-file");
            assert_eq!(label, "Open…");
            assert_eq!(accelerator.as_deref(), Some("CmdOrCtrl+O"));
        }
        _ => panic!("first File entry should be the Open action"),
    }
}

#[test]
fn view_actions_carry_accelerators() {
    let menu = build_menu_spec();
    let view_menu = &menu.submenus[3];
    let mut pairs = Vec::new();
    for entry in &view_menu.entries {
        if let MenuEntry::Action { identifier, accelerator, .. } = entry {
            pairs.push((identifier.clone(), accelerator.clone()));
        }
    }
    assert_eq!(
        pairs,
        vec![
            (String::from("zoom-in"), Some(String::from("CmdOrCtrl+="))),
            (String::from("zoom-out"), Some(String::from("CmdOrCtrl+-"))),
            (String::from("zoom-reset"), Some(String::from("CmdOrCtrl+0"))),
            (String::from("toggle-theme"), Some(String::from("CmdOrCtrl+Shift+T"))),
        ]
    );
}

#[test]
fn app_submenu_holds_native_identity_items() {
    let menu = build_menu_spec();
    let app_menu = &menu.submenus[0];
    let natives: Vec<NativeItem> = app_menu
        .entries
        .iter()
        .filter_map(|e| match e {
            MenuEntry::Native(item) => Some(*item),
            _ => None,
        })
        .collect();
    assert_eq!(
        natives,
        vec![
            NativeItem::About,
            NativeItem::Hide,
            NativeItem::HideOthers,
            NativeItem::ShowAll,
            NativeItem::Quit,
        ]
    );
}

#[test]
fn edit_submenu_holds_standard_text_actions() {
    let menu = build_menu_spec();
    let edit_menu = &menu.submenus[2];
    let natives: Vec<NativeItem> = edit_menu
        .entries
        .iter()
        .filter_map(|e| match e {
            MenuEntry::Native(item) => Some(*item),
            _ => None,
        })
        .collect();
    assert_eq!(
        natives,
        vec![
            NativeItem::Undo,
            NativeItem::Redo,
            NativeItem::Cut,
            NativeItem::Copy,
            NativeItem::Paste,
            NativeItem::SelectAll,
        ]
    );
}
