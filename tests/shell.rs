use webui_shell::events::{
    is_open_settings, on_lifecycle_event, on_menu_event, Effect, LifecycleEvent, Signal,
};
use webui_shell::menu::{
    build_menu, find_file_submenu, settings_item, synthesized_file_menu, MenuEntry, MenuItem,
    Platform, Submenu,
};
use webui_shell::startup::{startup_modules, Module};
use webui_shell::window::{main_window_config, ShellError, WindowConfig, Windows};
use webui_shell::MENU_OPEN_SETTINGS_ID;

fn submenu(id: &str, label: &str, items: Vec<MenuEntry>) -> MenuEntry {
    MenuEntry::Submenu(Submenu {
        id: id.to_string(),
        label: label.to_string(),
        enabled: true,
        items,
    })
}

fn native(label: &str) -> MenuEntry {
    MenuEntry::Native(label.to_string())
}

fn assert_settings(e: &MenuEntry) {
    match e {
        MenuEntry::Item(MenuItem { id, label, enabled, accelerator }) => {
            assert_eq!(id, "open_settings");
            assert_eq!(label, "Settings…");
            assert!(*enabled);
            assert_eq!(accelerator.as_deref(), Some("CmdOrCtrl+,"));
        }
        _ => panic!("not the Settings item"),
    }
}

fn labels(items: &[MenuEntry]) -> Vec<String> {
    items
        .iter()
        .map(|e| match e {
            MenuEntry::Item(i) => format!("item:{}", i.label),
            MenuEntry::Separator => "separator".to_string(),
            MenuEntry::CloseWindow => "close".to_string(),
            MenuEntry::Quit => "quit".to_string(),
            MenuEntry::Native(l) => format!("native:{}", l),
            MenuEntry::Submenu(s) => format!("submenu:{}", s.label),
        })
        .collect()
}

fn children(e: &MenuEntry) -> &Vec<MenuEntry> {
    match e {
        MenuEntry::Submenu(s) => &s.items,
        _ => panic!("not a submenu"),
    }
}

fn other_window(label: &str) -> WindowConfig {
    WindowConfig {
        label: label.to_string(),
        title: "Other".to_string(),
        url: "/other".to_string(),
        width: 300,
        height: 200,
        min_width: 100,
        min_height: 100,
        resizable: false,
        minimizable: false,
        visible: true,
    }
}

#[test]
fn settings_injected_at_head_of_existing_file_menu() {
    let default = vec![
        submenu("app", "App", vec![native("About")]),
        submenu("file", "File", vec![native("New"), MenuEntry::CloseWindow]),
        submenu("edit", "Edit", vec![native("Copy"), native("Paste")]),
    ];
    let built = build_menu(default, Platform::Other);
    assert_eq!(built.len(), 3);
    assert_eq!(labels(&built), vec!["submenu:App", "submenu:File", "submenu:Edit"]);
    let file = children(&built[1]);
    assert_eq!(file.len(), 4);
    assert_settings(&file[0]);
    assert!(matches!(file[1], MenuEntry::Separator));
    assert_eq!(labels(&file[2..]), vec!["native:New", "close"]);
    assert_eq!(labels(children(&built[2])), vec!["native:Copy", "native:Paste"]);
}

#[test]
fn only_first_file_menu_receives_settings() {
    let default = vec![
        submenu("f1", "File", vec![native("One")]),
        submenu("f2", "File", vec![native("Two")]),
    ];
    let built = build_menu(default, Platform::MacOs);
    assert_eq!(built.len(), 2);
    assert_eq!(children(&built[0]).len(), 3);
    assert_settings(&children(&built[0])[0]);
    assert_eq!(labels(children(&built[1])), vec!["native:Two"]);
}

#[test]
fn file_label_match_is_case_sensitive() {
    let default = vec![submenu("f", "file", vec![native("One")])];
    let built = build_menu(default, Platform::MacOs);
    assert_eq!(built.len(), 2);
    assert_eq!(labels(&built), vec!["submenu:File", "submenu:file"]);
    assert_eq!(labels(children(&built[1])), vec!["native:One"]);
}

#[test]
fn file_menu_synthesized_with_quit_off_macos() {
    let default = vec![submenu("edit", "Edit", vec![native("Copy")]), native("Help")];
    let built = build_menu(default, Platform::Other);
    assert_eq!(built.len(), 3);
    match &built[0] {
        MenuEntry::Submenu(s) => {
            assert_eq!(s.id, "file");
            assert_eq!(s.label, "File");
            assert!(s.enabled);
        }
        _ => panic!("first entry is not a submenu"),
    }
    let file = children(&built[0]);
    assert_eq!(file.len(), 4);
    assert_settings(&file[0]);
    assert_eq!(labels(&file[1..]), vec!["separator", "close", "quit"]);
    assert_eq!(labels(&built[1..]), vec!["submenu:Edit", "native:Help"]);
}

#[test]
fn file_menu_synthesized_without_quit_on_macos() {
    let built = build_menu(vec![submenu("edit", "Edit", vec![])], Platform::MacOs);
    let file = children(&built[0]);
    assert_eq!(file.len(), 3);
    assert_settings(&file[0]);
    assert_eq!(labels(&file[1..]), vec!["separator", "close"]);
}

#[test]
fn empty_default_menu_gets_file_menu() {
    let built = build_menu(vec![], Platform::Other);
    assert_eq!(built.len(), 1);
    assert_eq!(labels(children(&built[0])).len(), 4);
}

#[test]
fn synthesized_file_menu_entries() {
    assert_eq!(labels(children(&synthesized_file_menu(Platform::Other))).len(), 4);
    assert_eq!(labels(children(&synthesized_file_menu(Platform::MacOs))).len(), 3);
    assert_settings(&settings_item());
}

#[test]
fn find_file_submenu_scans_in_order() {
    let menu = vec![native("File"), submenu("a", "Edit", vec![]), submenu("b", "File", vec![])];
    assert_eq!(find_file_submenu(&menu), Some(2));
    assert_eq!(find_file_submenu(&vec![native("File")]), None);
}

#[test]
fn ensure_creates_main_window_once() {
    let mut windows = Windows::new();
    assert_eq!(windows.ensure_main_window(true), Ok(0));
    assert_eq!(windows.open.len(), 1);
    let w = &windows.open[0];
    assert_eq!(w.label, "main");
    assert_eq!(w.title, "Open WebUI");
    assert_eq!(w.url, "/");
    assert_eq!((w.width, w.height), (800, 650));
    assert_eq!((w.min_width, w.min_height), (600, 450));
    assert!(w.resizable && w.minimizable && w.visible);
    assert_eq!(windows.ensure_main_window(true), Ok(0));
    assert_eq!(windows.ensure_main_window(false), Ok(0));
    assert_eq!(windows.open.len(), 1);
}

#[test]
fn ensure_reuses_existing_main_window_among_others() {
    let mut windows = Windows::new();
    windows.open.push(other_window("panel"));
    windows.open.push(main_window_config());
    assert_eq!(windows.ensure_main_window(true), Ok(1));
    assert_eq!(windows.open.len(), 2);
    assert_eq!(windows.find("panel"), Some(0));
    assert_eq!(windows.find("missing"), None);
}

#[test]
fn ensure_reports_refused_creation() {
    let mut windows = Windows::new();
    windows.open.push(other_window("panel"));
    assert_eq!(windows.ensure_main_window(false), Err(ShellError::WindowCreation));
    assert_eq!(windows.open.len(), 1);
    assert_eq!(windows.ensure_main_window(true), Ok(1));
}

#[test]
fn open_settings_shows_focuses_and_emits() {
    let mut windows = Windows::new();
    let effects = on_menu_event(&mut windows, MENU_OPEN_SETTINGS_ID, true);
    assert_eq!(
        effects,
        vec![Effect::Show(0), Effect::Focus(0), Effect::Emit(Signal::OpenSettings)]
    );
    assert_eq!(windows.open.len(), 1);
    let again = on_menu_event(&mut windows, "open_settings", true);
    assert_eq!(again, effects);
    assert_eq!(windows.open.len(), 1);
}

#[test]
fn open_settings_without_window_does_nothing() {
    let mut windows = Windows::new();
    assert!(on_menu_event(&mut windows, "open_settings", false).is_empty());
    assert!(windows.open.is_empty());
}

#[test]
fn other_menu_ids_have_no_effect() {
    let mut windows = Windows::new();
    for id in ["quit", "file", "", "Open_Settings", "open_settings "] {
        assert!(on_menu_event(&mut windows, id, true).is_empty());
        assert!(windows.open.is_empty());
    }
    assert!(is_open_settings("open_settings"));
    assert!(!is_open_settings("settings"));
}

#[test]
fn reopen_emits_one_signal() {
    let r = on_lifecycle_event(&LifecycleEvent::Reopen { has_visible_windows: false });
    assert_eq!(r, vec![Signal::Reopen]);
    let r = on_lifecycle_event(&LifecycleEvent::Reopen { has_visible_windows: true });
    assert_eq!(r, vec![Signal::Reopen]);
    assert_eq!(Signal::Reopen.name(), "reopen");
    assert_eq!(Signal::OpenSettings.name(), "OPEN_SETTINGS");
}

#[test]
fn other_lifecycle_events_emit_nothing() {
    for e in [
        LifecycleEvent::Ready,
        LifecycleEvent::ExitRequested,
        LifecycleEvent::Exit,
        LifecycleEvent::Other,
    ] {
        assert!(on_lifecycle_event(&e).is_empty());
    }
}

#[test]
fn modules_registered_in_fixed_order() {
    assert_eq!(
        startup_modules(),
        vec![
            Module::Logging,
            Module::Autostart,
            Module::Store,
            Module::GlobalShortcut,
            Module::Opener,
            Module::Panel,
        ]
    );
}

#[test]
fn open_settings_reuses_main_window_among_others() {
    let mut windows = Windows::new();
    windows.open.push(other_window("panel"));
    windows.open.push(main_window_config());
    let effects = on_menu_event(&mut windows, "open_settings", false);
    assert_eq!(
        effects,
        vec![Effect::Show(1), Effect::Focus(1), Effect::Emit(Signal::OpenSettings)]
    );
    assert_eq!(windows.open.len(), 2);
}
