use iced::window::Id;
use iced_plugins::string_map::StringMap;
use iced_plugins::store::AppName;
use iced_plugins::tray_icon::menu::{build_native_items, flatten, flatten_all};
use iced_plugins::tray_icon::{
    build_native_menu, update_menu_items, Menu, MenuItem, NativeMenuItem, NativeMenuItemKind,
    TrayEffect, TrayFailure, TrayIconEventKind, TrayIconInput, TrayIconMessage, TrayIconOutput,
    TrayIconPlugin,
};
use iced_plugins::window_state::WindowStateInput;
use iced_plugins::window_state::{
    WindowAction, WindowChange, WindowStatePlugin, WindowTracker, WINDOW_STATE_GROUP,
    WINDOW_STATE_KEY,
};

fn sample_menu() -> Menu {
    let mut menu = Menu::new();
    menu.add_item(MenuItem::new("open", "Open", true));
    menu.add_item(MenuItem::separator());
    menu.add_item(MenuItem::new_submenu(
        "more",
        "More",
        true,
        vec![
            MenuItem::new_check("mute", "Mute", true, false),
            MenuItem::separator(),
            MenuItem::new_submenu("deep", "Deep", false, vec![MenuItem::new("open", "Open again", false)]),
        ],
    ));
    menu.add_item(MenuItem::new("quit", "Quit", true));
    menu
}

fn shown(native: &NativeMenuItem) -> (NativeMenuItemKind, &str, &str, bool, bool) {
    (native.kind(), native.id(), native.text(), native.enabled(), native.checked())
}

fn ids(map: &StringMap<NativeMenuItem>) -> Vec<String> {
    (0..map.len()).map(|i| map.key_at(i).clone()).collect()
}

#[test]
fn menu_items_are_built_as_described() {
    assert!(matches!(
        MenuItem::new("a", "A", true),
        MenuItem::Item { ref id, ref text, enabled: true } if id == "a" && text == "A"
    ));
    assert!(matches!(
        MenuItem::new_check("c", "C", false, true),
        MenuItem::CheckItem { ref id, ref text, enabled: false, checked: true } if id == "c" && text == "C"
    ));
    assert!(matches!(
        MenuItem::new_submenu("s", "S", true, vec![MenuItem::separator()]),
        MenuItem::Submenu { ref id, ref text, enabled: true, ref items } if id == "s" && text == "S" && items.len() == 1
    ));
    assert!(matches!(MenuItem::separator(), MenuItem::Separator));
    assert_eq!(MenuItem::new("a", "A", true).id(), Some("a"));
    assert_eq!(MenuItem::new_check("c", "C", false, true).id(), Some("c"));
    assert_eq!(MenuItem::new_submenu("s", "S", true, Vec::new()).id(), Some("s"));
    assert_eq!(MenuItem::separator().id(), None);

    let menu = sample_menu();
    assert_eq!(menu.items().len(), 4);
    assert_eq!(menu.items()[0].id(), Some("open"));
    assert_eq!(menu.items()[1].id(), None);
    assert_eq!(menu.clone().items().len(), 4);
    assert_eq!(Menu::default().items().len(), 0);
}

#[test]
fn flattening_visits_items_before_their_children() {
    let menu = sample_menu();
    let found: Vec<_> = flatten_all(menu.items()).iter().map(|item| item.id().unwrap().to_string()).collect();
    assert_eq!(found, vec!["open", "more", "mute", "deep", "open", "quit"]);
    assert!(flatten(&MenuItem::separator()).is_empty());
    assert_eq!(flatten(&menu.items()[2]).len(), 4);
    assert_eq!(flatten(&menu.items()[0]).len(), 1);
}

#[test]
fn native_items_are_registered_by_id_and_the_last_wins() {
    let natives = build_native_menu(&sample_menu());
    assert_eq!(ids(&natives), vec!["open", "more", "mute", "deep", "quit"]);
    assert_eq!(shown(natives.get("open").unwrap()), (NativeMenuItemKind::Item, "open", "Open again", false, false));
    assert_eq!(shown(natives.get("more").unwrap()), (NativeMenuItemKind::Submenu, "more", "More", true, false));
    assert_eq!(shown(natives.get("mute").unwrap()), (NativeMenuItemKind::CheckItem, "mute", "Mute", true, false));
    assert!(natives.get("more").unwrap().submenu());
    assert!(!natives.get("mute").unwrap().submenu());
    assert_eq!(build_native_menu(&Menu::new()).len(), 0);

    let mut registry: StringMap<NativeMenuItem> = StringMap::new();
    let native = build_native_items(&MenuItem::separator(), &mut registry);
    assert_eq!(shown(&native), (NativeMenuItemKind::Item, "", "", false, false));
    assert_eq!(registry.len(), 0);
    let native = build_native_items(&MenuItem::new_check("c", "C", true, true), &mut registry);
    assert_eq!(shown(&native), (NativeMenuItemKind::CheckItem, "c", "C", true, true));
    assert_eq!(shown(&native.clone()), shown(registry.get("c").unwrap()));
    assert_eq!(shown(&NativeMenuItem::new_item("i", "I", true)), (NativeMenuItemKind::Item, "i", "I", true, false));
    assert_eq!(shown(&NativeMenuItem::new_submenu("s", "S", false)), (NativeMenuItemKind::Submenu, "s", "S", false, false));
    assert_eq!(shown(&NativeMenuItem::of(&MenuItem::new("x", "X", true))), (NativeMenuItemKind::Item, "x", "X", true, false));
}

#[test]
fn native_items_take_updates_of_their_own_kind() {
    let mut native = NativeMenuItem::new_check_item("mute", "Mute", true, false);
    assert!(native.update_from_item(&MenuItem::new_check("other", "Muted", false, true)));
    assert_eq!(shown(&native), (NativeMenuItemKind::CheckItem, "mute", "Muted", false, true));
    assert!(!native.update_from_item(&MenuItem::new("mute", "Plain", true)));
    assert!(!native.update_from_item(&MenuItem::separator()));
    assert!(!native.update_from_item(&MenuItem::new_submenu("mute", "Sub", true, Vec::new())));
    assert_eq!(shown(&native), (NativeMenuItemKind::CheckItem, "mute", "Muted", false, true));

    let mut natives = build_native_menu(&sample_menu());
    let update = MenuItem::new_submenu(
        "more",
        "Even more",
        false,
        vec![
            MenuItem::new_check("mute", "Unmute", true, true),
            MenuItem::new("unknown", "Unknown", true),
            MenuItem::new_check("quit", "Quit?", true, true),
        ],
    );
    let changes = update_menu_items(&update, &mut natives);
    let changed: Vec<_> = changes.iter().map(shown).collect();
    assert_eq!(
        changed,
        vec![
            (NativeMenuItemKind::Submenu, "more", "Even more", false, false),
            (NativeMenuItemKind::CheckItem, "mute", "Unmute", true, true),
        ]
    );
    assert_eq!(shown(natives.get("quit").unwrap()), (NativeMenuItemKind::Item, "quit", "Quit", true, false));
    assert_eq!(shown(natives.get("mute").unwrap()), (NativeMenuItemKind::CheckItem, "mute", "Unmute", true, true));
    assert!(natives.get("unknown").is_none());
}

#[test]
fn tray_plugin_is_configured_step_by_step() {
    let plugin = TrayIconPlugin::new("My App");
    assert_eq!(plugin.name(), "tray_icon");
    assert_eq!(plugin.tooltip(), &Some("My App".to_string()));
    assert_eq!(plugin.icon_data(), &None);
    assert!(plugin.menu().is_none());
    let plugin = plugin.with_icon(vec![1, 2, 3]);
    assert_eq!(plugin.icon_data(), &Some(vec![1, 2, 3]));
    let plugin = plugin.with_icon_from_slice(&[9, 8]);
    assert_eq!(plugin.icon_data(), &Some(vec![9, 8]));
    assert_eq!(plugin.tooltip(), &Some("My App".to_string()));
    let plugin = plugin.with_tooltip("Other").with_menu(sample_menu());
    assert_eq!(plugin.tooltip(), &Some("Other".to_string()));
    assert_eq!(plugin.icon_data(), &Some(vec![9, 8]));
    assert_eq!(plugin.menu().as_ref().unwrap().items().len(), 4);

    let state = plugin.clone().init(true);
    assert!(state.has_tray_icon());
    assert!(state.has_menu());
    assert_eq!(state.tooltip(), &Some("Other".to_string()));
    assert_eq!(state.icon_bytes(), &Some(vec![9, 8]));
    let bare = TrayIconPlugin::new("t").init(false);
    assert!(!bare.has_tray_icon());
    assert!(!bare.has_menu());
}

#[test]
fn tray_plugin_asks_the_native_icon_only_when_there_is_one() {
    let plugin = TrayIconPlugin::new("t").with_menu(sample_menu());
    let mut without = plugin.init(false);
    for message in [
        TrayIconMessage::SetIcon(vec![1]),
        TrayIconMessage::SetTooltip(None),
        TrayIconMessage::Show,
        TrayIconMessage::Hide,
    ] {
        let (effect, output) = plugin.decide(&mut without, message);
        assert!(matches!(effect, TrayEffect::Idle));
        assert_eq!(output, None);
    }

    let mut state = plugin.init(true);
    let (effect, output) = plugin.decide(&mut state, TrayIconInput::SetIcon(vec![7]).into_message());
    assert!(matches!(effect, TrayEffect::SetIcon(ref bytes) if bytes == &vec![7]));
    assert_eq!(output, None);
    assert_eq!(state.icon_bytes(), &None);
    assert_eq!(plugin.settle(&mut state, effect, None), None);
    assert_eq!(state.icon_bytes(), &Some(vec![7]));

    let (effect, _) = plugin.decide(&mut state, TrayIconInput::SetTooltip(Some("tip".to_string())).into_message());
    assert!(matches!(effect, TrayEffect::SetTooltip(Some(ref tip)) if tip == "tip"));
    assert_eq!(
        plugin.settle(&mut state, effect, Some(TrayFailure::Native("no bus".to_string()))),
        Some(TrayIconOutput::Error { message: "Failed to set tooltip: no bus".to_string() })
    );
    assert_eq!(state.tooltip(), &Some("t".to_string()));
    assert_eq!(plugin.settle(&mut state, TrayEffect::SetTooltip(None), None), None);
    assert_eq!(state.tooltip(), &None);

    let (effect, _) = plugin.decide(&mut state, TrayIconMessage::from(TrayIconInput::Show));
    assert!(matches!(effect, TrayEffect::SetVisible(true)));
    assert!(matches!(TrayIconMessage::from(TrayIconInput::SetIcon(vec![4])), TrayIconMessage::SetIcon(ref bytes) if bytes == &vec![4]));
    let (effect, _) = plugin.decide(&mut state, TrayIconInput::Hide.into_message());
    assert!(matches!(effect, TrayEffect::SetVisible(false)));

    let failures = [
        (TrayEffect::SetIcon(vec![1]), TrayFailure::Icon("Failed to load icon image: bad".to_string()), "Failed to load icon image: bad"),
        (TrayEffect::SetIcon(vec![1]), TrayFailure::Native("x".to_string()), "Failed to set icon: x"),
        (TrayEffect::SetVisible(true), TrayFailure::Native("x".to_string()), "Failed to show tray icon: x"),
        (TrayEffect::SetVisible(false), TrayFailure::Native("x".to_string()), "Failed to hide tray icon: x"),
    ];
    for (effect, failure, expected) in failures {
        assert_eq!(
            plugin.settle(&mut state, effect, Some(failure)),
            Some(TrayIconOutput::Error { message: expected.to_string() })
        );
    }
    assert_eq!(state.icon_bytes(), &Some(vec![7]));
}

#[test]
fn tray_plugin_turns_events_into_outputs_and_refreshes_menus() {
    let plugin = TrayIconPlugin::new("t").with_menu(sample_menu());
    let mut state = plugin.init(true);
    let (effect, output) = plugin.decide(&mut state, TrayIconMessage::MenuEvent("quit".to_string()));
    assert!(matches!(effect, TrayEffect::Idle));
    assert_eq!(output, Some(TrayIconOutput::MenuItemClicked { id: "quit".to_string() }));
    let (_, output) = plugin.decide(&mut state, TrayIconMessage::TrayEvent(TrayIconEventKind::Click));
    assert_eq!(output, Some(TrayIconOutput::IconClicked));
    let (_, output) = plugin.decide(&mut state, TrayIconMessage::TrayEvent(TrayIconEventKind::DoubleClick));
    assert_eq!(output, Some(TrayIconOutput::IconDoubleClicked));

    let mut menu = Menu::new();
    menu.add_item(MenuItem::new("quit", "Leave", false));
    menu.add_item(MenuItem::new("new", "New", true));
    let (effect, output) = plugin.decide(&mut state, TrayIconInput::UpdateMenu(menu).into_message());
    assert_eq!(output, None);
    match effect {
        TrayEffect::RefreshMenu(changes) => {
            assert_eq!(changes.len(), 1);
            assert_eq!(shown(&changes[0]), (NativeMenuItemKind::Item, "quit", "Leave", false, false));
        }
        _ => panic!("a refresh was expected"),
    }
    assert!(state.has_menu());
}

#[test]
fn window_tracker_follows_the_first_window() {
    let main = Id::unique();
    let other = Id::unique();
    let mut tracker = WindowTracker::new();
    assert_eq!(tracker, WindowTracker { oldest_window_id: None, dirty: false });
    assert!(!tracker.tracks(&main));
    assert_eq!(tracker.track(WindowChange::Resized { window: main, differs: true }), WindowAction::Ignore);
    assert_eq!(tracker.track(WindowChange::SaveToDisk), WindowAction::Ignore);
    assert_eq!(tracker.track(WindowChange::Opened(main)), WindowAction::Ignore);
    assert_eq!(tracker.track(WindowChange::Opened(other)), WindowAction::Ignore);
    assert_eq!(tracker.oldest_window_id, Some(main));
    assert!(tracker.tracks(&main));
    assert!(!tracker.tracks(&other));

    assert_eq!(tracker.track(WindowChange::Moved { window: other, differs: true }), WindowAction::Ignore);
    assert_eq!(tracker.track(WindowChange::Resized { window: main, differs: false }), WindowAction::Ignore);
    assert!(!tracker.dirty);
    assert_eq!(tracker.track(WindowChange::Moved { window: main, differs: true }), WindowAction::Remember);
    assert!(tracker.dirty);
    assert_eq!(tracker.track(WindowChange::Resized { window: main, differs: true }), WindowAction::Remember);
    assert_eq!(tracker.track(WindowChange::SaveToDisk), WindowAction::Save);
    assert_eq!(tracker.track(WindowChange::SaveCompleted { saved: false }), WindowAction::ReportSaveError);
    assert!(tracker.dirty);
    assert_eq!(tracker.track(WindowChange::SaveCompleted { saved: true }), WindowAction::ReportSaved);
    assert!(!tracker.dirty);
    assert_eq!(tracker.track(WindowChange::SaveToDisk), WindowAction::Ignore);
}

#[test]
fn window_state_plugin_saves_every_two_seconds_by_default() {
    let plugin = WindowStatePlugin::new(AppName::new("com", "example", "myapp"));
    assert_eq!(plugin.name(), "window_state");
    assert_eq!(plugin.auto_save_interval(), 2);
    assert_eq!(plugin.app_name().application, "myapp");
    let plugin = plugin.with_auto_save_interval(30);
    assert_eq!(plugin.auto_save_interval(), 30);
    assert_eq!(plugin.clone().app_name(), &AppName::new("com", "example", "myapp"));
    assert_eq!(WINDOW_STATE_GROUP, "window_state");
    assert_eq!(WINDOW_STATE_KEY, "main");
}

#[test]
fn window_state_takes_no_input() {
    let nothing: Vec<WindowStateInput> = Vec::new();
    assert!(nothing.is_empty());
    assert_eq!(std::mem::size_of::<WindowStateInput>(), 0);
    let asked: Option<WindowStateInput> = None;
    assert!(asked.clone().is_none());
}
