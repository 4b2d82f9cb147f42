use iced_plugins::cache::{GroupCache, Lookup};
use iced_plugins::pref_store::{PrefEffect, PrefMessage, PrefOutput, PrefStorePlugin};
use iced_plugins::store::storage::{group_file_name, group_path_in, storage_dir_in};
use iced_plugins::store::{
    get_group_path, storage_dir, AppName, StoreEffect, StoreInput, StoreMessage, StoreOutput,
    StorePlugin,
};
use iced_plugins::string_map::StringMap;
use std::path::PathBuf;

fn pairs(map: &StringMap<String>) -> Vec<(String, String)> {
    (0..map.len()).map(|i| (map.key_at(i).clone(), map.value_at(i).clone())).collect()
}

fn text(value: &str) -> String {
    value.to_string()
}

#[test]
fn string_map_inserts_replaces_and_removes() {
    let mut map: StringMap<u32> = StringMap::new();
    assert_eq!(map.len(), 0);
    assert_eq!(map.get("a"), None);
    assert_eq!(map.insert(text("a"), 1), None);
    assert_eq!(map.insert(text("b"), 2), None);
    assert_eq!(map.insert(text("a"), 3), Some(1));
    assert_eq!(map.len(), 2);
    assert_eq!(map.get("a"), Some(&3));
    assert_eq!(map.get("b"), Some(&2));
    assert!(map.contains_key("b"));
    assert!(!map.contains_key("c"));
    assert_eq!(map.key_at(0), "a");
    assert_eq!(map.value_at(0), &3);
    assert_eq!(map.key_at(1), "b");
    assert_eq!(map.remove("a"), Some(3));
    assert_eq!(map.remove("a"), None);
    assert_eq!(map.len(), 1);
    assert_eq!(map.key_at(0), "b");
}

#[test]
fn string_map_duplicate_keeps_order_and_texts() {
    let mut map: StringMap<String> = StringMap::new();
    map.insert(text("theme"), text("\"dark\""));
    map.insert(text("size"), text("14"));
    let copy = map.duplicate();
    map.insert(text("size"), text("16"));
    assert_eq!(pairs(&copy), vec![(text("theme"), text("\"dark\"")), (text("size"), text("14"))]);
    assert_eq!(map.get("size"), Some(&text("16")));
}

#[test]
fn cache_put_lookup_delete() {
    let mut cache = GroupCache::new();
    assert_eq!(cache.lookup("ui", "theme"), Lookup::NotCached);
    let data = cache.put("ui", text("theme"), text("dark"));
    assert_eq!(pairs(&data), vec![(text("theme"), text("dark"))]);
    assert_eq!(cache.lookup("ui", "theme"), Lookup::Found(text("dark")));
    assert_eq!(cache.lookup("ui", "font"), Lookup::NoSuchKey);
    assert_eq!(cache.lookup("other", "theme"), Lookup::NotCached);
    assert!(cache.delete("ui", "font").is_none());
    assert!(cache.delete("other", "theme").is_none());
    let data = cache.delete("ui", "theme").unwrap();
    assert_eq!(data.len(), 0);
    assert_eq!(cache.lookup("ui", "theme"), Lookup::NoSuchKey);
}

#[test]
fn app_name_keeps_its_parts() {
    let name = AppName::new("com", "acme", "roadrunner");
    assert_eq!(name.qualifier, "com");
    assert_eq!(name.organization, "acme");
    assert_eq!(name.application, "roadrunner");
    assert_eq!(name.clone(), name);
}

#[test]
fn store_inputs_become_messages() {
    assert_eq!(
        StoreInput::set("g", "k", text("1")),
        StoreInput::SetValue { group: text("g"), key: text("k"), value: text("1") }
    );
    assert_eq!(StoreInput::get("g", "k"), StoreInput::Get { group: text("g"), key: text("k") });
    assert_eq!(
        StoreInput::delete("g", "k"),
        StoreInput::Delete { group: text("g"), key: text("k") }
    );
    assert_eq!(
        StoreInput::set("g", "k", text("1")).into_message(),
        StoreMessage::SetValue { group: text("g"), key: text("k"), value: text("1") }
    );
    assert_eq!(
        StoreInput::get("g", "k").into_message(),
        StoreMessage::Get { group: text("g"), key: text("k") }
    );
    assert_eq!(
        StoreInput::delete("g", "k").clone().into_message(),
        StoreMessage::Delete { group: text("g"), key: text("k") }
    );
    assert_eq!(
        StoreMessage::from(StoreInput::set("g", "k", text("2"))),
        StoreMessage::SetValue { group: text("g"), key: text("k"), value: text("2") }
    );
    let message: StoreMessage = StoreInput::get("g", "k").into();
    assert_eq!(message, StoreMessage::Get { group: text("g"), key: text("k") });
}

#[test]
fn store_output_hands_out_the_value_text() {
    let output = StoreOutput::Get { group: text("g"), key: text("k"), value: text("[1,2]") };
    assert_eq!(output.value_text(), Some(&text("[1,2]")));
    assert_eq!(StoreOutput::NotFound { group: text("g"), key: text("k") }.value_text(), None);
    assert_eq!(StoreOutput::Error { message: text("x") }.clone().value_text(), None);
}

#[test]
fn storage_paths_are_built_from_their_parts() {
    assert_eq!(storage_dir_in(Some(PathBuf::from("/home/u/.config/app"))), PathBuf::from("/home/u/.config/app/store"));
    assert_eq!(storage_dir_in(None), PathBuf::from("./store"));
    assert_eq!(group_file_name("settings"), "settings.json");
    assert_eq!(group_path_in(&PathBuf::from("/tmp/store"), "ui"), PathBuf::from("/tmp/store/ui.json"));
    let name = AppName::new("com", "example", "myapp");
    let dir = storage_dir(&name);
    assert!(dir.ends_with("store"));
    assert_eq!(get_group_path(&name, "settings"), dir.join("settings.json"));
}

#[test]
fn store_sets_then_gets_from_the_cache() {
    let plugin = StorePlugin::new(AppName::new("com", "example", "myapp"));
    assert_eq!(plugin.name(), "store");
    let mut state = plugin.init();
    assert_eq!(state.cached("ui", "theme"), Lookup::NotCached);

    let (effect, output) = plugin.decide(&mut state, StoreInput::set("ui", "theme", text("\"dark\"")).into_message());
    assert_eq!(output, Some(StoreOutput::ValueSet { group: text("ui"), key: text("theme") }));
    match effect {
        StoreEffect::Save { app_name, group, data } => {
            assert_eq!(app_name, AppName::new("com", "example", "myapp"));
            assert_eq!(group, "ui");
            assert_eq!(pairs(&data), vec![(text("theme"), text("\"dark\""))]);
        }
        _ => panic!("a save was expected"),
    }

    let (effect, output) = plugin.decide(&mut state, StoreMessage::Get { group: text("ui"), key: text("theme") });
    assert!(matches!(effect, StoreEffect::Idle));
    assert_eq!(output, Some(StoreOutput::Get { group: text("ui"), key: text("theme"), value: text("\"dark\"") }));

    let (effect, output) = plugin.decide(&mut state, StoreMessage::Get { group: text("ui"), key: text("font") });
    assert!(matches!(effect, StoreEffect::Idle));
    assert_eq!(output, Some(StoreOutput::NotFound { group: text("ui"), key: text("font") }));
}

#[test]
fn store_loads_a_group_that_is_not_cached() {
    let plugin = StorePlugin::new(AppName::new("com", "example", "myapp")).clone();
    let mut state = plugin.init();
    let (effect, output) = plugin.decide(&mut state, StoreMessage::Get { group: text("cache"), key: text("token") });
    assert_eq!(output, None);
    match effect {
        StoreEffect::Load { app_name, group, key } => {
            assert_eq!(app_name.application, "myapp");
            assert_eq!(group, "cache");
            assert_eq!(key, "token");
        }
        _ => panic!("a load was expected"),
    }
    assert_eq!(state.app_name().organization, "example");

    let (effect, output) = plugin.decide(
        &mut state,
        StoreMessage::GetResult { group: text("cache"), key: text("token"), value: Some(text("\"abc\"")) },
    );
    assert!(matches!(effect, StoreEffect::Idle));
    assert_eq!(output, Some(StoreOutput::Get { group: text("cache"), key: text("token"), value: text("\"abc\"") }));
    assert_eq!(state.cached("cache", "token"), Lookup::Found(text("\"abc\"")));

    let (effect, output) = plugin.decide(
        &mut state,
        StoreMessage::GetResult { group: text("other"), key: text("token"), value: None },
    );
    assert!(matches!(effect, StoreEffect::Idle));
    assert_eq!(output, Some(StoreOutput::NotFound { group: text("other"), key: text("token") }));
    assert_eq!(state.cached("other", "token"), Lookup::NotCached);
}

#[test]
fn store_deletes_and_reports_failed_saves() {
    let plugin = StorePlugin::new(AppName::new("com", "example", "myapp"));
    let mut state = plugin.init();
    let _ = plugin.decide(&mut state, StoreMessage::SetValue { group: text("g"), key: text("a"), value: text("1") });
    let _ = plugin.decide(&mut state, StoreMessage::SetValue { group: text("g"), key: text("b"), value: text("2") });

    let (effect, output) = plugin.decide(&mut state, StoreMessage::Delete { group: text("g"), key: text("a") });
    assert_eq!(output, Some(StoreOutput::Deleted { group: text("g"), key: text("a") }));
    match effect {
        StoreEffect::Save { group, data, .. } => {
            assert_eq!(group, "g");
            assert_eq!(pairs(&data), vec![(text("b"), text("2"))]);
        }
        _ => panic!("a save was expected"),
    }
    let (effect, output) = plugin.decide(&mut state, StoreMessage::Delete { group: text("g"), key: text("a") });
    assert!(matches!(effect, StoreEffect::Idle));
    assert_eq!(output, Some(StoreOutput::NotFound { group: text("g"), key: text("a") }));
    let (effect, output) = plugin.decide(&mut state, StoreMessage::Delete { group: text("none"), key: text("a") });
    assert!(matches!(effect, StoreEffect::Idle));
    assert_eq!(output, Some(StoreOutput::NotFound { group: text("none"), key: text("a") }));

    let (effect, output) = plugin.decide(&mut state, StoreMessage::SaveResult { group: text("g"), success: true });
    assert!(matches!(effect, StoreEffect::Idle));
    assert_eq!(output, None);
    let (effect, output) = plugin.decide(&mut state, StoreMessage::SaveResult { group: text("g"), success: false }.clone());
    assert!(matches!(effect, StoreEffect::Idle));
    assert_eq!(output, Some(StoreOutput::Error { message: text("Failed to save group: g") }));
}

#[test]
fn pref_store_follows_the_same_rules() {
    let plugin = PrefStorePlugin::in_dir(Some(PathBuf::from("/cfg")), "my_app");
    assert_eq!(plugin.name(), "pref_store");
    let mut state = plugin.clone().init();
    assert_eq!(state.group_path("ui"), PathBuf::from("/cfg/my_app/prefs/ui.json"));

    let (effect, output) = plugin.decide(&mut state, PrefMessage::get("ui", "user"));
    assert_eq!(output, None);
    match effect {
        PrefEffect::Load { path, group, key } => {
            assert_eq!(path, PathBuf::from("/cfg/my_app/prefs/ui.json"));
            assert_eq!(group, "ui");
            assert_eq!(key, "user");
        }
        _ => panic!("a load was expected"),
    }

    let (effect, output) = plugin.decide(&mut state, PrefMessage::set("ui", "user", text("{}")));
    assert_eq!(output, Some(PrefOutput::ValueSet { group: text("ui"), key: text("user") }));
    match effect {
        PrefEffect::Save { path, group, data } => {
            assert_eq!(path, PathBuf::from("/cfg/my_app/prefs/ui.json"));
            assert_eq!(group, "ui");
            assert_eq!(pairs(&data), vec![(text("user"), text("{}"))]);
        }
        _ => panic!("a save was expected"),
    }
    assert_eq!(state.cached("ui", "user"), Lookup::Found(text("{}")));

    let (_, output) = plugin.decide(&mut state, PrefMessage::get("ui", "user"));
    assert_eq!(output.as_ref().and_then(|o| o.value_text()), Some(&text("{}")));
    let (_, output) = plugin.decide(&mut state, PrefMessage::get("ui", "none"));
    assert_eq!(output, Some(PrefOutput::NotFound { group: text("ui"), key: text("none") }));

    let (effect, output) = plugin.decide(&mut state, PrefMessage::delete("ui", "user"));
    assert!(matches!(effect, PrefEffect::Save { .. }));
    assert_eq!(output, Some(PrefOutput::Deleted { group: text("ui"), key: text("user") }));
    let (effect, output) = plugin.decide(&mut state, PrefMessage::delete("ui", "user").clone());
    assert!(matches!(effect, PrefEffect::Idle));
    assert_eq!(output, Some(PrefOutput::NotFound { group: text("ui"), key: text("user") }));

    let (_, output) = plugin.decide(&mut state, PrefMessage::GetResult { group: text("x"), key: text("y"), value: Some(text("1")) });
    assert_eq!(output, Some(PrefOutput::Get { group: text("x"), key: text("y"), value: text("1") }));
    let (_, output) = plugin.decide(&mut state, PrefMessage::GetResult { group: text("x"), key: text("z"), value: None });
    assert_eq!(output, Some(PrefOutput::NotFound { group: text("x"), key: text("z") }));
    let (_, output) = plugin.decide(&mut state, PrefMessage::SaveResult { group: text("x"), success: false });
    assert_eq!(output.clone(), Some(PrefOutput::Error { message: text("Failed to save group: x") }));
    let (_, output) = plugin.decide(&mut state, PrefMessage::SaveResult { group: text("x"), success: true });
    assert_eq!(output, None);

    let fallback = PrefStorePlugin::in_dir(None, "app").init();
    assert_eq!(fallback.group_path("g"), PathBuf::from("./app/prefs/g.json"));
    let real = PrefStorePlugin::new("app").init();
    assert!(real.group_path("g").ends_with("app/prefs/g.json"));
}
