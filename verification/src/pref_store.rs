//! A JSON preference store that persists its groups to disk, one file per
//! group, and keeps what it has read or written in memory.
use crate::cache::cache_delete;
use crate::cache::cache_holds;
use crate::cache::cache_put;
use crate::cache::CacheView;
use crate::cache::GroupCache;
use crate::cache::Lookup;
use crate::dirs::base_config_local_dir;
use crate::dirs::base_dirs;
use crate::paths::clone_path;
use crate::paths::join_path;
use crate::paths::path_joined;
use crate::paths::path_of_text;
use crate::paths::text_path;
use crate::string_map::texts;
use crate::string_map::StringMap;
use crate::text::join2;
use std::path::PathBuf;
use vstd::prelude::*;
use vstd::string::*;

verus! {

/// Messages that the preference store plugin handles.
#[derive(Debug, PartialEq, Eq)]
pub enum PrefMessage {
    /// Set a preference value.
    SetValue { group: String, key: String, value: String },
    /// Get a preference value.
    Get { group: String, key: String },
    /// Delete a preference.
    Delete { group: String, key: String },
    /// A group was loaded and a key looked up in it.
    GetResult { group: String, key: String, value: Option<String> },
    /// A group was saved, or could not be.
    SaveResult { group: String, success: bool },
}

/// Output messages emitted by the preference store plugin.
#[derive(Debug, PartialEq, Eq)]
pub enum PrefOutput {
    /// A value was set.
    ValueSet { group: String, key: String },
    /// A value was retrieved.
    Get { group: String, key: String, value: String },
    /// A value was not found.
    NotFound { group: String, key: String },
    /// A value was deleted.
    Deleted { group: String, key: String },
    /// An error occurred.
    Error { message: String },
}

/// A [`PrefMessage`] with its texts.
pub enum PrefMessageView {
    SetValue { group: Seq<char>, key: Seq<char>, value: Seq<char> },
    Get { group: Seq<char>, key: Seq<char> },
    Delete { group: Seq<char>, key: Seq<char> },
    GetResult { group: Seq<char>, key: Seq<char>, value: Option<Seq<char>> },
    SaveResult { group: Seq<char>, success: bool },
}

/// A [`PrefOutput`] with its texts.
pub enum PrefOutputView {
    ValueSet { group: Seq<char>, key: Seq<char> },
    Get { group: Seq<char>, key: Seq<char>, value: Seq<char> },
    NotFound { group: Seq<char>, key: Seq<char> },
    Deleted { group: Seq<char>, key: Seq<char> },
    Error { message: Seq<char> },
}

impl View for PrefMessage {
    type V = PrefMessageView;

    open spec fn view(&self) -> PrefMessageView {
        match self {
            PrefMessage::SetValue { group, key, value } => PrefMessageView::SetValue {
                group: group@,
                key: key@,
                value: value@,
            },
            PrefMessage::Get { group, key } => PrefMessageView::Get { group: group@, key: key@ },
            PrefMessage::Delete { group, key } => PrefMessageView::Delete {
                group: group@,
                key: key@,
            },
            PrefMessage::GetResult { group, key, value } => PrefMessageView::GetResult {
                group: group@,
                key: key@,
                value: match value {
                    Some(text) => Some(text@),
                    None => None,
                },
            },
            PrefMessage::SaveResult { group, success } => PrefMessageView::SaveResult {
                group: group@,
                success: *success,
            },
        }
    }
}

impl View for PrefOutput {
    type V = PrefOutputView;

    open spec fn view(&self) -> PrefOutputView {
        match self {
            PrefOutput::ValueSet { group, key } => PrefOutputView::ValueSet {
                group: group@,
                key: key@,
            },
            PrefOutput::Get { group, key, value } => PrefOutputView::Get {
                group: group@,
                key: key@,
                value: value@,
            },
            PrefOutput::NotFound { group, key } => PrefOutputView::NotFound {
                group: group@,
                key: key@,
            },
            PrefOutput::Deleted { group, key } => PrefOutputView::Deleted {
                group: group@,
                key: key@,
            },
            PrefOutput::Error { message } => PrefOutputView::Error { message: message@ },
        }
    }
}

impl PrefMessage {
    /// Create a Set message from a value that is already serialized as JSON.
    pub fn set(group: &str, key: &str, value: String) -> (message: Self)
        ensures
            message@ == (PrefMessageView::SetValue { group: group@, key: key@, value: value@ }),
    {
        PrefMessage::SetValue { group: String::from_str(group), key: String::from_str(key), value }
    }

    /// Create a Get message.
    pub fn get(group: &str, key: &str) -> (message: Self)
        ensures
            message@ == (PrefMessageView::Get { group: group@, key: key@ }),
    {
        PrefMessage::Get { group: String::from_str(group), key: String::from_str(key) }
    }

    /// Create a Delete message.
    pub fn delete(group: &str, key: &str) -> (message: Self)
        ensures
            message@ == (PrefMessageView::Delete { group: group@, key: key@ }),
    {
        PrefMessage::Delete { group: String::from_str(group), key: String::from_str(key) }
    }
}

impl PrefOutput {
    /// The JSON text of a retrieved value: there if this is a `Get` output.
    pub fn value_text(&self) -> (text: Option<&String>)
        ensures
            match self@ {
                PrefOutputView::Get { value, .. } => text matches Some(found) && found@ == value,
                _ => text is None,
            },
    {
        match self {
            PrefOutput::Get { value, .. } => Some(value),
            _ => None,
        }
    }
}

impl Clone for PrefMessage {
    fn clone(&self) -> (copy: Self)
        ensures
            copy@ == self@,
    {
        match self {
            PrefMessage::SetValue { group, key, value } => PrefMessage::SetValue {
                group: group.clone(),
                key: key.clone(),
                value: value.clone(),
            },
            PrefMessage::Get { group, key } => PrefMessage::Get {
                group: group.clone(),
                key: key.clone(),
            },
            PrefMessage::Delete { group, key } => PrefMessage::Delete {
                group: group.clone(),
                key: key.clone(),
            },
            PrefMessage::GetResult { group, key, value } => PrefMessage::GetResult {
                group: group.clone(),
                key: key.clone(),
                value: match value {
                    Some(text) => Some(text.clone()),
                    None => None,
                },
            },
            PrefMessage::SaveResult { group, success } => PrefMessage::SaveResult {
                group: group.clone(),
                success: *success,
            },
        }
    }
}

impl Clone for PrefOutput {
    fn clone(&self) -> (copy: Self)
        ensures
            copy@ == self@,
    {
        match self {
            PrefOutput::ValueSet { group, key } => PrefOutput::ValueSet {
                group: group.clone(),
                key: key.clone(),
            },
            PrefOutput::Get { group, key, value } => PrefOutput::Get {
                group: group.clone(),
                key: key.clone(),
                value: value.clone(),
            },
            PrefOutput::NotFound { group, key } => PrefOutput::NotFound {
                group: group.clone(),
                key: key.clone(),
            },
            PrefOutput::Deleted { group, key } => PrefOutput::Deleted {
                group: group.clone(),
                key: key.clone(),
            },
            PrefOutput::Error { message } => PrefOutput::Error { message: message.clone() },
        }
    }
}

/// The directory of the preferences of the application `app_name` below the
/// configuration directory `config_dir`: `<config_dir>/<app_name>/prefs`.
/// Without a configuration directory the current directory stands in for it.
pub open spec fn prefs_dir_below(config_dir: Option<PathBuf>, app_name: Seq<char>) -> PathBuf {
    path_joined(
        path_joined(
            match config_dir {
                Some(found) => found,
                None => path_of_text("."@),
            },
            app_name,
        ),
        "prefs"@,
    )
}

/// The file of the group `group` in the directory `dir`: the file named
/// after the group, with the extension `json`.
pub open spec fn group_file(dir: PathBuf, group: Seq<char>) -> PathBuf {
    path_joined(dir, group + ".json"@)
}

/// The plugin state: an in-memory cache of the preferences, and the
/// directory the preferences are kept in.
#[derive(Debug)]
pub struct PrefStoreState {
    store: GroupCache,
    storage_dir: PathBuf,
}

impl PrefStoreState {
    /// The cached groups.
    pub closed spec fn cache(&self) -> CacheView {
        self.store@
    }

    /// The directory the preferences are kept in.
    pub closed spec fn dir(&self) -> PathBuf {
        self.storage_dir
    }

    /// Get the storage path for a group.
    pub fn group_path(&self, group: &str) -> (path: PathBuf)
        ensures
            path == group_file(self.dir(), group@),
    {
        let name = join2(group, ".json");
        join_path(&self.storage_dir, name.as_str())
    }

    /// Looks `key` up in the cached group `group`.
    pub fn cached(&self, group: &str, key: &str) -> (found: Lookup)
        ensures
            match found {
                Lookup::Found(text) => cache_holds(self.cache(), group@, key@) && text@
                    == self.cache()[group@][key@],
                Lookup::NoSuchKey => self.cache().contains_key(group@)
                    && !self.cache()[group@].contains_key(key@),
                Lookup::NotCached => !self.cache().contains_key(group@),
            },
    {
        self.store.lookup(group, key)
    }
}

/// Preference store plugin that manages persistent key-value storage.
#[derive(Debug)]
pub struct PrefStorePlugin {
    storage_dir: PathBuf,
}

/// The disk operation that the preference store asks for. Whoever performs
/// it reports back with the message named.
pub enum PrefEffect {
    /// Nothing to do.
    Idle,
    /// Write `data` as the whole content of the file `path`, then report
    /// `SaveResult` for `group`, with whether the write succeeded.
    Save { path: PathBuf, group: String, data: StringMap<String> },
    /// Read the file `path`, then report `GetResult` for `group` and `key`,
    /// with the value under `key` if the file holds one.
    Load { path: PathBuf, group: String, key: String },
}

/// A [`PrefEffect`] with its texts.
pub enum PrefEffectView {
    Idle,
    Save { path: PathBuf, group: Seq<char>, data: Map<Seq<char>, Seq<char>> },
    Load { path: PathBuf, group: Seq<char>, key: Seq<char> },
}

impl View for PrefEffect {
    type V = PrefEffectView;

    open spec fn view(&self) -> PrefEffectView {
        match self {
            PrefEffect::Idle => PrefEffectView::Idle,
            PrefEffect::Save { path, group, data } => PrefEffectView::Save {
                path: *path,
                group: group@,
                data: texts(data@),
            },
            PrefEffect::Load { path, group, key } => PrefEffectView::Load {
                path: *path,
                group: group@,
                key: key@,
            },
        }
    }
}

/// The output of an `Option`, with its texts.
pub open spec fn output_view(output: Option<PrefOutput>) -> Option<PrefOutputView> {
    match output {
        Some(output) => Some(output@),
        None => None,
    }
}

/// The cache after the plugin has handled `message`. Setting a value and
/// learning of a value that was read from disk put it into the cache;
/// deleting takes it out; nothing else changes the cache.
pub open spec fn pref_next(cache: CacheView, message: PrefMessageView) -> CacheView {
    match message {
        PrefMessageView::SetValue { group, key, value } => cache_put(cache, group, key, value),
        PrefMessageView::GetResult { group, key, value: Some(value) } => cache_put(
            cache,
            group,
            key,
            value,
        ),
        PrefMessageView::Delete { group, key } => cache_delete(cache, group, key),
        _ => cache,
    }
}

/// The disk operation that handling `message` asks for. A value that was set
/// or deleted makes the group be saved as it then is; a value wanted from a
/// group that is not cached makes the group be loaded.
pub open spec fn pref_effect(cache: CacheView, dir: PathBuf, message: PrefMessageView) -> PrefEffectView {
    match message {
        PrefMessageView::SetValue { group, key, value } => PrefEffectView::Save {
            path: group_file(dir, group),
            group,
            data: cache_put(cache, group, key, value)[group],
        },
        PrefMessageView::Get { group, key } => if cache.contains_key(group) {
            PrefEffectView::Idle
        } else {
            PrefEffectView::Load { path: group_file(dir, group), group, key }
        },
        PrefMessageView::Delete { group, key } => if cache_holds(cache, group, key) {
            PrefEffectView::Save {
                path: group_file(dir, group),
                group,
                data: cache_delete(cache, group, key)[group],
            }
        } else {
            PrefEffectView::Idle
        },
        _ => PrefEffectView::Idle,
    }
}

/// The output that handling `message` emits.
pub open spec fn pref_output(cache: CacheView, message: PrefMessageView) -> Option<PrefOutputView> {
    match message {
        PrefMessageView::SetValue { group, key, value } => Some(
            PrefOutputView::ValueSet { group, key },
        ),
        PrefMessageView::Get { group, key } => if cache_holds(cache, group, key) {
            Some(PrefOutputView::Get { group, key, value: cache[group][key] })
        } else if cache.contains_key(group) {
            Some(PrefOutputView::NotFound { group, key })
        } else {
            None
        },
        PrefMessageView::GetResult { group, key, value } => match value {
            Some(value) => Some(PrefOutputView::Get { group, key, value }),
            None => Some(PrefOutputView::NotFound { group, key }),
        },
        PrefMessageView::Delete { group, key } => if cache_holds(cache, group, key) {
            Some(PrefOutputView::Deleted { group, key })
        } else {
            Some(PrefOutputView::NotFound { group, key })
        },
        PrefMessageView::SaveResult { group, success } => if success {
            None
        } else {
            Some(PrefOutputView::Error { message: "Failed to save group: "@ + group })
        },
    }
}

impl PrefStorePlugin {
    /// The directory the plugin keeps the preferences in.
    pub closed spec fn dir(&self) -> PathBuf {
        self.storage_dir
    }

    /// The plugin that keeps the preferences of `app_name` below the
    /// configuration directory `config_dir`.
    pub fn in_dir(config_dir: Option<PathBuf>, app_name: &str) -> (plugin: Self)
        ensures
            plugin.dir() == prefs_dir_below(config_dir, app_name@),
    {
        let base = match config_dir {
            Some(found) => found,
            None => text_path("."),
        };
        let storage_dir = join_path(&join_path(&base, app_name), "prefs");
        PrefStorePlugin { storage_dir }
    }

    /// Create a new preference store plugin for the application `app_name`.
    /// Its directory lies below the local configuration directory of this
    /// user on this machine.
    pub fn new(app_name: &str) -> (plugin: Self)
        ensures
            exists|config_dir: Option<PathBuf>|
                plugin.dir() == #[trigger] prefs_dir_below(config_dir, app_name@),
    {
        let config_dir = match base_dirs() {
            Some(dirs) => Some(base_config_local_dir(&dirs)),
            None => None,
        };
        let plugin = PrefStorePlugin::in_dir(config_dir, app_name);
        assert(plugin.dir() == prefs_dir_below(config_dir, app_name@));
        plugin
    }

    /// The name of the plugin.
    pub fn name(&self) -> (name: &'static str)
        ensures
            name@ == "pref_store"@,
    {
        "pref_store"
    }

    /// The state the plugin starts with: nothing cached.
    pub fn init(&self) -> (state: PrefStoreState)
        ensures
            state.cache() == Map::<Seq<char>, Map<Seq<char>, Seq<char>>>::empty(),
            state.dir() == self.dir(),
    {
        PrefStoreState { store: GroupCache::new(), storage_dir: clone_path(&self.storage_dir) }
    }

    /// Handles one message: brings the cache up to date and says which disk
    /// operation is to follow and which output is to be emitted.
    pub fn decide(&self, state: &mut PrefStoreState, message: PrefMessage) -> (decision: (
        PrefEffect,
        Option<PrefOutput>,
    ))
        ensures
            final(state).cache() == pref_next(old(state).cache(), message@),
            final(state).dir() == old(state).dir(),
            decision.0@ == pref_effect(old(state).cache(), old(state).dir(), message@),
            output_view(decision.1) == pref_output(old(state).cache(), message@),
    {
        match message {
            PrefMessage::SetValue { group, key, value } => {
                let data = state.store.put(group.as_str(), key.clone(), value);
                let path = state.group_path(group.as_str());
                let effect = PrefEffect::Save { path, group: group.clone(), data };
                (effect, Some(PrefOutput::ValueSet { group, key }))
            },
            PrefMessage::Get { group, key } => {
                match state.store.lookup(group.as_str(), key.as_str()) {
                    Lookup::Found(value) => (
                        PrefEffect::Idle,
                        Some(PrefOutput::Get { group, key, value }),
                    ),
                    Lookup::NoSuchKey => (
                        PrefEffect::Idle,
                        Some(PrefOutput::NotFound { group, key }),
                    ),
                    Lookup::NotCached => {
                        let path = state.group_path(group.as_str());
                        (PrefEffect::Load { path, group, key }, None)
                    },
                }
            },
            PrefMessage::GetResult { group, key, value } => {
                match value {
                    Some(value) => {
                        let _ = state.store.put(group.as_str(), key.clone(), value.clone());
                        (PrefEffect::Idle, Some(PrefOutput::Get { group, key, value }))
                    },
                    None => (PrefEffect::Idle, Some(PrefOutput::NotFound { group, key })),
                }
            },
            PrefMessage::Delete { group, key } => {
                match state.store.delete(group.as_str(), key.as_str()) {
                    Some(data) => {
                        let path = state.group_path(group.as_str());
                        (
                            PrefEffect::Save { path, group: group.clone(), data },
                            Some(PrefOutput::Deleted { group, key }),
                        )
                    },
                    None => (PrefEffect::Idle, Some(PrefOutput::NotFound { group, key })),
                }
            },
            PrefMessage::SaveResult { group, success } => {
                if !success {
                    (
                        PrefEffect::Idle,
                        Some(
                            PrefOutput::Error {
                                message: join2("Failed to save group: ", group.as_str()),
                            },
                        ),
                    )
                } else {
                    (PrefEffect::Idle, None)
                }
            },
        }
    }
}

impl Clone for PrefStorePlugin {
    fn clone(&self) -> (copy: Self)
        ensures
            copy.dir() == self.dir(),
    {
        PrefStorePlugin { storage_dir: clone_path(&self.storage_dir) }
    }
}

} // verus!
