//! The decisions of the store plugin.
use crate::cache::cache_delete;
use crate::cache::cache_holds;
use crate::cache::cache_put;
use crate::cache::CacheView;
use crate::cache::GroupCache;
use crate::cache::Lookup;
use crate::store::app_name::AppName;
use crate::store::app_name::AppNameView;
use crate::store::messages::StoreMessage;
use crate::store::messages::StoreMessageView;
use crate::store::messages::StoreOutput;
use crate::store::messages::StoreOutputView;
use crate::string_map::texts;
use crate::string_map::StringMap;
use crate::text::join2;
use vstd::prelude::*;
use vstd::string::*;

verus! {

/// The plugin state: an in-memory cache of the store data, and the
/// application the data belongs to.
#[derive(Debug)]
pub struct StoreState {
    store: GroupCache,
    app_name: AppName,
}

impl StoreState {
    /// The cached groups.
    pub closed spec fn cache(&self) -> CacheView {
        self.store@
    }

    /// The application the data belongs to.
    pub closed spec fn app(&self) -> AppNameView {
        self.app_name@
    }

    /// The application the data belongs to.
    pub fn app_name(&self) -> (name: &AppName)
        ensures
            name@ == self.app(),
    {
        &self.app_name
    }

    /// Looks `key` up in the cached group `group`.
    pub fn cached(&self, group: &str, key: &str) -> (found: Lookup)
        ensures
            match found {
                Lookup::Found(text) => cache_holds(self.cache(), group@, key@) && text@
                    == self.cache()[group@][key@],
                Lookup::NoSuchKey => self.cache().contains_key(group@)
                    && !self.cache()[group@].contains_key(key@),
                Lookup::NotCached => !self.cache().contains_key(group@),
            },
    {
        self.store.lookup(group, key)
    }
}

/// Store plugin that manages persistent key-value storage.
#[derive(Debug)]
pub struct StorePlugin {
    app_name: AppName,
}

/// The disk operation that the store plugin asks for. Whoever performs it
/// reports back with the message named.
pub enum StoreEffect {
    /// Nothing to do.
    Idle,
    /// Write `data` as the whole content of the file of `group`, then report
    /// `SaveResult` for `group`, with whether the write succeeded.
    Save { app_name: AppName, group: String, data: StringMap<String> },
    /// Read the file of `group`, then report `GetResult` for `group` and
    /// `key`, with the value under `key` if the file holds one.
    Load { app_name: AppName, group: String, key: String },
}

/// A [`StoreEffect`] with its texts.
pub enum StoreEffectView {
    Idle,
    Save { app_name: AppNameView, group: Seq<char>, data: Map<Seq<char>, Seq<char>> },
    Load { app_name: AppNameView, group: Seq<char>, key: Seq<char> },
}

impl View for StoreEffect {
    type V = StoreEffectView;

    open spec fn view(&self) -> StoreEffectView {
        match self {
            StoreEffect::Idle => StoreEffectView::Idle,
            StoreEffect::Save { app_name, group, data } => StoreEffectView::Save {
                app_name: app_name@,
                group: group@,
                data: texts(data@),
            },
            StoreEffect::Load { app_name, group, key } => StoreEffectView::Load {
                app_name: app_name@,
                group: group@,
                key: key@,
            },
        }
    }
}

/// The output of an `Option`, with its texts.
pub open spec fn output_view(output: Option<StoreOutput>) -> Option<StoreOutputView> {
    match output {
        Some(output) => Some(output@),
        None => None,
    }
}

/// The cache after the plugin has handled `message`. Setting a value and
/// learning of a value that was read from disk put it into the cache;
/// deleting takes it out; nothing else changes the cache.
pub open spec fn store_next(cache: CacheView, message: StoreMessageView) -> CacheView {
    match message {
        StoreMessageView::SetValue { group, key, value } => cache_put(cache, group, key, value),
        StoreMessageView::GetResult { group, key, value: Some(value) } => cache_put(
            cache,
            group,
            key,
            value,
        ),
        StoreMessageView::Delete { group, key } => cache_delete(cache, group, key),
        _ => cache,
    }
}

/// The disk operation that handling `message` asks for. A value that was set
/// or deleted makes the group be saved as it then is; a value wanted from a
/// group that is not cached makes the group be loaded.
pub open spec fn store_effect(cache: CacheView, app_name: AppNameView, message: StoreMessageView) -> StoreEffectView {
    match message {
        StoreMessageView::SetValue { group, key, value } => StoreEffectView::Save {
            app_name,
            group,
            data: cache_put(cache, group, key, value)[group],
        },
        StoreMessageView::Get { group, key } => if cache.contains_key(group) {
            StoreEffectView::Idle
        } else {
            StoreEffectView::Load { app_name, group, key }
        },
        StoreMessageView::Delete { group, key } => if cache_holds(cache, group, key) {
            StoreEffectView::Save { app_name, group, data: cache_delete(cache, group, key)[group] }
        } else {
            StoreEffectView::Idle
        },
        _ => StoreEffectView::Idle,
    }
}

/// The output that handling `message` emits.
pub open spec fn store_output(cache: CacheView, message: StoreMessageView) -> Option<
    StoreOutputView,
> {
    match message {
        StoreMessageView::SetValue { group, key, value } => Some(StoreOutputView::ValueSet { group, key }),
        StoreMessageView::Get { group, key } => if cache_holds(cache, group, key) {
            Some(StoreOutputView::Get { group, key, value: cache[group][key] })
        } else if cache.contains_key(group) {
            Some(StoreOutputView::NotFound { group, key })
        } else {
            None
        },
        StoreMessageView::GetResult { group, key, value } => match value {
            Some(value) => Some(StoreOutputView::Get { group, key, value }),
            None => Some(StoreOutputView::NotFound { group, key }),
        },
        StoreMessageView::Delete { group, key } => if cache_holds(cache, group, key) {
            Some(StoreOutputView::Deleted { group, key })
        } else {
            Some(StoreOutputView::NotFound { group, key })
        },
        StoreMessageView::SaveResult { group, success } => if success {
            None
        } else {
            Some(StoreOutputView::Error { message: "Failed to save group: "@ + group })
        },
    }
}

impl StorePlugin {
    /// The application whose data the plugin stores.
    pub closed spec fn app(&self) -> AppNameView {
        self.app_name@
    }

    /// Create a new store plugin for the application `app_name`.
    pub fn new(app_name: AppName) -> (plugin: Self)
        ensures
            plugin.app() == app_name@,
    {
        StorePlugin { app_name }
    }

    /// The name of the plugin.
    pub fn name(&self) -> (name: &'static str)
        ensures
            name@ == "store"@,
    {
        "store"
    }

    /// The state the plugin starts with: nothing cached.
    pub fn init(&self) -> (state: StoreState)
        ensures
            state.cache() == Map::<Seq<char>, Map<Seq<char>, Seq<char>>>::empty(),
            state.app() == self.app(),
    {
        StoreState { store: GroupCache::new(), app_name: self.app_name.clone() }
    }

    /// Handles one message: brings the cache up to date and says which disk
    /// operation is to follow and which output is to be emitted.
    pub fn decide(&self, state: &mut StoreState, message: StoreMessage) -> (decision: (
        StoreEffect,
        Option<StoreOutput>,
    ))
        ensures
            final(state).cache() == store_next(old(state).cache(), message@),
            final(state).app() == old(state).app(),
            decision.0@ == store_effect(old(state).cache(), old(state).app(), message@),
            output_view(decision.1) == store_output(old(state).cache(), message@),
    {
        match message {
            StoreMessage::SetValue { group, key, value } => {
                let data = state.store.put(group.as_str(), key.clone(), value);
                let effect = StoreEffect::Save {
                    app_name: state.app_name.clone(),
                    group: group.clone(),
                    data,
                };
                (effect, Some(StoreOutput::ValueSet { group, key }))
            },
            StoreMessage::Get { group, key } => {
                match state.store.lookup(group.as_str(), key.as_str()) {
                    Lookup::Found(value) => (
                        StoreEffect::Idle,
                        Some(StoreOutput::Get { group, key, value }),
                    ),
                    Lookup::NoSuchKey => (
                        StoreEffect::Idle,
                        Some(StoreOutput::NotFound { group, key }),
                    ),
                    Lookup::NotCached => (
                        StoreEffect::Load { app_name: state.app_name.clone(), group, key },
                        None,
                    ),
                }
            },
            StoreMessage::GetResult { group, key, value } => {
                match value {
                    Some(value) => {
                        let _ = state.store.put(group.as_str(), key.clone(), value.clone());
                        (StoreEffect::Idle, Some(StoreOutput::Get { group, key, value }))
                    },
                    None => (StoreEffect::Idle, Some(StoreOutput::NotFound { group, key })),
                }
            },
            StoreMessage::Delete { group, key } => {
                match state.store.delete(group.as_str(), key.as_str()) {
                    Some(data) => (
                        StoreEffect::Save {
                            app_name: state.app_name.clone(),
                            group: group.clone(),
                            data,
                        },
                        Some(StoreOutput::Deleted { group, key }),
                    ),
                    None => (StoreEffect::Idle, Some(StoreOutput::NotFound { group, key })),
                }
            },
            StoreMessage::SaveResult { group, success } => {
                if !success {
                    (
                        StoreEffect::Idle,
                        Some(
                            StoreOutput::Error {
                                message: join2("Failed to save group: ", group.as_str()),
                            },
                        ),
                    )
                } else {
                    (StoreEffect::Idle, None)
                }
            },
        }
    }
}

impl Clone for StorePlugin {
    fn clone(&self) -> (copy: Self)
        ensures
            copy.app() == self.app(),
    {
        StorePlugin { app_name: self.app_name.clone() }
    }
}

} // verus!
