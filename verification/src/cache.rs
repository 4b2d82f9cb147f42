//! The in-memory cache of a key-value store: groups of keys, each key with
//! a text.
use crate::string_map::texts;
use crate::string_map::StringMap;
use vstd::prelude::*;
use vstd::string::*;

verus! {

/// What a cache holds: for each group that is cached, the text under each
/// of its keys.
pub type CacheView = Map<Seq<char>, Map<Seq<char>, Seq<char>>>;

/// The group `group` of `cache`; empty where the group is not cached.
pub open spec fn group_of(cache: CacheView, group: Seq<char>) -> Map<Seq<char>, Seq<char>> {
    if cache.contains_key(group) {
        cache[group]
    } else {
        Map::empty()
    }
}

/// The cache after `value` was put under `key` in `group`. A group that was
/// not cached is cached afterwards, with that one key.
pub open spec fn cache_put(cache: CacheView, group: Seq<char>, key: Seq<char>, value: Seq<char>) -> CacheView {
    cache.insert(group, group_of(cache, group).insert(key, value))
}

/// Whether `key` can be deleted from `group`: the group is cached and holds
/// the key.
pub open spec fn cache_holds(cache: CacheView, group: Seq<char>, key: Seq<char>) -> bool {
    cache.contains_key(group) && cache[group].contains_key(key)
}

/// The cache after `key` was deleted from `group`. Where there is nothing to
/// delete the cache stays as it is.
pub open spec fn cache_delete(cache: CacheView, group: Seq<char>, key: Seq<char>) -> CacheView {
    if cache_holds(cache, group, key) {
        cache.insert(group, cache[group].remove(key))
    } else {
        cache
    }
}

/// What looking up a key in the cache finds.
#[derive(Debug, PartialEq, Eq)]
pub enum Lookup {
    /// The group is cached and holds the key, with this text.
    Found(String),
    /// The group is cached and does not hold the key.
    NoSuchKey,
    /// The group is not cached.
    NotCached,
}

/// The cache of a key-value store.
#[derive(Debug)]
pub struct GroupCache {
    groups: StringMap<StringMap<String>>,
}

impl GroupCache {
    /// The cached groups.
    pub closed spec fn view(&self) -> CacheView {
        Map::new(
            |group: Seq<char>| self.groups@.contains_key(group),
            |group: Seq<char>| texts(self.groups@[group]@),
        )
    }

    /// A cache without groups.
    pub fn new() -> (cache: Self)
        ensures
            cache@ == Map::<Seq<char>, Map<Seq<char>, Seq<char>>>::empty(),
    {
        let cache = GroupCache { groups: StringMap::new() };
        assert(cache@ =~= Map::<Seq<char>, Map<Seq<char>, Seq<char>>>::empty());
        cache
    }

    /// Looks `key` up in `group`.
    pub fn lookup(&self, group: &str, key: &str) -> (found: Lookup)
        ensures
            match found {
                Lookup::Found(text) => cache_holds(self@, group@, key@) && text@
                    == self@[group@][key@],
                Lookup::NoSuchKey => self@.contains_key(group@) && !self@[group@].contains_key(
                    key@,
                ),
                Lookup::NotCached => !self@.contains_key(group@),
            },
    {
        match self.groups.get(group) {
            Some(data) => match data.get(key) {
                Some(value) => Lookup::Found(value.clone()),
                None => Lookup::NoSuchKey,
            },
            None => Lookup::NotCached,
        }
    }

    /// Puts `value` under `key` in `group` and hands back a copy of what the
    /// group holds afterwards.
    pub fn put(&mut self, group: &str, key: String, value: String) -> (data: StringMap<String>)
        ensures
            final(self)@ == cache_put(old(self)@, group@, key@, value@),
            texts(data@) == final(self)@[group@],
    {
        let mut data = match self.groups.remove(group) {
            Some(data) => data,
            None => StringMap::new(),
        };
        let ghost held = texts(data@);
        assert(held =~= group_of(old(self)@, group@));
        data.insert(key, value);
        assert(texts(data@) =~= held.insert(key@, value@));
        let copy = data.duplicate();
        self.groups.insert(String::from_str(group), data);
        assert(self@ =~= cache_put(old(self)@, group@, key@, value@));
        copy
    }

    /// Deletes `key` from `group`. Where the group held the key, hands back a
    /// copy of what the group holds afterwards; where it did not, changes
    /// nothing.
    pub fn delete(&mut self, group: &str, key: &str) -> (data: Option<StringMap<String>>)
        ensures
            final(self)@ == cache_delete(old(self)@, group@, key@),
            data is Some == cache_holds(old(self)@, group@, key@),
            data matches Some(copy) ==> texts(copy@) == final(self)@[group@],
    {
        let present = match self.groups.get(group) {
            Some(data) => data.contains_key(key),
            None => false,
        };
        if !present {
            return None;
        }
        match self.groups.remove(group) {
            Some(data) => {
                let mut data = data;
                let ghost held = texts(data@);
                let _ = data.remove(key);
                assert(texts(data@) =~= held.remove(key@));
                let copy = data.duplicate();
                self.groups.insert(String::from_str(group), data);
                assert(self@ =~= cache_delete(old(self)@, group@, key@));
                Some(copy)
            },
            None => None,
        }
    }
}

} // verus!
