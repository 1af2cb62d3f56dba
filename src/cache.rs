//! The content cache: thumbnail, set-id, content-hash and audio tables that
//! map a key to a path. The tables keep their entries in insertion order; a
//! later entry for a key overrides an earlier one.

use std::collections::HashMap;
use vstd::prelude::*;
use vstd::string::*;
use crate::paths::{join_path, path_join};
use crate::text::str_eq;

verus! {

broadcast use vstd::std_specs::hash::group_hash_axioms;

pub open spec fn text_map(s: Seq<(String, String)>) -> Map<Seq<char>, Seq<char>>
    decreases s.len(),
{
    if s.len() == 0 {
        Map::empty()
    } else {
        text_map(s.drop_last()).insert(s.last().0@, s.last().1@)
    }
}

/// A table from text keys to paths.
#[derive(Clone, Debug)]
pub struct TextTable {
    entries: Vec<(String, String)>,
}

impl View for TextTable {
    type V = Map<Seq<char>, Seq<char>>;

    closed spec fn view(&self) -> Map<Seq<char>, Seq<char>> {
        text_map(self.entries@)
    }
}

impl TextTable {
    /// The entries in insertion order.
    pub closed spec fn list(&self) -> Seq<(String, String)> {
        self.entries@
    }

    pub fn new() -> (r: TextTable)
        ensures
            r@ == Map::<Seq<char>, Seq<char>>::empty(),
    {
        TextTable { entries: Vec::new() }
    }

    pub fn get(&self, key: &str) -> (r: Option<String>)
        ensures
            r is Some <==> self@.contains_key(key@),
            r is Some ==> r->0@ == self@[key@],
    {
        let ghost s = self.entries@;
        let mut j: usize = self.entries.len();
        assert(s.subrange(0, j as int) =~= s);
        while j > 0
            invariant
                j <= s.len(),
                s == self.entries@,
                text_map(s).contains_key(key@) == text_map(s.subrange(0, j as int)).contains_key(
                    key@,
                ),
                text_map(s).contains_key(key@) ==> text_map(s)[key@] == text_map(
                    s.subrange(0, j as int),
                )[key@],
            decreases j,
        {
            let e = &self.entries[j - 1];
            assert(s.subrange(0, j as int).drop_last() =~= s.subrange(0, j as int - 1));
            if str_eq(e.0.as_str(), key) {
                return Some(e.1.clone());
            }
            j = j - 1;
        }
        None
    }

    pub fn insert(&mut self, key: String, path: String)
        ensures
            final(self)@ == old(self)@.insert(key@, path@),
    {
        let ghost s = self.entries@;
        self.entries.push((key, path));
        assert(self.entries@.drop_last() =~= s);
    }

    pub fn len(&self) -> (r: usize)
        ensures
            r == self.list().len(),
    {
        self.entries.len()
    }

    /// The `i`-th entry in insertion order.
    pub fn entry(&self, i: usize) -> (r: (String, String))
        requires
            i < self.list().len(),
        ensures
            r.0@ == self.list()[i as int].0@,
            r.1@ == self.list()[i as int].1@,
    {
        let e = &self.entries[i];
        (e.0.clone(), e.1.clone())
    }
}

/// A table from set ids to paths.
#[derive(Clone, Debug)]
pub struct IdTable {
    map: HashMap<i32, String>,
}

impl View for IdTable {
    type V = Map<i32, Seq<char>>;

    closed spec fn view(&self) -> Map<i32, Seq<char>> {
        Map::new(|k: i32| self.map@.contains_key(k), |k: i32| self.map@[k]@)
    }
}

impl IdTable {
    pub fn new() -> (r: IdTable)
        ensures
            r@ == Map::<i32, Seq<char>>::empty(),
    {
        let r = IdTable { map: HashMap::new() };
        assert(r@ =~= Map::<i32, Seq<char>>::empty());
        r
    }

    pub fn get(&self, key: i32) -> (r: Option<String>)
        ensures
            r is Some <==> self@.contains_key(key),
            r is Some ==> r->0@ == self@[key],
    {
        match self.map.get(&key) {
            Some(v) => Some(v.clone()),
            None => None,
        }
    }

    pub fn insert(&mut self, key: i32, path: String)
        ensures
            final(self)@ == old(self)@.insert(key, path@),
    {
        self.map.insert(key, path);
        assert(self@ =~= old(self)@.insert(key, path@));
    }

    /// The underlying map, for storing it.
    pub fn as_map(&self) -> (r: &HashMap<i32, String>)
        ensures
            forall|k: i32| #[trigger] r@.contains_key(k) <==> self@.contains_key(k),
            forall|k: i32| #[trigger] r@.contains_key(k) ==> r@[k]@ == self@[k],
    {
        &self.map
    }
}

/// The persisted cache: thumbnails and extracted audio by content hash,
/// destinations by set id and by content hash.
#[derive(Clone, Debug)]
pub struct CacheData {
    pub thumbnails: TextTable,
    pub beatmap_sets: IdTable,
    pub osz_hashes: TextTable,
    pub audio_files: TextTable,
}

impl Default for CacheData {
    fn default() -> (r: Self)
        ensures
            r.thumbnails@ == Map::<Seq<char>, Seq<char>>::empty(),
            r.beatmap_sets@ == Map::<i32, Seq<char>>::empty(),
            r.osz_hashes@ == Map::<Seq<char>, Seq<char>>::empty(),
            r.audio_files@ == Map::<Seq<char>, Seq<char>>::empty(),
    {
        CacheData {
            thumbnails: TextTable::new(),
            beatmap_sets: IdTable::new(),
            osz_hashes: TextTable::new(),
            audio_files: TextTable::new(),
        }
    }
}

/// The cache as the pipeline uses it. Callers that share it across threads
/// hold it behind one lock, so each operation is one step on the whole.
#[derive(Debug)]
pub struct CacheStore {
    pub data: CacheData,
}

impl CacheStore {
    pub fn new(data: CacheData) -> (r: CacheStore)
        ensures
            r.data.thumbnails@ == data.thumbnails@,
            r.data.beatmap_sets@ == data.beatmap_sets@,
            r.data.osz_hashes@ == data.osz_hashes@,
            r.data.audio_files@ == data.audio_files@,
    {
        CacheStore { data }
    }

    pub open spec fn unchanged_but_thumbnails(&self, other: &CacheStore) -> bool {
        &&& self.data.beatmap_sets@ == other.data.beatmap_sets@
        &&& self.data.osz_hashes@ == other.data.osz_hashes@
        &&& self.data.audio_files@ == other.data.audio_files@
    }

    pub fn get_thumbnail(&self, key: &str) -> (r: Option<String>)
        ensures
            r is Some <==> self.data.thumbnails@.contains_key(key@),
            r is Some ==> r->0@ == self.data.thumbnails@[key@],
    {
        self.data.thumbnails.get(key)
    }

    pub fn insert_thumbnail(&mut self, key: String, path: String)
        ensures
            final(self).data.thumbnails@ == old(self).data.thumbnails@.insert(key@, path@),
            final(self).unchanged_but_thumbnails(old(self)),
    {
        self.data.thumbnails.insert(key, path);
    }

    pub fn register_beatmap_set(&mut self, set_id: i32, path: String)
        ensures
            final(self).data.beatmap_sets@ == old(self).data.beatmap_sets@.insert(set_id, path@),
            final(self).data.thumbnails@ == old(self).data.thumbnails@,
            final(self).data.osz_hashes@ == old(self).data.osz_hashes@,
            final(self).data.audio_files@ == old(self).data.audio_files@,
    {
        self.data.beatmap_sets.insert(set_id, path);
    }

    pub fn register_hash(&mut self, hash: String, path: String)
        ensures
            final(self).data.osz_hashes@ == old(self).data.osz_hashes@.insert(hash@, path@),
            final(self).data.thumbnails@ == old(self).data.thumbnails@,
            final(self).data.beatmap_sets@ == old(self).data.beatmap_sets@,
            final(self).data.audio_files@ == old(self).data.audio_files@,
    {
        self.data.osz_hashes.insert(hash, path);
    }

    pub fn register_audio(&mut self, hash: String, path: String)
        ensures
            final(self).data.audio_files@ == old(self).data.audio_files@.insert(hash@, path@),
            final(self).data.thumbnails@ == old(self).data.thumbnails@,
            final(self).data.beatmap_sets@ == old(self).data.beatmap_sets@,
            final(self).data.osz_hashes@ == old(self).data.osz_hashes@,
    {
        self.data.audio_files.insert(hash, path);
    }

    pub fn find_set(&self, set_id: i32) -> (r: Option<String>)
        ensures
            r is Some <==> self.data.beatmap_sets@.contains_key(set_id),
            r is Some ==> r->0@ == self.data.beatmap_sets@[set_id],
    {
        self.data.beatmap_sets.get(set_id)
    }

    pub fn find_hash(&self, hash: &str) -> (r: Option<String>)
        ensures
            r is Some <==> self.data.osz_hashes@.contains_key(hash@),
            r is Some ==> r->0@ == self.data.osz_hashes@[hash@],
    {
        self.data.osz_hashes.get(hash)
    }

    pub fn find_audio(&self, hash: &str) -> (r: Option<String>)
        ensures
            r is Some <==> self.data.audio_files@.contains_key(hash@),
            r is Some ==> r->0@ == self.data.audio_files@[hash@],
    {
        self.data.audio_files.get(hash)
    }
}

/// Relies on `directories::ProjectDirs::from` and `data_local_dir`: the
/// per-user data folder of this application, when the platform has one.
#[verifier::external_body]
fn project_data_dir() -> (r: Option<String>) {
    directories::ProjectDirs::from("dev", "mcosu", "mcosu-importer").map(
        |p| p.data_local_dir().to_string_lossy().to_string(),
    )
}

/// The application's data folder, or the working folder when the platform
/// reports none.
pub fn base_dir() -> (r: String) {
    match project_data_dir() {
        Some(d) => d,
        None => String::from_str("."),
    }
}

pub open spec fn cache_dir_of(base: Seq<char>) -> Seq<char> {
    path_join(base, "cache"@)
}

/// `<base>/cache`.
pub fn cache_dir_under(base: &str) -> (r: String)
    ensures
        r@ == cache_dir_of(base@),
{
    join_path(base, "cache")
}

/// `<base>/cache/<name>`.
pub fn cache_subdir_under(base: &str, name: &str) -> (r: String)
    ensures
        r@ == path_join(cache_dir_of(base@), name@),
{
    join_path(cache_dir_under(base).as_str(), name)
}

pub fn cache_dir() -> (r: String)
    ensures
        exists|b: Seq<char>| r@ == cache_dir_of(b),
{
    cache_dir_under(base_dir().as_str())
}

pub fn thumbnails_dir() -> (r: String)
    ensures
        exists|b: Seq<char>| r@ == path_join(cache_dir_of(b), "thumbnails"@),
{
    cache_subdir_under(base_dir().as_str(), "thumbnails")
}

pub fn audio_cache_dir() -> (r: String)
    ensures
        exists|b: Seq<char>| r@ == path_join(cache_dir_of(b), "audio"@),
{
    cache_subdir_under(base_dir().as_str(), "audio")
}

pub fn preview_dir() -> (r: String)
    ensures
        exists|b: Seq<char>| r@ == path_join(cache_dir_of(b), "preview"@),
{
    cache_subdir_under(base_dir().as_str(), "preview")
}

pub fn logs_dir() -> (r: String)
    ensures
        exists|b: Seq<char>| r@ == path_join(b, "logs"@),
{
    join_path(base_dir().as_str(), "logs")
}

pub fn config_path() -> (r: String)
    ensures
        exists|b: Seq<char>| r@ == path_join(b, "config.json"@),
{
    join_path(base_dir().as_str(), "config.json")
}

pub fn cache_path() -> (r: String)
    ensures
        exists|b: Seq<char>| r@ == path_join(cache_dir_of(b), "cache.json"@),
{
    cache_subdir_under(base_dir().as_str(), "cache.json")
}

} // verus!
