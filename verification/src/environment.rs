//! The shared environment: configuration entries and secrets.
use vstd::prelude::*;
use vstd::hash_map::StringHashMap;
use crate::text::{lowercase, lowercase_spec, matches_at, occurs_at};

verus! {

/// The text of each value of a string map.
pub open spec fn texts(m: Map<Seq<char>, String>) -> Map<Seq<char>, Seq<char>> {
    m.map_values(|s: String| s@)
}

/// The configuration after loading `vars` in order: each variable whose name
/// starts with `prefix` sets the entry named by the lower-cased rest of its
/// name.
pub open spec fn load_vars_spec(m: Map<Seq<char>, Seq<char>>, prefix: Seq<char>, vars: Seq<(Seq<char>, Seq<char>)>) -> Map<Seq<char>, Seq<char>>
    decreases vars.len(),
{
    if vars.len() == 0 {
        m
    } else {
        let before = load_vars_spec(m, prefix, vars.drop_last());
        let (name, value) = vars.last();
        if occurs_at(name, prefix, 0) {
            before.insert(lowercase_spec(name.subrange(prefix.len() as int, name.len() as int)), value)
        } else {
            before
        }
    }
}

/// Configuration entries and credentials shared by the actors of a system.
pub struct Environment {
    config: StringHashMap<String>,
    secrets: StringHashMap<String>,
}

impl Environment {
    /// The configuration entries, by key.
    pub closed spec fn config_view(&self) -> Map<Seq<char>, Seq<char>> {
        texts(self.config@)
    }

    /// The secrets, by key.
    pub closed spec fn secret_view(&self) -> Map<Seq<char>, Seq<char>> {
        texts(self.secrets@)
    }

    /// An empty environment.
    pub fn new() -> (r: Self)
        ensures
            r.config_view() == Map::<Seq<char>, Seq<char>>::empty(),
            r.secret_view() == Map::<Seq<char>, Seq<char>>::empty(),
    {
        let r = Environment { config: StringHashMap::new(), secrets: StringHashMap::new() };
        assert(r.config_view() =~= Map::<Seq<char>, Seq<char>>::empty());
        assert(r.secret_view() =~= Map::<Seq<char>, Seq<char>>::empty());
        r
    }

    /// Sets a configuration entry, replacing any earlier value for the key.
    pub fn set_config(&mut self, key: &str, value: &str)
        ensures
            final(self).config_view() == old(self).config_view().insert(key@, value@),
            final(self).secret_view() == old(self).secret_view(),
    {
        let ghost before = self.config@;
        let v = String::from_str(value);
        self.config.insert(String::from_str(key), v);
        assert(texts(self.config@) =~= texts(before).insert(key@, value@));
    }

    /// The configuration entry for a key, if there is one.
    pub fn get_config(&self, key: &str) -> (r: Option<String>)
        ensures
            match r {
                Some(v) => self.config_view().contains_key(key@) && v@ == self.config_view()[key@],
                None => !self.config_view().contains_key(key@),
            },
    {
        match self.config.get(key) {
            Some(v) => Some(v.clone()),
            None => None,
        }
    }

    /// Sets a secret, replacing any earlier value for the key.
    pub fn set_secret(&mut self, key: &str, value: &str)
        ensures
            final(self).secret_view() == old(self).secret_view().insert(key@, value@),
            final(self).config_view() == old(self).config_view(),
    {
        let ghost before = self.secrets@;
        self.secrets.insert(String::from_str(key), String::from_str(value));
        assert(texts(self.secrets@) =~= texts(before).insert(key@, value@));
    }

    /// The secret for a key, if there is one.
    pub fn get_secret(&self, key: &str) -> (r: Option<String>)
        ensures
            match r {
                Some(v) => self.secret_view().contains_key(key@) && v@ == self.secret_view()[key@],
                None => !self.secret_view().contains_key(key@),
            },
    {
        match self.secrets.get(key) {
            Some(v) => Some(v.clone()),
            None => None,
        }
    }

    /// Whether there is a secret for the key.
    pub fn has_secret(&self, key: &str) -> (r: bool)
        ensures
            r == self.secret_view().contains_key(key@),
    {
        self.secrets.contains_key(key)
    }

    /// Loads configuration entries from `(name, value)` pairs, as read from
    /// the process environment: each pair whose name starts with `prefix`
    /// sets the entry named by the rest of the name in lower case.
    pub fn load_vars(&mut self, prefix: &str, vars: &Vec<(String, String)>)
        ensures
            final(self).config_view() == load_vars_spec(
                old(self).config_view(),
                prefix@,
                vars@.map_values(|p: (String, String)| (p.0@, p.1@)),
            ),
            final(self).secret_view() == old(self).secret_view(),
    {
        let ghost pairs = vars@.map_values(|p: (String, String)| (p.0@, p.1@));
        let ghost start = self.config_view();
        let mut i: usize = 0;
        assert(pairs.subrange(0, 0) =~= Seq::<(Seq<char>, Seq<char>)>::empty());
        while i < vars.len()
            invariant
                i <= vars.len(),
                pairs == vars@.map_values(|p: (String, String)| (p.0@, p.1@)),
                self.secret_view() == old(self).secret_view(),
                self.config_view() == load_vars_spec(start, prefix@, pairs.subrange(0, i as int)),
            decreases vars.len() - i,
        {
            let name = vars[i].0.as_str();
            assert(pairs.subrange(0, i + 1).drop_last() =~= pairs.subrange(0, i as int));
            if name.unicode_len() >= prefix.unicode_len() && matches_at(name, prefix, 0) {
                let n = name.unicode_len();
                let rest = name.substring_char(prefix.unicode_len(), n);
                let key = lowercase(rest);
                self.set_config(key.as_str(), vars[i].1.as_str());
            } else {
                assert(!occurs_at(pairs[i as int].0, prefix@, 0));
            }
            i = i + 1;
        }
        assert(pairs.subrange(0, vars.len() as int) =~= pairs);
    }
}

/// A read after a write: once `value` is written under `key` (by
/// `set_config` or `set_secret`), a read of `key` gives `value`, and a read
/// of any other key gives what it gave before.
pub proof fn lemma_read_after_write(view: Map<Seq<char>, Seq<char>>, key: Seq<char>, value: Seq<char>, other: Seq<char>)
    ensures
        view.insert(key, value).contains_key(key),
        view.insert(key, value)[key] == value,
        other != key ==> (view.insert(key, value).contains_key(other) == view.contains_key(other)),
        other != key && view.contains_key(other) ==> view.insert(key, value)[other] == view[other],
{
}

impl Default for Environment {
    fn default() -> (r: Self)
        ensures
            r.config_view() == Map::<Seq<char>, Seq<char>>::empty(),
            r.secret_view() == Map::<Seq<char>, Seq<char>>::empty(),
    {
        Self::new()
    }
}

} // verus!
