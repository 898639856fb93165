use vstd::hash_map::StringHashMap;
use crate::command::{Reply, Response};
use vstd::prelude::*;

verus! {

/// What a shard holds: each key at most once, with its value.
pub type Contents = Map<Seq<char>, Seq<u8>>;

/// The value stored under `key`, if any.
pub open spec fn lookup(m: Contents, key: Seq<char>) -> Option<Seq<u8>> {
    if m.contains_key(key) {
        Some(m[key])
    } else {
        None
    }
}

/// The contents after storing `value` under `key`: inserted when absent,
/// replaced when present, every other key untouched.
pub open spec fn stored(m: Contents, key: Seq<char>, value: Seq<u8>) -> Contents {
    m.insert(key, value)
}

/// The bytes of an optional value.
pub open spec fn opt_bytes(o: Option<Vec<u8>>) -> Option<Seq<u8>> {
    match o {
        Some(v) => Some(v@),
        None => None,
    }
}

/// Reading back a key returns the value last stored under it: after storing
/// `v1` under `key` a read gives `v1`, and after then storing `v2` it gives
/// `v2`.
pub proof fn lemma_read_your_write(m: Contents, key: Seq<char>, v1: Seq<u8>, v2: Seq<u8>)
    ensures
        lookup(stored(m, key, v1), key) == Some(v1),
        lookup(stored(stored(m, key, v1), key, v2), key) == Some(v2),
{
}

/// Storing under one key leaves what is read under every other key as it was.
pub proof fn lemma_write_leaves_other_keys(m: Contents, key: Seq<char>, v: Seq<u8>, other: Seq<char>)
    requires
        other != key,
    ensures
        lookup(stored(m, key, v), other) == lookup(m, other),
{
}

/// A key that was never stored reads as absent, in particular on a new shard.
pub proof fn lemma_unwritten_key_absent(m: Contents, key: Seq<char>)
    requires
        !m.contains_key(key),
    ensures
        lookup(m, key) == None::<Seq<u8>>,
        lookup(Map::<Seq<char>, Seq<u8>>::empty(), key) == None::<Seq<u8>>,
{
}

/// The answer to a GET of `key` on contents `m`: the stored bytes, or absent.
pub open spec fn reply_for_get(m: Contents, key: Seq<char>) -> Reply {
    match lookup(m, key) {
        Some(v) => Reply::Value(v),
        None => Reply::Absent,
    }
}

/// One partition of the key space: a map from keys to opaque byte values.
pub struct Shard {
    map: StringHashMap<Vec<u8>>,
}

impl View for Shard {
    type V = Contents;

    closed spec fn view(&self) -> Contents {
        self.map@.map_values(|v: Vec<u8>| v@)
    }
}

impl Shard {
    /// An empty shard.
    pub fn new() -> (s: Shard)
        ensures
            s@ == Map::<Seq<char>, Seq<u8>>::empty(),
    {
        let s = Shard { map: StringHashMap::new() };
        proof {
            assert(s@ =~= Map::<Seq<char>, Seq<u8>>::empty());
        }
        s
    }

    /// The value stored under `key`, if any; the shard is not changed.
    pub fn get(&self, key: &str) -> (r: Option<Vec<u8>>)
        ensures
            opt_bytes(r) == lookup(self@, key@),
    {
        match self.map.get(key) {
            Some(v) => {
                let c = v.clone();
                proof {
                    assert(c@ =~= v@);
                }
                Some(c)
            },
            None => None,
        }
    }

    /// The answer to a GET of `key` on this shard.
    pub fn answer(&self, key: &str) -> (r: Response)
        ensures
            r@ == reply_for_get(self@, key@),
    {
        match self.get(key) {
            Some(v) => Response::Value(v),
            None => Response::Absent,
        }
    }

    /// Stores `value` under `key`, replacing any earlier value.
    pub fn set(&mut self, key: String, value: Vec<u8>)
        ensures
            final(self)@ == stored(old(self)@, key@, value@),
    {
        self.map.insert(key, value);
        proof {
            assert(self@ =~= stored(old(self)@, key@, value@));
        }
    }

    /// The number of keys held.
    pub fn len(&self) -> (r: usize)
        ensures
            r == self@.len(),
    {
        proof {
            assert(self.map@.dom() =~= self@.dom());
            vstd::hash_map::axiom_string_hash_map_spec_len(&self.map);
        }
        self.map.len()
    }
}

} // verus!
