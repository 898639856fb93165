use crate::command::{Command, Reply, Response};
use crate::error::{ErrorKind, RedisError};
use crate::partition::{partition, partition_of};
use crate::shard::{lookup, stored, Contents, Shard};
use std::sync::{Arc, Mutex, MutexGuard};
use vstd::prelude::*;
use vstd::string::StringExecFns;

verus! {

// std's lock and its guard, carried through opaquely: what a shard holds
// while others may change it is not modelled.
#[verifier::external_type_specification]
#[verifier::external_body]
#[verifier::reject_recursive_types(T)]
pub struct ExMutex<T: ?Sized>(Mutex<T>);

#[verifier::external_type_specification]
#[verifier::external_body]
#[verifier::reject_recursive_types(T)]
pub struct ExMutexGuard<'a, T: ?Sized + 'a>(MutexGuard<'a, T>);

/// Relies on std's `Mutex::new`: a lock, not held, around the shard.
#[verifier::external_body]
fn locked_shard(s: Shard) -> Mutex<Shard> {
    Mutex::new(s)
}

/// Relies on std's `Mutex::lock`: blocks until this caller holds the lock,
/// and fails with the poison message when an earlier holder panicked.
#[verifier::external_body]
fn lock_shard(m: &Mutex<Shard>) -> Result<MutexGuard<'_, Shard>, String> {
    match m.lock() {
        Ok(g) => Ok(g),
        Err(e) => Err(e.to_string()),
    }
}

/// Relies on `MutexGuard`'s `DerefMut`: the shard behind the held lock.
#[verifier::external_body]
fn guarded_shard<'a, 'b>(g: &'b mut MutexGuard<'a, Shard>) -> &'b mut Shard {
    &mut *g
}

/// Relies on std's `Arc::clone`: another pointer to the same shards.
#[verifier::external_body]
fn share_shards(a: &Arc<Vec<Mutex<Shard>>>) -> (r: Arc<Vec<Mutex<Shard>>>)
    ensures
        r == *a,
{
    Arc::clone(a)
}

// A model of the whole store as the sequence of its shards' contents, in
// which requests are applied one at a time, as each shard's lock orders them.
/// In the model, the shard contents after a SET of `value` under `key`: only the shard
/// that owns the key changes, by storing the value there.
pub open spec fn contents_after_set(shards: Seq<Contents>, key: Seq<char>, value: Seq<u8>) -> Seq<
    Contents,
> {
    let p = partition_of(key, shards.len()) as int;
    shards.update(p, stored(shards[p], key, value))
}

/// In the model, what a GET of `key` reads: the value in the shard that owns the key.
pub open spec fn read_key(shards: Seq<Contents>, key: Seq<char>) -> Option<Seq<u8>> {
    lookup(shards[partition_of(key, shards.len()) as int], key)
}

/// In the model, a GET returns the value of the latest SET of the same key:
/// both are routed to the same shard, which keeps the last value.
pub proof fn lemma_store_read_your_write(
    shards: Seq<Contents>,
    key: Seq<char>,
    v1: Seq<u8>,
    v2: Seq<u8>,
)
    requires
        shards.len() >= 1,
    ensures
        read_key(contents_after_set(shards, key, v1), key) == Some(v1),
        read_key(contents_after_set(contents_after_set(shards, key, v1), key, v2), key) == Some(v2),
{
    crate::shard::lemma_read_your_write(shards[partition_of(key, shards.len()) as int], key, v1, v2);
}

/// In the model, a SET changes the shard that owns its key and no other, so
/// SETs of keys owned by different shards work on disjoint shards.
pub proof fn lemma_set_touches_only_owner(
    shards: Seq<Contents>,
    key: Seq<char>,
    value: Seq<u8>,
    i: int,
)
    requires
        shards.len() >= 1,
        0 <= i < shards.len(),
        i != partition_of(key, shards.len()),
    ensures
        contents_after_set(shards, key, value).len() == shards.len(),
        contents_after_set(shards, key, value)[i] == shards[i],
{
}

/// In the model, a key never stored in the shard that owns it reads as absent.
pub proof fn lemma_store_unwritten_key_absent(shards: Seq<Contents>, key: Seq<char>)
    requires
        shards.len() >= 1,
        !shards[partition_of(key, shards.len()) as int].contains_key(key),
    ensures
        read_key(shards, key) == None::<Seq<u8>>,
{
}

/// A store of key-value pairs split over a fixed number of shards, each
/// behind its own lock. Clones share the same shards.
pub struct RedisDB {
    db: Arc<Vec<Mutex<Shard>>>,
}

impl Clone for RedisDB {
    /// Another handle on the same shards.
    fn clone(&self) -> (r: RedisDB)
        ensures
            r == *self,
    {
        proof {
            use_type_invariant(self);
        }
        RedisDB { db: share_shards(&self.db) }
    }
}

impl RedisDB {
    /// The number of shards, fixed at construction.
    pub closed spec fn shard_count(&self) -> nat {
        self.db.len() as nat
    }

    #[verifier::type_invariant]
    closed spec fn has_shards(&self) -> bool {
        self.db.len() >= 1
    }

    /// A store of `num_shards` empty shards; zero shards is refused.
    pub fn new(num_shards: usize) -> (r: Result<RedisDB, RedisError>)
        ensures
            num_shards == 0 <==> r is Err,
            r matches Ok(db) ==> db.shard_count() == num_shards,
            r matches Err(e) ==> e.kind == ErrorKind::Construction,
    {
        if num_shards == 0 {
            return Err(RedisError::with_kind(ErrorKind::Construction, "shard count must be at least 1".to_string()));
        }
        let mut shards: Vec<Mutex<Shard>> = Vec::with_capacity(num_shards);
        let mut i: usize = 0;
        while i < num_shards
            invariant
                i <= num_shards,
                shards.len() == i,
            decreases num_shards - i,
        {
            shards.push(locked_shard(Shard::new()));
            i += 1;
        }
        Ok(RedisDB { db: Arc::new(shards) })
    }

    /// The number of shards.
    pub fn num_shards(&self) -> (r: usize)
        ensures
            r == self.shard_count(),
            r >= 1,
    {
        proof {
            use_type_invariant(self);
        }
        self.db.len()
    }

    /// The index of the shard that owns `key`.
    pub fn shade_of(&self, key: &str) -> (r: usize)
        ensures
            r == partition_of(key@, self.shard_count()),
            r < self.shard_count(),
    {
        proof {
            use_type_invariant(self);
        }
        partition(key, self.db.len())
    }

    /// Looks `key` up in the shard that owns it, under that shard's lock.
    pub fn get(&self, key: &str) -> (r: Result<Response, RedisError>)
        ensures
            r matches Ok(resp) ==> resp@ is Value || resp@ is Absent,
            r matches Err(e) ==> e.kind == ErrorKind::ExclusionPoisoned,
    {
        let i = self.shade_of(key);
        let mut guard = match lock_shard(&self.db[i]) {
            Ok(g) => g,
            Err(info) => return Err(RedisError::with_kind(ErrorKind::ExclusionPoisoned, info)),
        };
        let shard = guarded_shard(&mut guard);
        Ok(shard.answer(key))
    }

    /// Stores `value` under `key` in the shard that owns it, under that
    /// shard's lock.
    pub fn set(&self, key: String, value: Vec<u8>) -> (r: Result<Response, RedisError>)
        ensures
            r matches Ok(resp) ==> resp@ == Reply::Acknowledged,
            r matches Err(e) ==> e.kind == ErrorKind::ExclusionPoisoned,
    {
        let i = self.shade_of(key.as_str());
        let mut guard = match lock_shard(&self.db[i]) {
            Ok(g) => g,
            Err(info) => return Err(RedisError::with_kind(ErrorKind::ExclusionPoisoned, info)),
        };
        let shard = guarded_shard(&mut guard);
        shard.set(key, value);
        Ok(Response::Acknowledged)
    }

    /// Carries out one request. GET and SET go to the shard that owns the
    /// key; any other command is refused without touching a shard.
    pub fn execute(&self, cmd: Command) -> (r: Result<Response, RedisError>)
        ensures
            cmd is Other <==> (r matches Err(e) && e.kind == ErrorKind::UnsupportedCommand),
            cmd is Get ==> (r matches Ok(resp) ==> resp@ is Value || resp@ is Absent),
            cmd is Put ==> (r matches Ok(resp) ==> resp@ == Reply::Acknowledged),
            !(cmd is Other) ==> (r matches Err(e) ==> e.kind == ErrorKind::ExclusionPoisoned),
            cmd matches Command::Other { description } ==> (r matches Err(e) && e.info@
                == "invalid cmd: "@ + description@),
            cmd is Other ==> (r matches Err(e) && e.info@.len() >= 13 && e.info@.subrange(0, 13)
                == "invalid cmd: "@),
    {
        match cmd {
            Command::Get { key } => self.get(key.as_str()),
            Command::Put { key, value } => self.set(key, value),
            Command::Other { description } => {
                let info = "invalid cmd: ".to_owned().concat(description.as_str());
                proof {
                    reveal_strlit("invalid cmd: ");
                    assert(info@.subrange(0, 13) =~= "invalid cmd: "@);
                }
                Err(RedisError::with_kind(ErrorKind::UnsupportedCommand, info))
            },
        }
    }
}

} // verus!
