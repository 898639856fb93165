use vstd::prelude::*;
use vstd::string::StringSliceAdditionalSpecFns;
use vstd::utf8::encode_utf8;

verus! {

/// The shard that owns a key whose UTF-8 encoding is `key_len` bytes long,
/// among `shard_count` shards.
pub open spec fn shard_index(key_len: nat, shard_count: nat) -> nat
    recommends
        shard_count >= 1,
{
    key_len % shard_count
}

/// The length in bytes of the UTF-8 encoding of `key`, as `str::len` reports it.
pub open spec fn byte_len(key: Seq<char>) -> nat {
    (encode_utf8(key).len() as usize) as nat
}

/// The shard that owns `key` among `shard_count` shards.
pub open spec fn partition_of(key: Seq<char>, shard_count: nat) -> nat
    recommends
        shard_count >= 1,
{
    shard_index(byte_len(key), shard_count)
}

/// Routes `key` to one of `shard_count` shards: the key's length in bytes
/// modulo the shard count.
pub fn partition(key: &str, shard_count: usize) -> (r: usize)
    requires
        shard_count >= 1,
    ensures
        r == partition_of(key@, shard_count as nat),
        r < shard_count,
{
    let n = key.len();
    proof {
        assert(key.spec_bytes() == encode_utf8(key@));
    }
    n % shard_count
}

/// Routing depends on the key and the shard count alone: two keys with the
/// same characters land on the same shard, and so do two calls on one key.
pub proof fn lemma_partition_deterministic(k1: Seq<char>, k2: Seq<char>, shard_count: nat)
    requires
        shard_count >= 1,
        k1 == k2,
    ensures
        partition_of(k1, shard_count) == partition_of(k2, shard_count),
        partition_of(k1, shard_count) < shard_count,
{
}

} // verus!
