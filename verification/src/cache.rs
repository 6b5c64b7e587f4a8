use vstd::prelude::*;

verus! {

/// How long a cached task list lives, in seconds.
pub const CACHE_TTL_SECS: u64 = 3600;

/// The cache key under which a user's task list is kept: `user:<id>:tasks`.
pub open spec fn spec_cache_key(user_id: Seq<char>) -> Seq<char> {
    seq!['u', 's', 'e', 'r', ':'] + user_id + seq![':', 't', 'a', 's', 'k', 's']
}

/// The cache key of a user's task list.
pub fn cache_key(user_id: &str) -> (key: String)
    ensures
        key@ == spec_cache_key(user_id@),
{
    proof {
        reveal_strlit("user:");
        reveal_strlit(":tasks");
    }
    let mut key = String::from_str("user:");
    key.append(user_id);
    key.append(":tasks");
    key
}

/// Two users never share a cache key: the key determines the user id.
pub proof fn lemma_cache_key_injective(a: Seq<char>, b: Seq<char>)
    ensures
        spec_cache_key(a) == spec_cache_key(b) <==> a == b,
{
    if spec_cache_key(a) == spec_cache_key(b) {
        let ka = spec_cache_key(a);
        let kb = spec_cache_key(b);
        assert(ka.len() == a.len() + 11);
        assert(kb.len() == b.len() + 11);
        assert(a =~= ka.subrange(5, 5 + a.len() as int));
        assert(b =~= kb.subrange(5, 5 + b.len() as int));
    }
}

} // verus!
