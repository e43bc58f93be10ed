use vstd::prelude::*;
use vstd::string::*;

verus! {

/// A list of environment assignments as text pairs.
pub open spec fn pairs_view(v: Seq<(String, String)>) -> Seq<(Seq<char>, Seq<char>)> {
    v.map_values(|p: (String, String)| (p.0@, p.1@))
}

/// The environment that results from applying `s` in order: a later
/// assignment of a key replaces an earlier one.
pub open spec fn env_map(s: Seq<(Seq<char>, Seq<char>)>) -> Map<Seq<char>, Seq<char>>
    decreases s.len(),
{
    if s.len() == 0 {
        Map::empty()
    } else {
        env_map(s.drop_last()).insert(s.last().0, s.last().1)
    }
}

/// No key is assigned twice in `s`.
pub open spec fn keys_unique(s: Seq<(Seq<char>, Seq<char>)>) -> bool {
    forall|i: int, j: int| 0 <= i < s.len() && 0 <= j < s.len() && i != j ==> s[i].0 != s[j].0
}

/// Applying `a` and then `b` gives the environment of `a` overlaid by that of `b`.
pub proof fn lemma_env_map_concat(a: Seq<(Seq<char>, Seq<char>)>, b: Seq<(Seq<char>, Seq<char>)>)
    ensures
        env_map(a + b) == env_map(a).union_prefer_right(env_map(b)),
    decreases b.len(),
{
    if b.len() == 0 {
        assert(a + b =~= a);
        assert(env_map(a).union_prefer_right(env_map(b)) =~= env_map(a));
    } else {
        assert((a + b).drop_last() =~= a + b.drop_last());
        lemma_env_map_concat(a, b.drop_last());
        assert(env_map(a + b) =~= env_map(a).union_prefer_right(env_map(b)));
    }
}

/// A key that `s` does not assign stays out of its environment.
proof fn lemma_env_map_absent(s: Seq<(Seq<char>, Seq<char>)>, k: Seq<char>)
    requires
        forall|i: int| 0 <= i < s.len() ==> s[i].0 != k,
    ensures
        !env_map(s).contains_key(k),
    decreases s.len(),
{
    if s.len() > 0 {
        lemma_env_map_absent(s.drop_last(), k);
    }
}

/// Replacing the value of a key that occurs once replaces it in the environment.
proof fn lemma_env_map_update(s: Seq<(Seq<char>, Seq<char>)>, i: int, v: Seq<char>)
    requires
        0 <= i < s.len(),
        keys_unique(s),
    ensures
        env_map(s.update(i, (s[i].0, v))) == env_map(s).insert(s[i].0, v),
    decreases s.len(),
{
    let k = s[i].0;
    let t = s.update(i, (k, v));
    if i == s.len() - 1 {
        assert(t.drop_last() =~= s.drop_last());
        assert(env_map(t) =~= env_map(s).insert(k, v));
    } else {
        assert(t.drop_last() =~= s.drop_last().update(i, (k, v)));
        lemma_env_map_update(s.drop_last(), i, v);
        assert(s.last().0 != k);
        assert(env_map(t) =~= env_map(s).insert(k, v));
    }
}

/// Assigns `val` to `key` in `env`, replacing an earlier value of the key.
pub fn set_env(env: &mut Vec<(String, String)>, key: &str, val: &str)
    requires
        keys_unique(pairs_view(old(env)@)),
    ensures
        keys_unique(pairs_view(final(env)@)),
        env_map(pairs_view(final(env)@)) == env_map(pairs_view(old(env)@)).insert(key@, val@),
{
    let k = String::from_str(key);
    let n = env.len();
    let mut i: usize = 0;
    while i < n
        invariant
            n == env.len(),
            env@ == old(env)@,
            keys_unique(pairs_view(env@)),
            i <= n,
            forall|j: int| 0 <= j < i ==> env@[j].0@ != key@,
            k@ == key@,
        decreases n - i,
    {
        if env[i].0 == k {
            let ghost s = pairs_view(env@);
            env.set(i, (k, String::from_str(val)));
            proof {
                assert(pairs_view(env@) =~= s.update(i as int, (s[i as int].0, val@)));
                lemma_env_map_update(s, i as int, val@);
                assert(keys_unique(pairs_view(env@)));
            }
            return;
        }
        i = i + 1;
    }
    let ghost s = pairs_view(env@);
    proof {
        assert forall|j: int| 0 <= j < s.len() implies s[j].0 != key@ by {}
        lemma_env_map_absent(s, key@);
    }
    env.push((k, String::from_str(val)));
    proof {
        assert(pairs_view(env@) =~= s.push((key@, val@)));
        assert(pairs_view(env@).drop_last() =~= s);
    }
}

} // verus!
