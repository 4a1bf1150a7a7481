use vstd::prelude::*;
use vstd::string::*;

verus! {

/// The tag assumed for a name typed without one: the fixed service region's.
pub const DEFAULT_TAG: &'static str = "EUW";

/// Position of the last `#` in `s`, or -1 when there is none.
pub open spec fn last_hash(s: Seq<char>) -> int
    decreases s.len(),
{
    if s.len() == 0 {
        -1
    } else if s.last() == '#' {
        s.len() - 1
    } else {
        last_hash(s.drop_last())
    }
}

/// A typed name split into game name and tag at its last `#`; a name without
/// `#` is a game name with the default tag.
pub open spec fn name_parts(s: Seq<char>) -> (Seq<char>, Seq<char>) {
    let k = last_hash(s);
    if k < 0 {
        (s, DEFAULT_TAG@)
    } else {
        (s.subrange(0, k), s.subrange(k + 1, s.len() as int))
    }
}

proof fn lemma_last_hash_prefix(s: Seq<char>, i: int)
    requires
        0 <= i <= s.len(),
        forall|j: int| i <= j < s.len() ==> s[j] != '#',
    ensures
        last_hash(s) == last_hash(s.subrange(0, i)),
    decreases s.len(),
{
    if s.len() == i {
        assert(s.subrange(0, i) =~= s);
    } else {
        lemma_last_hash_prefix(s.drop_last(), i);
        assert(s.drop_last().subrange(0, i) =~= s.subrange(0, i));
    }
}

/// Splits a typed name into game name and tag, at its last `#`.
pub fn split_player_name(name: &str) -> (r: (String, String))
    ensures
        (r.0@, r.1@) == name_parts(name@),
{
    let n = name.unicode_len();
    let mut i: usize = n;
    while i > 0
        invariant
            n == name@.len(),
            i <= n,
            forall|j: int| i <= j < n ==> name@[j] != '#',
        decreases i,
    {
        if name.get_char(i - 1) == '#' {
            proof {
                lemma_last_hash_prefix(name@, i as int);
            }
            let game = name.substring_char(0, i - 1);
            let tag = name.substring_char(i, n);
            return (String::from_str(game), String::from_str(tag));
        }
        i = i - 1;
    }
    proof {
        lemma_last_hash_prefix(name@, 0);
    }
    (String::from_str(name), String::from_str(DEFAULT_TAG))
}

} // verus!
