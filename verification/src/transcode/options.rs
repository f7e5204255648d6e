//! Key/value option lists handed to FFmpeg components.

use vstd::prelude::*;

use crate::text::str_equal;

verus! {

/// Options for FFmpeg (muxer or encoder) as key/value pairs, in the order
/// they are given.
#[derive(Debug, Clone)]
pub struct Options {
    pub entries: Vec<(String, String)>,
}

/// The options as pairs of texts.
pub open spec fn option_pairs(entries: Seq<(String, String)>) -> Seq<(Seq<char>, Seq<char>)> {
    entries.map_values(|p: (String, String)| (p.0@, p.1@))
}

/// The value stored under `key`: that of the first pair with that key.
pub open spec fn lookup(pairs: Seq<(Seq<char>, Seq<char>)>, key: Seq<char>) -> Option<Seq<char>>
    decreases pairs.len(),
{
    if pairs.len() == 0 {
        None
    } else if pairs[0].0 == key {
        Some(pairs[0].1)
    } else {
        lookup(pairs.drop_first(), key)
    }
}

/// The first pair with a key is the one `lookup` finds.
pub proof fn lemma_lookup_finds(pairs: Seq<(Seq<char>, Seq<char>)>, k: int)
    requires
        0 <= k < pairs.len(),
        forall|j: int| 0 <= j < k ==> pairs[j].0 != pairs[k].0,
    ensures
        lookup(pairs, pairs[k].0) == Some(pairs[k].1),
    decreases k,
{
    if k > 0 {
        let rest = pairs.drop_first();
        assert(rest[k - 1] == pairs[k]);
        assert forall|j: int| 0 <= j < k - 1 implies #[trigger] rest[j].0 != rest[k - 1].0 by {
            assert(rest[j] == pairs[j + 1]);
        }
        lemma_lookup_finds(rest, k - 1);
    }
}

impl Options {
    /// The value stored under `key`, if any.
    pub fn get(&self, key: &str) -> (r: Option<&str>)
        ensures
            r is Some <==> lookup(option_pairs(self.entries@), key@) is Some,
            r matches Some(v) ==> v@ == lookup(option_pairs(self.entries@), key@)->0,
    {
        let ghost pairs = option_pairs(self.entries@);
        let n = self.entries.len();
        let mut i: usize = 0;
        assert(pairs.skip(0) =~= pairs);
        while i < n
            invariant
                n == self.entries@.len(),
                pairs == option_pairs(self.entries@),
                i <= n,
                lookup(pairs, key@) == lookup(pairs.skip(i as int), key@),
            decreases n - i,
        {
            proof {
                assert(pairs.skip(i as int).drop_first() =~= pairs.skip(i + 1));
                assert(pairs.skip(i as int)[0] == pairs[i as int]);
            }
            if str_equal(self.entries[i].0.as_str(), key) {
                return Some(self.entries[i].1.as_str());
            }
            i = i + 1;
        }
        None
    }
}

} // verus!
