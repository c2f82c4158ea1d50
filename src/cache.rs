//! The run-scoped cache of principal display names, keyed by the canonical
//! identifier text. It only grows, and each identifier is looked up at most
//! once per run.
use vstd::prelude::*;

verus! {

/// The map that a list of (key, name) pairs stands for; a later pair for the
/// same key wins.
pub open spec fn pairs_map(s: Seq<(String, String)>) -> Map<Seq<char>, Seq<char>>
    decreases s.len(),
{
    if s.len() == 0 {
        Map::empty()
    } else {
        pairs_map(s.drop_last()).insert(s.last().0@, s.last().1@)
    }
}

/// The name shown for `key`: what the lookup found, else the key itself.
pub open spec fn display_name(key: Seq<char>, found: Option<String>) -> Seq<char> {
    match found {
        Some(n) => n@,
        None => key,
    }
}

/// The identifiers that are looked up when `keys` are resolved in turn against
/// a cache that already holds `known`.
pub open spec fn looked_up(known: Set<Seq<char>>, keys: Seq<Seq<char>>) -> Seq<Seq<char>>
    decreases keys.len(),
{
    if keys.len() == 0 {
        Seq::empty()
    } else if known.contains(keys[0]) {
        looked_up(known, keys.drop_first())
    } else {
        seq![keys[0]] + looked_up(known.insert(keys[0]), keys.drop_first())
    }
}

/// Resolving identifiers in turn, with each lookup's result recorded, looks
/// each distinct identifier up at most once, and never one already cached.
pub proof fn lemma_lookup_at_most_once(known: Set<Seq<char>>, keys: Seq<Seq<char>>)
    ensures
        looked_up(known, keys).no_duplicates(),
        forall|x: Seq<char>| #[trigger]
            looked_up(known, keys).contains(x) ==> !known.contains(x) && keys.contains(x),
    decreases keys.len(),
{
    if keys.len() > 0 {
        let tail = keys.drop_first();
        if known.contains(keys[0]) {
            lemma_lookup_at_most_once(known, tail);
            assert forall|x: Seq<char>| #[trigger] tail.contains(x) implies keys.contains(x) by {
                let j = choose|j: int| 0 <= j < tail.len() && tail[j] == x;
                assert(keys[j + 1] == x);
            }
        } else {
            let known2 = known.insert(keys[0]);
            lemma_lookup_at_most_once(known2, tail);
            let rest = looked_up(known2, tail);
            let all = seq![keys[0]] + rest;
            assert(all == looked_up(known, keys));
            assert forall|x: Seq<char>| #[trigger] tail.contains(x) implies keys.contains(x) by {
                let j = choose|j: int| 0 <= j < tail.len() && tail[j] == x;
                assert(keys[j + 1] == x);
            }
            assert forall|x: Seq<char>| #[trigger] all.contains(x) implies !known.contains(x)
                && keys.contains(x) by {
                let j = choose|j: int| 0 <= j < all.len() && all[j] == x;
                if j == 0 {
                    assert(keys[0] == x);
                } else {
                    assert(rest[j - 1] == x);
                    assert(rest.contains(x));
                }
            }
            assert forall|a: int, b: int| 0 <= a < all.len() && 0 <= b < all.len() && a != b
                implies all[a] != all[b] by {
                if a == 0 && b > 0 {
                    assert(rest[b - 1] == all[b]);
                    assert(rest.contains(all[b]));
                } else if b == 0 && a > 0 {
                    assert(rest[a - 1] == all[a]);
                    assert(rest.contains(all[a]));
                }
            }
        }
    }
}

/// Display names of principals, resolved during one run.
pub struct PrincipalCache {
    entries: Vec<(String, String)>,
}

impl View for PrincipalCache {
    type V = Map<Seq<char>, Seq<char>>;

    closed spec fn view(&self) -> Map<Seq<char>, Seq<char>> {
        pairs_map(self.entries@)
    }
}

/// The pair found last for a key gives its name; a key in no pair is absent.
proof fn lemma_pairs_map_at(s: Seq<(String, String)>, k: Seq<char>, i: int)
    requires
        -1 <= i < s.len(),
        i >= 0 ==> s[i].0@ == k,
        forall|j: int| i < j < s.len() ==> (#[trigger] s[j]).0@ != k,
    ensures
        i >= 0 ==> pairs_map(s).contains_key(k) && pairs_map(s)[k] == s[i].1@,
        i < 0 ==> !pairs_map(s).contains_key(k),
    decreases s.len(),
{
    if s.len() > 0 && i < s.len() - 1 {
        let p = s.drop_last();
        assert forall|j: int| i < j < p.len() implies (#[trigger] p[j]).0@ != k by {
            assert(p[j] == s[j]);
        }
        if i >= 0 {
            assert(p[i] == s[i]);
        }
        lemma_pairs_map_at(p, k, i);
    }
}

impl PrincipalCache {
    /// An empty cache.
    pub fn new() -> (r: PrincipalCache)
        ensures
            r@ == Map::<Seq<char>, Seq<char>>::empty(),
    {
        PrincipalCache { entries: Vec::new() }
    }

    /// The cached name of `key`, or `None` when it has not been resolved yet.
    pub fn cached_name(&self, key: &String) -> (r: Option<String>)
        ensures
            r is None <==> !self@.contains_key(key@),
            r matches Some(n) ==> n@ == self@[key@],
    {
        let mut i: usize = self.entries.len();
        while i > 0
            invariant
                i <= self.entries@.len(),
                forall|j: int| i <= j < self.entries@.len() ==> (#[trigger] self.entries@[j]).0@
                    != key@,
            decreases i,
        {
            i = i - 1;
            if self.entries[i].0 == *key {
                proof {
                    lemma_pairs_map_at(self.entries@, key@, i as int);
                }
                return Some(self.entries[i].1.clone());
            }
        }
        proof {
            lemma_pairs_map_at(self.entries@, key@, -1);
        }
        None
    }

    /// Records the result of looking `key` up, and returns the name shown for
    /// it: what the lookup found, else the key itself. A key already cached
    /// keeps its name.
    pub fn record(&mut self, key: String, found: Option<String>) -> (r: String)
        ensures
            old(self)@.contains_key(key@) ==> final(self)@ == old(self)@,
            !old(self)@.contains_key(key@) ==> final(self)@ == old(self)@.insert(
                key@,
                display_name(key@, found),
            ),
            final(self)@.contains_key(key@),
            r@ == final(self)@[key@],
    {
        if let Some(existing) = self.cached_name(&key) {
            return existing;
        }
        let name = match found {
            Some(n) => n,
            None => key.clone(),
        };
        let shown = name.clone();
        let ghost before = self.entries@;
        self.entries.push((key, name));
        proof {
            assert(self.entries@.drop_last() =~= before);
        }
        shown
    }
}

} // verus!
