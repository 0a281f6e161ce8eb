//! The page cache: memoizes paginated game listings under the packed
//! cache key, with idle-time eviction and targeted invalidation.

use vstd::map::*;
use vstd::prelude::*;

use crate::game::{
    spec_encode_key, category_code, encode_key, kind_code, GameBase, GameCacheKey, GameCategory,
    GameType,
};
use crate::paging::PagedResponse;

verus! {

/// One memoized page and the time it was last written or read.
#[derive(Debug, Clone)]
pub struct CacheEntry {
    /// Seconds since the epoch of the last write or fresh read.
    pub timestamp: u64,
    /// The memoized page.
    pub value: PagedResponse<GameBase>,
}

/// The contents of the concurrent map holding the cache, as a
/// mathematical map from packed cache key to entry.
pub uninterp spec fn cache_contents(m: dashmap::DashMap<u32, CacheEntry>) -> Map<u32, CacheEntry>;

/// The empty cache map.
pub open spec fn cache_empty() -> Map<u32, CacheEntry> {
    Map::empty()
}

/// Relies on dashmap's `DashMap::new`: the new map is empty.
#[verifier::external_body]
fn cache_map_new() -> (r: dashmap::DashMap<u32, CacheEntry>)
    ensures
        cache_contents(r) == cache_empty(),
{
    dashmap::DashMap::new()
}

/// Relies on dashmap's `DashMap::get`, and on the derived clone of the
/// entry being field-for-field: returns the value stored under the key,
/// if any.
#[verifier::external_body]
fn cache_map_get(m: &dashmap::DashMap<u32, CacheEntry>, k: u32) -> (r: Option<CacheEntry>)
    ensures
        r == (if cache_contents(*m).dom().contains(k) {
            Some(cache_contents(*m)[k])
        } else {
            None::<CacheEntry>
        }),
{
    m.get(&k).map(|entry| entry.value().clone())
}

/// Relies on dashmap's `DashMap::insert`: maps the key to the value.
#[verifier::external_body]
fn cache_map_insert(m: &mut dashmap::DashMap<u32, CacheEntry>, k: u32, v: CacheEntry)
    ensures
        cache_contents(*final(m)) == cache_contents(*old(m)).insert(k, v),
{
    m.insert(k, v);
}

/// Relies on dashmap's `DashMap::remove`: unmaps the key.
#[verifier::external_body]
fn cache_map_remove(m: &mut dashmap::DashMap<u32, CacheEntry>, k: u32)
    ensures
        cache_contents(*final(m)) == cache_contents(*old(m)).remove(k),
{
    m.remove(&k);
}

/// Relies on dashmap's `DashMap::iter`: yields each entry exactly once.
/// The order of the keys is unspecified.
#[verifier::external_body]
fn cache_map_keys(m: &dashmap::DashMap<u32, CacheEntry>) -> (r: Vec<u32>)
    ensures
        r@.no_duplicates(),
        forall|k: u32| #![auto] r@.contains(k) <==> cache_contents(*m).dom().contains(k),
{
    m.iter().map(|entry| *entry.key()).collect()
}

/// Whether the packed value is the encoding of some cache key.
pub open spec fn is_key_code(c: u32) -> bool {
    exists|k: GameCacheKey| spec_encode_key(k) == c as int
}

/// Whether the packed value encodes a key that an invalidation of the
/// given kind and category must drop: same kind, and either the same
/// category or no category filter.
pub open spec fn code_matches(c: u32, kind: GameType, cat: GameCategory) -> bool {
    exists|k: GameCacheKey|
        {
            &&& #[trigger] spec_encode_key(k) == c as int
            &&& k.game_type == kind
            &&& (k.category == Some(cat) || k.category is None)
        }
}

/// The fields of a packed key, recovered by division: the encoding puts
/// the category in the low three bits, the kind in the next two, and the
/// page above them.
proof fn lemma_code_fields(k: GameCacheKey)
    ensures
        0 <= spec_encode_key(k) < 0x1_0000_0000,
        spec_encode_key(k) % 8 == category_code(k.category),
        (spec_encode_key(k) % 32) / 8 == kind_code(k.game_type),
        spec_encode_key(k) / 32 == k.page_num as int,
{
    let p = k.page_num as int;
    let kc = kind_code(k.game_type);
    let cc = category_code(k.category);
    let e = spec_encode_key(k);
    assert(e == p * 32 + kc * 8 + cc);
    assert(e % 8 == cc) by (nonlinear_arith)
        requires
            e == p * 32 + kc * 8 + cc,
            0 <= cc < 8,
            0 <= kc,
            0 <= p,
    ;
    assert((e % 32) == kc * 8 + cc) by (nonlinear_arith)
        requires
            e == p * 32 + kc * 8 + cc,
            0 <= kc * 8 + cc < 32,
            0 <= p,
    ;
    assert((kc * 8 + cc) / 8 == kc) by (nonlinear_arith)
        requires
            0 <= cc < 8,
            0 <= kc,
    ;
    assert(e / 32 == p) by (nonlinear_arith)
        requires
            e == p * 32 + kc * 8 + cc,
            0 <= kc * 8 + cc < 32,
            0 <= p,
    ;
}

/// Decides whether the packed value must be dropped by an invalidation
/// of the given kind and category.
fn code_matches_exec(c: u32, kind: &GameType, cat: &GameCategory) -> (r: bool)
    requires
        is_key_code(c),
    ensures
        r == code_matches(c, *kind, *cat),
{
    let ghost w = choose|k: GameCacheKey| spec_encode_key(k) == c as int;
    proof {
        lemma_code_fields(w);
    }
    let rem = c % 32;
    let kind_bits = rem / 8;
    let cat_bits = c % 8;
    let want_kind: u32 = match kind {
        GameType::Roulette => 0,
        GameType::Duel => 1,
        GameType::Quiz => 2,
        GameType::Imposter => 3,
    };
    let want_cat: u32 = match cat {
        GameCategory::Vors => 1,
        GameCategory::Ladies => 2,
        GameCategory::Boys => 3,
        GameCategory::All => 4,
    };
    let matched = kind_bits == want_kind && (cat_bits == want_cat || cat_bits == 0);
    proof {
        assert(rem == spec_encode_key(w) % 32);
        assert(cat_bits == category_code(w.category));
        assert(kind_bits == kind_code(w.game_type));
        if matched {
            assert(w.game_type == *kind);
            assert(w.category == Some(*cat) || w.category is None);
            assert(code_matches(c, *kind, *cat));
        }
        if code_matches(c, *kind, *cat) {
            let m = choose|k: GameCacheKey|
                {
                    &&& #[trigger] spec_encode_key(k) == c as int
                    &&& k.game_type == *kind
                    &&& (k.category == Some(*cat) || k.category is None)
                };
            crate::game::lemma_encode_key_injective(m, w);
            assert(matched);
        }
    }
    matched
}

/// What an invalidation of a kind and category drops, stated over the
/// structural key: the packed form of `k` matches exactly when `k` is of
/// that kind and its category filter is that category or absent. Pages
/// of another kind, or of the same kind with a different category
/// filter, never match.
pub proof fn lemma_invalidate_scoping(k: GameCacheKey, kind: GameType, cat: GameCategory)
    ensures
        code_matches(spec_encode_key(k) as u32, kind, cat) <==> (k.game_type == kind && (
        k.category == Some(cat) || k.category is None)),
{
    crate::game::lemma_encode_key_in_range(k);
    let c = spec_encode_key(k) as u32;
    assert(c as int == spec_encode_key(k));
    if code_matches(c, kind, cat) {
        let m = choose|m: GameCacheKey|
            {
                &&& #[trigger] spec_encode_key(m) == c as int
                &&& m.game_type == kind
                &&& (m.category == Some(cat) || m.category is None)
            };
        crate::game::lemma_encode_key_injective(m, k);
    }
    if k.game_type == kind && (k.category == Some(cat) || k.category is None) {
        assert(spec_encode_key(k) == c as int);
        assert(code_matches(c, kind, cat));
    }
}

/// The page cache: a concurrent map from packed cache key to entry, and
/// the idle lifetime of an entry in seconds.
pub struct GustCache {
    cache: dashmap::DashMap<u32, CacheEntry>,
    ttl: u64,
}

impl GustCache {
    /// The memoized pages: packed cache key to entry.
    pub closed spec fn contents(self) -> Map<u32, CacheEntry> {
        cache_contents(self.cache)
    }

    /// The idle lifetime of an entry, in seconds.
    pub closed spec fn ttl(self) -> u64 {
        self.ttl
    }

    /// Well-formedness: finitely many entries, every key a packed cache
    /// key.
    pub closed spec fn wf(self) -> bool {
        &&& self.contents().dom().finite()
        &&& forall|c: u32| #[trigger] self.contents().dom().contains(c) ==> is_key_code(c)
    }

    /// An empty cache whose entries idle out after `ttl_secs` seconds.
    pub fn from_ttl(ttl_secs: u64) -> (r: Self)
        ensures
            r.wf(),
            r.ttl() == ttl_secs,
            r.contents() == cache_empty(),
    {
        let r = Self { cache: cache_map_new(), ttl: ttl_secs };
        proof {
            assert(r.contents().dom() =~= Set::<u32>::empty());
        }
        r
    }

    /// How many pages are memoized.
    pub fn entry_count(&self) -> (r: usize)
        requires
            self.wf(),
        ensures
            r == self.contents().dom().len(),
    {
        let codes = cache_map_keys(&self.cache);
        proof {
            assert(codes@.to_set() =~= self.contents().dom());
            codes@.unique_seq_to_set();
        }
        codes.len()
    }

    /// Looks the key up at time `now`. A hit returns the memoized page
    /// and refreshes the entry's idle timer; a miss, or an entry idle
    /// for at least the cache's lifetime, returns nothing and leaves the
    /// cache unchanged.
    pub fn get_cached(&mut self, key: &GameCacheKey, now: u64) -> (r: Option<
        PagedResponse<GameBase>,
    >)
        requires
            old(self).wf(),
        ensures
            final(self).wf(),
            final(self).ttl() == old(self).ttl(),
            ({
                let c = spec_encode_key(*key) as u32;
                if old(self).contents().dom().contains(c) && old(self).contents()[c].timestamp
                    + old(self).ttl() > now {
                    &&& r == Some(old(self).contents()[c].value)
                    &&& final(self).contents() == old(self).contents().insert(
                        c,
                        CacheEntry { timestamp: now, value: old(self).contents()[c].value },
                    )
                } else {
                    &&& r is None
                    &&& final(self).contents() == old(self).contents()
                }
            }),
    {
        let c = encode_key(key);
        proof {
            crate::game::lemma_encode_key_in_range(*key);
        }
        match cache_map_get(&self.cache, c) {
            Some(entry) => {
                if (entry.timestamp as u128) + (self.ttl as u128) > (now as u128) {
                    let again = cache_map_get(&self.cache, c);
                    let out = again.unwrap().value;
                    proof {
                        assert(is_key_code(c));
                    }
                    cache_map_insert(
                        &mut self.cache,
                        c,
                        CacheEntry { timestamp: now, value: entry.value },
                    );
                    Some(out)
                } else {
                    None
                }
            },
            None => None,
        }
    }

    /// Memoizes the page under the key, stamped with `now`.
    pub fn insert(&mut self, key: &GameCacheKey, value: PagedResponse<GameBase>, now: u64)
        requires
            old(self).wf(),
        ensures
            final(self).wf(),
            final(self).ttl() == old(self).ttl(),
            final(self).contents() == old(self).contents().insert(
                spec_encode_key(*key) as u32,
                CacheEntry { timestamp: now, value },
            ),
    {
        let c = encode_key(key);
        proof {
            crate::game::lemma_encode_key_in_range(*key);
            assert(is_key_code(c));
        }
        cache_map_insert(&mut self.cache, c, CacheEntry { timestamp: now, value });
    }

    /// Drops every page of the given kind whose category filter is the
    /// given category or absent. Pages of other kinds, and pages of the
    /// same kind filtered to another category, stay untouched.
    #[verifier::loop_isolation(false)]
    pub fn invalidate(&mut self, kind: &GameType, category: &GameCategory)
        requires
            old(self).wf(),
        ensures
            final(self).wf(),
            final(self).ttl() == old(self).ttl(),
            final(self).contents() == Map::new(
                |c: u32|
                    old(self).contents().dom().contains(c) && !code_matches(c, *kind, *category),
                |c: u32| old(self).contents()[c],
            ),
    {
        let codes = cache_map_keys(&self.cache);
        let ghost old_c = self.contents();
        let mut idx: usize = 0;
        while idx < codes.len()
            invariant
                self.ttl == old(self).ttl,
                idx <= codes@.len(),
                forall|c: u32| #![auto]
                    self.contents().dom().contains(c) <==> (old_c.dom().contains(c) && !(
                    codes@.take(idx as int).contains(c) && code_matches(c, *kind, *category))),
                forall|c: u32| #![auto]
                    self.contents().dom().contains(c) ==> self.contents()[c] == old_c[c],
                self.contents().dom().finite(),
            decreases codes@.len() - idx,
        {
            let code = codes[idx];
            let ghost t1 = codes@.take(idx as int + 1);
            let ghost t0 = codes@.take(idx as int);
            proof {
                assert(codes@.contains(codes@[idx as int]));
                assert(old_c.dom().contains(code));
                assert(t1[idx as int] == code);
                assert(t1.contains(code));
                assert forall|c: u32| #![auto] t1.contains(c) == (t0.contains(c) || c
                    == code) by {
                    if t1.contains(c) {
                        let a = choose|a: int| 0 <= a < t1.len() && #[trigger] t1[a] == c;
                        if a < idx as int {
                            assert(t0[a] == c);
                            assert(t0.contains(c));
                        } else {
                            assert(c == code);
                        }
                    }
                    if t0.contains(c) {
                        let a = choose|a: int| 0 <= a < t0.len() && #[trigger] t0[a] == c;
                        assert(t1[a] == c);
                        assert(t1.contains(c));
                    }
                }
            }
            if code_matches_exec(code, kind, category) {
                cache_map_remove(&mut self.cache, code);
            }
            idx = idx + 1;
            proof {
                assert(codes@.take(idx as int) == t1);
            }
        }
        proof {
            assert(idx == codes@.len());
            assert(codes@.take(idx as int) =~= codes@);
            assert(self.contents() =~= Map::new(
                |c: u32| old_c.dom().contains(c) && !code_matches(c, *kind, *category),
                |c: u32| old_c[c],
            ));
        }
    }

    /// Drops every entry that has gone unread for the cache's idle
    /// lifetime or longer, as of `now`; fresher entries stay unchanged.
    #[verifier::loop_isolation(false)]
    pub fn evict_idle(&mut self, now: u64)
        requires
            old(self).wf(),
        ensures
            final(self).wf(),
            final(self).ttl() == old(self).ttl(),
            final(self).contents() == Map::new(
                |c: u32|
                    old(self).contents().dom().contains(c) && old(self).contents()[c].timestamp
                        + old(self).ttl() > now,
                |c: u32| old(self).contents()[c],
            ),
    {
        let codes = cache_map_keys(&self.cache);
        let ghost old_c = self.contents();
        let mut idx: usize = 0;
        while idx < codes.len()
            invariant
                self.ttl == old(self).ttl,
                idx <= codes@.len(),
                forall|c: u32| #![auto]
                    self.contents().dom().contains(c) <==> (old_c.dom().contains(c) && !(
                    codes@.take(idx as int).contains(c) && old_c[c].timestamp + old(self).ttl
                        <= now)),
                forall|c: u32| #![auto]
                    self.contents().dom().contains(c) ==> self.contents()[c] == old_c[c],
                self.contents().dom().finite(),
            decreases codes@.len() - idx,
        {
            let code = codes[idx];
            let ghost t1 = codes@.take(idx as int + 1);
            let ghost t0 = codes@.take(idx as int);
            proof {
                assert(codes@.contains(codes@[idx as int]));
                assert(!t0.contains(code)) by {
                    if t0.contains(code) {
                        let a = choose|a: int| 0 <= a < idx && #[trigger] t0[a] == code;
                        assert(codes@[a] == codes@[idx as int]);
                    }
                }
                assert(old_c.dom().contains(code));
                assert(self.contents().dom().contains(code));
                assert(self.contents()[code] == old_c[code]);
                assert(t1[idx as int] == code);
                assert(t1.contains(code));
                assert forall|c: u32| #![auto] t1.contains(c) == (t0.contains(c) || c
                    == code) by {
                    if t1.contains(c) {
                        let a = choose|a: int| 0 <= a < t1.len() && #[trigger] t1[a] == c;
                        if a < idx as int {
                            assert(t0[a] == c);
                            assert(t0.contains(c));
                        } else {
                            assert(c == code);
                        }
                    }
                    if t0.contains(c) {
                        let a = choose|a: int| 0 <= a < t0.len() && #[trigger] t0[a] == c;
                        assert(t1[a] == c);
                        assert(t1.contains(c));
                    }
                }
            }
            let ghost pre = self.contents();
            match cache_map_get(&self.cache, code) {
                Some(entry) => {
                    if (entry.timestamp as u128) + (self.ttl as u128) <= (now as u128) {
                        cache_map_remove(&mut self.cache, code);
                    }
                },
                None => {},
            }
            proof {
                assert forall|c: u32| #![auto]
                    self.contents().dom().contains(c) <==> (old_c.dom().contains(c) && !(
                    t1.contains(c) && old_c[c].timestamp + old(self).ttl <= now)) by {
                    assert(t1.contains(c) == (t0.contains(c) || c == code));
                    assert(pre.dom().contains(c) == (old_c.dom().contains(c) && !(t0.contains(c)
                        && old_c[c].timestamp + old(self).ttl <= now)));
                }
            }
            idx = idx + 1;
            proof {
                assert(codes@.take(idx as int) == t1);
            }
        }
        proof {
            assert(idx == codes@.len());
            assert(codes@.take(idx as int) =~= codes@);
            assert_maps_equal!(self.contents(), Map::new(
                |c: u32|
                    old(self).contents().dom().contains(c) && old(self).contents()[c].timestamp
                        + old(self).ttl() > now,
                |c: u32| old(self).contents()[c],
            ), c => {
                assert(codes@.take(idx as int).contains(c) == codes@.contains(c));
                assert(codes@.contains(c) == old_c.dom().contains(c));
            });
        }
    }

    /// Best-effort capacity eviction: when more than `max_entries` pages
    /// are held, drops enough of them, chosen arbitrarily, to hold at
    /// most `max_entries`; every surviving entry is unchanged, and a
    /// cache already within the bound is untouched.
    #[verifier::loop_isolation(false)]
    pub fn evict_to_capacity(&mut self, max_entries: usize)
        requires
            old(self).wf(),
        ensures
            final(self).wf(),
            final(self).ttl() == old(self).ttl(),
            final(self).contents().dom().len() <= max_entries,
            forall|c: u32| #![auto]
                final(self).contents().dom().contains(c) ==> old(self).contents().dom().contains(c)
                    && final(self).contents()[c] == old(self).contents()[c],
            old(self).contents().dom().len() <= max_entries ==> final(self).contents() == old(
                self,
            ).contents(),
    {
        let codes = cache_map_keys(&self.cache);
        let ghost old_c = self.contents();
        proof {
            assert(codes@.to_set() =~= old_c.dom());
            codes@.unique_seq_to_set();
        }
        if codes.len() <= max_entries {
            return ;
        }
        proof {
            assert(self.contents() =~= old_c.remove_keys(
                codes@.subrange(max_entries as int, max_entries as int).to_set(),
            ));
        }
        let mut idx: usize = max_entries;
        while idx < codes.len()
            invariant
                self.ttl == old(self).ttl,
                max_entries <= idx <= codes@.len(),
                self.contents() == old_c.remove_keys(
                    codes@.subrange(max_entries as int, idx as int).to_set(),
                ),
            decreases codes@.len() - idx,
        {
            let code = codes[idx];
            let ghost t1 = codes@.subrange(max_entries as int, idx as int + 1);
            let ghost t0 = codes@.subrange(max_entries as int, idx as int);
            proof {
                assert(codes@.contains(codes@[idx as int]));
                assert(old_c.dom().contains(code));
                assert(t1[idx - max_entries] == code);
                assert(t1.contains(code));
            }
            cache_map_remove(&mut self.cache, code);
            proof {
                assert_maps_equal!(self.contents(), old_c.remove_keys(t1.to_set()), c => {
                    if t1.contains(c) {
                        let a = choose|a: int| 0 <= a < t1.len() && #[trigger] t1[a] == c;
                        if a < idx - max_entries {
                            assert(t0[a] == c);
                            assert(t0.contains(c));
                        } else {
                            assert(c == code);
                        }
                    }
                    if t0.contains(c) {
                        let a = choose|a: int| 0 <= a < t0.len() && #[trigger] t0[a] == c;
                        assert(t1[a] == c);
                        assert(t1.contains(c));
                    }
                });
            }
            idx = idx + 1;
            proof {
                assert(codes@.subrange(max_entries as int, idx as int) == t1);
            }
        }
        proof {
            let gone = codes@.subrange(max_entries as int, idx as int);
            let kept = codes@.take(max_entries as int);
            assert forall|c: u32| #![auto]
                self.contents().dom().contains(c) implies kept.to_set().contains(c) by {
                assert(old_c.dom().contains(c));
                assert(codes@.contains(c));
                let a = choose|a: int| 0 <= a < codes@.len() && #[trigger] codes@[a] == c;
                if a >= max_entries {
                    assert(gone[a - max_entries] == c);
                    assert(gone.contains(c));
                } else {
                    assert(kept[a] == c);
                    assert(kept.contains(c));
                }
            }
            kept.lemma_cardinality_of_set();
            vstd::seq_lib::seq_to_set_is_finite::<u32>(kept);
            assert(self.contents().dom().subset_of(kept.to_set()));
            vstd::set_lib::lemma_len_subset(self.contents().dom(), kept.to_set());
        }
    }
}

} // verus!
