//! The key vault: issues unique two-word game keys for pending interactive
//! sessions, tracks their lifetime, and reclaims them after an hour.

use vstd::prelude::*;
use vstd::string::StrSliceExecFns;
use vstd::string::StringExecFns;

use crate::game::GameType;
use crate::text::{find_char, str_contains_char, str_eq, substr_to_string};

verus! {

/// Reasons the vault can fail.
#[derive(Debug, Clone, Copy, PartialEq, Eq, Structural)]
pub enum KeyVaultError {
    /// Every pair of words is already issued.
    FullCapacity,
    /// The two word lists differ in length.
    IncompatibleLength,
    /// A word list is empty or too long, or a word holds a space, or a
    /// word repeats within its list.
    InvalidWordList,
}

/// What the vault records for one active key.
#[derive(Debug, Clone, Copy, PartialEq, Eq, Structural)]
pub struct VaultValue {
    /// Seconds since the epoch at which the key was issued.
    pub timestamp: u64,
    /// The game kind the key was issued for.
    pub game_type: GameType,
}

/// The contents of the concurrent map holding the active keys, as a
/// mathematical map from packed index pair to entry.
pub uninterp spec fn vault_contents(m: dashmap::DashMap<u32, VaultValue>) -> Map<u32, VaultValue>;

/// The empty vault map.
pub open spec fn vault_empty() -> Map<u32, VaultValue> {
    Map::empty()
}

/// Relies on dashmap's `DashMap::new`: the new map is empty.
#[verifier::external_body]
fn vault_map_new() -> (r: dashmap::DashMap<u32, VaultValue>)
    ensures
        vault_contents(r) == vault_empty(),
{
    dashmap::DashMap::new()
}

/// Relies on dashmap's `DashMap::get`: returns the value stored under the
/// key, if any.
#[verifier::external_body]
fn vault_map_get(m: &dashmap::DashMap<u32, VaultValue>, k: u32) -> (r: Option<VaultValue>)
    ensures
        r == (if vault_contents(*m).dom().contains(k) {
            Some(vault_contents(*m)[k])
        } else {
            None::<VaultValue>
        }),
{
    m.get(&k).map(|entry| *entry.value())
}

/// Relies on dashmap's `DashMap::insert`: maps the key to the value and
/// returns what the key was mapped to before, if anything.
#[verifier::external_body]
fn vault_map_insert(m: &mut dashmap::DashMap<u32, VaultValue>, k: u32, v: VaultValue) -> (r: Option<
    VaultValue,
>)
    ensures
        vault_contents(*final(m)) == vault_contents(*old(m)).insert(k, v),
        r == (if vault_contents(*old(m)).dom().contains(k) {
            Some(vault_contents(*old(m))[k])
        } else {
            None::<VaultValue>
        }),
{
    m.insert(k, v)
}

/// Relies on dashmap's `DashMap::remove`: unmaps the key and returns what
/// it was mapped to, if anything.
#[verifier::external_body]
fn vault_map_remove(m: &mut dashmap::DashMap<u32, VaultValue>, k: u32) -> (r: Option<VaultValue>)
    ensures
        vault_contents(*final(m)) == vault_contents(*old(m)).remove(k),
        r == (if vault_contents(*old(m)).dom().contains(k) {
            Some(vault_contents(*old(m))[k])
        } else {
            None::<VaultValue>
        }),
{
    m.remove(&k).map(|pair| pair.1)
}

/// Relies on dashmap's `DashMap::iter`: yields each entry exactly once.
/// The order of the keys is unspecified.
#[verifier::external_body]
fn vault_map_keys(m: &dashmap::DashMap<u32, VaultValue>) -> (r: Vec<u32>)
    ensures
        r@.no_duplicates(),
        forall|k: u32| #![auto] r@.contains(k) <==> vault_contents(*m).dom().contains(k),
{
    m.iter().map(|entry| *entry.key()).collect()
}

/// Relies on rand_chacha's `ChaCha8Rng` seeded from the operating system
/// and rand's `Rng::random_range`: each draw lies below the bound. `None`
/// when the operating system gives no entropy.
#[verifier::external_body]
fn random_index_pair(n: u16) -> (r: Option<(u16, u16)>)
    requires
        n >= 1,
    ensures
        r matches Some(p) ==> p.0 < n && p.1 < n,
{
    match <rand_chacha::ChaCha8Rng as rand::SeedableRng>::try_from_os_rng() {
        Ok(mut rng) => {
            let i = rand::Rng::random_range(&mut rng, 0..n);
            let j = rand::Rng::random_range(&mut rng, 0..n);
            Some((i, j))
        },
        Err(_) => None,
    }
}

/// The packed form of the index pair `(i, j)` over lists of length `n`.
pub open spec fn pair_code(n: int, i: int, j: int) -> int {
    i * n + j
}

/// A word list is usable when it is non-empty, fits the packed index
/// range, holds no word with a space, and holds no word twice.
pub open spec fn word_list_ok(ws: Seq<Seq<char>>) -> bool {
    &&& 1 <= ws.len() <= 0xFFFF
    &&& forall|i: int| 0 <= i < ws.len() ==> !(#[trigger] ws[i]).contains(' ')
    &&& forall|i: int, j: int| 0 <= i < j < ws.len() ==> ws[i] != ws[j]
}

/// The key vault. Owns the two word lists, loaded once at startup, and
/// the concurrent map of active keys, keyed by packed index pair.
pub struct KeyVault {
    word_count: u16,
    prefix_words: Vec<String>,
    suffix_words: Vec<String>,
    active_keys: dashmap::DashMap<u32, VaultValue>,
}

impl KeyVault {
    /// Length of each word list.
    pub closed spec fn n(self) -> int {
        self.word_count as int
    }

    /// The prefix words, as character sequences.
    pub closed spec fn prefixes(self) -> Seq<Seq<char>> {
        self.prefix_words@.map_values(|w: String| w@)
    }

    /// The suffix words, as character sequences.
    pub closed spec fn suffixes(self) -> Seq<Seq<char>> {
        self.suffix_words@.map_values(|w: String| w@)
    }

    /// The active keys: packed index pair to issue record.
    pub closed spec fn contents(self) -> Map<u32, VaultValue> {
        vault_contents(self.active_keys)
    }

    /// Well-formedness: the lists are equal-length, usable, and every
    /// active key lies within the packed index range.
    pub closed spec fn wf(self) -> bool {
        &&& self.prefix_words@.len() == self.word_count
        &&& self.suffix_words@.len() == self.word_count
        &&& word_list_ok(self.prefixes())
        &&& word_list_ok(self.suffixes())
        &&& self.contents().dom().finite()
        &&& forall|k: u32| #[trigger]
            self.contents().dom().contains(k) ==> k < self.n() * self.n()
    }

    /// The word lists of a well-formed vault satisfy `word_list_ok`, and
    /// have length `n`.
    pub proof fn lemma_wf_words(self)
        requires
            self.wf(),
        ensures
            word_list_ok(self.prefixes()),
            word_list_ok(self.suffixes()),
            self.prefixes().len() == self.n(),
            self.suffixes().len() == self.n(),
            1 <= self.n() <= 0xFFFF,
    {
    }

    /// The textual form of the key at index pair `(i, j)`:
    /// the prefix word, one space, the suffix word.
    pub open spec fn key_string(self, i: int, j: int) -> Seq<char> {
        self.prefixes()[i] + seq![' '] + self.suffixes()[j]
    }

    /// Packs an index pair into the map key.
    fn encode_pair(&self, i: u16, j: u16) -> (r: u32)
        requires
            self.wf(),
            (i as int) < self.n(),
            (j as int) < self.n(),
        ensures
            r == pair_code(self.n(), i as int, j as int),
            r < self.n() * self.n(),
    {
        proof {
            assert((i as int) * self.n() + (j as int) < self.n() * self.n()) by (nonlinear_arith)
                requires
                    0 <= (i as int) < self.n(),
                    0 <= (j as int) < self.n(),
            ;
            assert(self.n() * self.n() <= 0xFFFF * 0xFFFF) by (nonlinear_arith)
                requires
                    1 <= self.n() <= 0xFFFF,
            ;
        }
        (i as u32) * (self.word_count as u32) + (j as u32)
    }

    /// Builds a vault over the two word lists with no active keys. The
    /// lists must have the same length; each list must be non-empty, fit
    /// the packed index range, hold no word with a space, and hold no
    /// word twice.
    pub fn load_words(prefix_words: Vec<String>, suffix_words: Vec<String>) -> (r: Result<
        KeyVault,
        KeyVaultError,
    >)
        ensures
            ({
                let ps = prefix_words@.map_values(|w: String| w@);
                let ss = suffix_words@.map_values(|w: String| w@);
                &&& (r is Ok <==> ps.len() == ss.len() && word_list_ok(ps) && word_list_ok(ss))
                &&& (ps.len() != ss.len() <==> (r matches Err(e) && e
                    == KeyVaultError::IncompatibleLength))
                &&& (r matches Err(e) ==> e == KeyVaultError::IncompatibleLength || e
                    == KeyVaultError::InvalidWordList)
                &&& (r matches Ok(v) ==> {
                    &&& v.wf()
                    &&& v.n() == ps.len()
                    &&& v.prefixes() == ps
                    &&& v.suffixes() == ss
                    &&& v.contents() == vault_empty()
                })
            }),
    {
        let plen = prefix_words.len();
        let slen = suffix_words.len();
        if plen != slen {
            return Err(KeyVaultError::IncompatibleLength);
        }
        if plen == 0 || plen > 0xFFFF {
            return Err(KeyVaultError::InvalidWordList);
        }
        proof {
            let ps = prefix_words@.map_values(|w: String| w@);
            let ss = suffix_words@.map_values(|w: String| w@);
            assert(forall|i: int|
                0 <= i < prefix_words@.len() ==> ps[i] == (#[trigger] prefix_words@[i])@);
            assert(forall|i: int|
                0 <= i < suffix_words@.len() ==> ss[i] == (#[trigger] suffix_words@[i])@);
        }
        if !word_list_clean(&prefix_words) {
            return Err(KeyVaultError::InvalidWordList);
        }
        if !word_list_clean(&suffix_words) {
            return Err(KeyVaultError::InvalidWordList);
        }
        let vault = KeyVault {
            word_count: plen as u16,
            prefix_words,
            suffix_words,
            active_keys: vault_map_new(),
        };
        proof {
            assert(vault.contents().dom() =~= Set::<u32>::empty());
        }
        Ok(vault)
    }

    /// Issues a new key for the given kind: a pair of words not active at
    /// the call, recorded with the issue time `now`. Draws up to 100
    /// random pairs, then falls back to the first free pair in index
    /// order, so the call succeeds exactly when spare capacity exists;
    /// when none does, the vault is unchanged and the result is
    /// `FullCapacity`.
    #[verifier::loop_isolation(false)]
    pub fn create_key(&mut self, game_type: GameType, now: u64) -> (r: Result<
        String,
        KeyVaultError,
    >)
        requires
            old(self).wf(),
        ensures
            final(self).wf(),
            final(self).n() == old(self).n(),
            final(self).prefixes() == old(self).prefixes(),
            final(self).suffixes() == old(self).suffixes(),
            r matches Ok(s) ==> exists|i: int, j: int|
                #![trigger pair_code(old(self).n(), i, j)]
                {
                    &&& 0 <= i < old(self).n()
                    &&& 0 <= j < old(self).n()
                    &&& !old(self).contents().dom().contains(
                        pair_code(old(self).n(), i, j) as u32,
                    )
                    &&& final(self).contents() == old(self).contents().insert(
                        pair_code(old(self).n(), i, j) as u32,
                        VaultValue { timestamp: now, game_type },
                    )
                    &&& s@ == old(self).key_string(i, j)
                    &&& split_two(s@) == Some(
                        (old(self).prefixes()[i], old(self).suffixes()[j]),
                    )
                },
            r matches Err(e) ==> e == KeyVaultError::FullCapacity && final(self).contents() == old(
                self,
            ).contents() && (forall|k: u32|
                k < old(self).n() * old(self).n() ==> old(self).contents().dom().contains(k)),
            (exists|k: u32|
                k < old(self).n() * old(self).n() && !old(self).contents().dom().contains(k))
                ==> r is Ok,
    {
        let n = self.word_count;
        let ghost n_int = self.n();
        // Randomized phase: up to 100 independent draws.
        let mut tries: usize = 0;
        while tries < 100
            invariant
                *self == *old(self),
            decreases 100 - tries,
        {
            match random_index_pair(n) {
                None => { break; },
                Some(pair) => {
                    let code = self.encode_pair(pair.0, pair.1);
                    if vault_map_get(&self.active_keys, code).is_none() {
                        let value = VaultValue { timestamp: now, game_type };
                        vault_map_insert(&mut self.active_keys, code, value);
                        let key = format_game_key(
                            self.prefix_words[pair.0 as usize].as_str(),
                            self.suffix_words[pair.1 as usize].as_str(),
                        );
                        proof {
                            lemma_game_key_round_trip(
                                self.prefixes()[pair.0 as int],
                                self.suffixes()[pair.1 as int],
                            );
                        }
                        return Ok(key);
                    }
                },
            }
            tries = tries + 1;
        }
        // Exhaustive phase: the first free pair in index order.
        let mut i: u16 = 0;
        while i < n
            invariant
                *self == *old(self),
                i <= n,
                forall|k: u32| #![auto]
                    k < (i as int) * n_int ==> self.contents().dom().contains(k),
            decreases n - i,
        {
            let mut j: u16 = 0;
            while j < n
                invariant
                    *self == *old(self),
                    i < n,
                    j <= n,
                    forall|k: u32| #![auto]
                        k < (i as int) * n_int + (j as int) ==> self.contents().dom().contains(k),
                decreases n - j,
            {
                let code = self.encode_pair(i, j);
                if vault_map_get(&self.active_keys, code).is_none() {
                    let value = VaultValue { timestamp: now, game_type };
                    vault_map_insert(&mut self.active_keys, code, value);
                    let key = format_game_key(
                        self.prefix_words[i as usize].as_str(),
                        self.suffix_words[j as usize].as_str(),
                    );
                    proof {
                        lemma_game_key_round_trip(
                            self.prefixes()[i as int],
                            self.suffixes()[j as int],
                        );
                    }
                    return Ok(key);
                }
                j = j + 1;
            }
            proof {
                assert(((i as int) + 1) * n_int == (i as int) * n_int + n_int) by (nonlinear_arith);
            }
            i = i + 1;
        }
        proof {
            assert(forall|k: u32| #![auto]
                k < n_int * n_int ==> self.contents().dom().contains(k));
        }
        Err(KeyVaultError::FullCapacity)
    }

    /// How many keys are active.
    pub fn active_key_count(&self) -> (r: usize)
        requires
            self.wf(),
        ensures
            r == self.contents().dom().len(),
    {
        let codes = vault_map_keys(&self.active_keys);
        proof {
            assert(codes@.to_set() =~= self.contents().dom());
            codes@.unique_seq_to_set();
        }
        codes.len()
    }

    /// Whether `(i, j)` are in-range indices of the words `p` and `s`.
    pub open spec fn pair_at(self, i: int, j: int, p: Seq<char>, s: Seq<char>) -> bool {
        &&& 0 <= i < self.n()
        &&& 0 <= j < self.n()
        &&& self.prefixes()[i] == p
        &&& self.suffixes()[j] == s
    }

    /// The index pair of the given words, when both occur in the lists.
    pub open spec fn word_pair_index(self, p: Seq<char>, s: Seq<char>) -> Option<(int, int)> {
        if exists|i: int, j: int| self.pair_at(i, j, p, s) {
            Some(choose|i: int, j: int| self.pair_at(i, j, p, s))
        } else {
            None
        }
    }

    /// In a well-formed vault the words of a key determine its index
    /// pair: the lists hold no word twice.
    pub proof fn lemma_word_pair_unique(self, i: int, j: int, p: Seq<char>, s: Seq<char>)
        requires
            self.wf(),
            self.pair_at(i, j, p, s),
        ensures
            self.word_pair_index(p, s) == Some((i, j)),
    {
        let (ci, cj) = choose|a: int, b: int| self.pair_at(a, b, p, s);
        assert(self.pair_at(ci, cj, p, s));
        if ci < i {
            assert(self.prefixes()[ci] != self.prefixes()[i]);
        }
        if i < ci {
            assert(self.prefixes()[i] != self.prefixes()[ci]);
        }
        if cj < j {
            assert(self.suffixes()[cj] != self.suffixes()[j]);
        }
        if j < cj {
            assert(self.suffixes()[j] != self.suffixes()[cj]);
        }
    }

    /// The kind a key was issued for: set when the key's words are in
    /// the lists and the pair is active.
    pub open spec fn spec_key_active(self, p: Seq<char>, s: Seq<char>) -> Option<GameType> {
        match self.word_pair_index(p, s) {
            Some(ij) => if self.contents().dom().contains(
                pair_code(self.n(), ij.0, ij.1) as u32,
            ) {
                Some(self.contents()[pair_code(self.n(), ij.0, ij.1) as u32].game_type)
            } else {
                None
            },
            None => None,
        }
    }

    /// Bridges the word vectors to their character-sequence views.
    proof fn lemma_word_views(self)
        ensures
            forall|i: int|
                0 <= i < self.prefix_words@.len() ==> self.prefixes()[i] == (
                #[trigger] self.prefix_words@[i])@,
            forall|i: int|
                0 <= i < self.suffix_words@.len() ==> self.suffixes()[i] == (
                #[trigger] self.suffix_words@[i])@,
    {
    }

    /// The issuing kind of an active key, or `None`: read-only, and it
    /// does not refresh the issue time.
    pub fn key_active(&self, key: &(String, String)) -> (r: Option<GameType>)
        requires
            self.wf(),
        ensures
            r == self.spec_key_active(key.0@, key.1@),
    {
        proof {
            self.lemma_word_views();
        }
        let pi = match find_word(&self.prefix_words, key.0.as_str()) {
            Some(pi) => pi,
            None => {
                proof {
                    assert(!(exists|i: int, j: int| self.pair_at(i, j, key.0@, key.1@)));
                }
                return None;
            },
        };
        let si = match find_word(&self.suffix_words, key.1.as_str()) {
            Some(si) => si,
            None => {
                proof {
                    assert(!(exists|i: int, j: int| self.pair_at(i, j, key.0@, key.1@)));
                }
                return None;
            },
        };
        proof {
            self.lemma_word_pair_unique(pi as int, si as int, key.0@, key.1@);
        }
        let code = self.encode_pair(pi as u16, si as u16);
        match vault_map_get(&self.active_keys, code) {
            Some(v) => Some(v.game_type),
            None => None,
        }
    }

    /// Removes a key, idempotently: when the words name an index pair,
    /// that pair leaves the active set; otherwise nothing changes. No
    /// error on a missing key.
    pub fn remove_key(&mut self, key: (String, String))
        requires
            old(self).wf(),
        ensures
            final(self).wf(),
            final(self).n() == old(self).n(),
            final(self).prefixes() == old(self).prefixes(),
            final(self).suffixes() == old(self).suffixes(),
            final(self).contents() == (match old(self).word_pair_index(key.0@, key.1@) {
                Some(ij) => old(self).contents().remove(
                    pair_code(old(self).n(), ij.0, ij.1) as u32,
                ),
                None => old(self).contents(),
            }),
    {
        proof {
            self.lemma_word_views();
        }
        let pi = match find_word(&self.prefix_words, key.0.as_str()) {
            Some(pi) => pi,
            None => {
                proof {
                    assert(!(exists|i: int, j: int| self.pair_at(i, j, key.0@, key.1@)));
                }
                return ;
            },
        };
        let si = match find_word(&self.suffix_words, key.1.as_str()) {
            Some(si) => si,
            None => {
                proof {
                    assert(!(exists|i: int, j: int| self.pair_at(i, j, key.0@, key.1@)));
                }
                return ;
            },
        };
        proof {
            self.lemma_word_pair_unique(pi as int, si as int, key.0@, key.1@);
        }
        let code = self.encode_pair(pi as u16, si as u16);
        vault_map_remove(&mut self.active_keys, code);
    }

    /// Reclaims every key issued at or before `now - 3600`: afterwards
    /// exactly the entries younger than an hour remain, unchanged.
    /// Returns how many keys were removed.
    #[verifier::loop_isolation(false)]
    pub fn sweep_expired(&mut self, now: u64) -> (removed: usize)
        requires
            old(self).wf(),
            now >= 3600,
        ensures
            final(self).wf(),
            final(self).n() == old(self).n(),
            final(self).prefixes() == old(self).prefixes(),
            final(self).suffixes() == old(self).suffixes(),
            final(self).contents() == Map::new(
                |k: u32|
                    old(self).contents().dom().contains(k) && old(self).contents()[k].timestamp
                        + 3600 > now,
                |k: u32| old(self).contents()[k],
            ),
            final(self).contents().dom().len() + removed == old(self).contents().dom().len(),
    {
        let codes = vault_map_keys(&self.active_keys);
        let ghost old_c = self.contents();
        let mut idx: usize = 0;
        let mut removed: usize = 0;
        while idx < codes.len()
            invariant
                self.word_count == old(self).word_count,
                self.prefix_words == old(self).prefix_words,
                self.suffix_words == old(self).suffix_words,
                idx <= codes@.len(),
                removed <= idx,
                sweep_step(self.contents(), old_c, codes@, idx as int, now),
                self.contents().dom().finite(),
                self.contents().dom().len() + removed == old_c.dom().len(),
            decreases codes@.len() - idx,
        {
            let code = codes[idx];
            let ghost t1 = codes@.take(idx as int + 1);
            let ghost t0 = codes@.take(idx as int);
            proof {
                assert(codes@.contains(codes@[idx as int]));
                assert(!t0.contains(code)) by {
                    if t0.contains(code) {
                        let a = choose|a: int| 0 <= a < idx && #[trigger] t0[a] == code;
                        assert(codes@[a] == codes@[idx as int]);
                    }
                }
                assert(old_c.dom().contains(code));
                assert(self.contents().dom().contains(code));
                assert(self.contents()[code] == old_c[code]);
                assert(t1[idx as int] == code);
                assert(t1.contains(code));
                assert forall|k: u32| #![auto] t1.contains(k) == (t0.contains(k) || k
                    == code) by {
                    if t1.contains(k) {
                        let a = choose|a: int| 0 <= a < t1.len() && #[trigger] t1[a] == k;
                        if a < idx as int {
                            assert(t0[a] == k);
                            assert(t0.contains(k));
                        } else {
                            assert(k == code);
                        }
                    }
                    if t0.contains(k) {
                        let a = choose|a: int| 0 <= a < t0.len() && #[trigger] t0[a] == k;
                        assert(t1[a] == k);
                        assert(t1.contains(k));
                    }
                }
            }
            let ghost pre = self.contents();
            match vault_map_get(&self.active_keys, code) {
                Some(v) => {
                    if v.timestamp <= now - 3600 {
                        vault_map_remove(&mut self.active_keys, code);
                        removed = removed + 1;
                        proof {
                            vstd::set::axiom_set_remove_len(pre.dom(), code);
                            assert(sweep_step(self.contents(), old_c, codes@, idx as int + 1, now));
                        }
                    } else {
                        proof {
                            assert(sweep_step(self.contents(), old_c, codes@, idx as int + 1, now));
                        }
                    }
                },
                None => {},
            }
            idx = idx + 1;
            proof {
                assert(codes@.take(idx as int) == t1);
            }
        }
        proof {
            assert(idx == codes@.len());
            assert(codes@.take(idx as int) =~= codes@);
            assert forall|k: u32| #![auto]
                self.contents().dom().contains(k) == (old_c.dom().contains(k)
                    && old_c[k].timestamp + 3600 > now) by {
                assert(codes@.take(idx as int).contains(k) == codes@.contains(k));
                assert(codes@.contains(k) == old_c.dom().contains(k));
            }
            assert(self.contents() =~= Map::new(
                |k: u32| old_c.dom().contains(k) && old_c[k].timestamp + 3600 > now,
                |k: u32| old_c[k],
            ));
        }
        removed
    }
}

/// After `upto` of the listed keys have been examined, exactly those of
/// them that had expired are gone, and every remaining entry is
/// unchanged.
spec fn sweep_step(
    cur: Map<u32, VaultValue>,
    before: Map<u32, VaultValue>,
    codes: Seq<u32>,
    upto: int,
    now: u64,
) -> bool {
    &&& forall|k: u32| #![auto]
        cur.dom().contains(k) <==> (before.dom().contains(k) && !(codes.take(upto).contains(k)
            && before[k].timestamp + 3600 <= now))
    &&& forall|k: u32| #![auto] cur.dom().contains(k) ==> cur[k] == before[k]
}

/// Distinct index pairs render distinct textual keys: with space-free,
/// non-repeating word lists, keys issued for different pairs never
/// collide, so concurrently active keys are pairwise distinct strings.
pub proof fn lemma_key_strings_distinct(v: KeyVault, i1: int, j1: int, i2: int, j2: int)
    requires
        v.wf(),
        0 <= i1 < v.n(),
        0 <= j1 < v.n(),
        0 <= i2 < v.n(),
        0 <= j2 < v.n(),
        i1 != i2 || j1 != j2,
    ensures
        v.key_string(i1, j1) != v.key_string(i2, j2),
{
    v.lemma_wf_words();
    let p1 = v.prefixes()[i1];
    let s1 = v.suffixes()[j1];
    let p2 = v.prefixes()[i2];
    let s2 = v.suffixes()[j2];
    let k1 = v.key_string(i1, j1);
    let k2 = v.key_string(i2, j2);
    if k1 == k2 {
        assert(k1.len() == p1.len() + 1 + s1.len());
        assert(k2.len() == p2.len() + 1 + s2.len());
        if p1.len() == p2.len() {
            assert forall|t: int| 0 <= t < p1.len() implies p1[t] == p2[t] by {
                assert(k1[t] == k2[t]);
            }
            assert(p1 =~= p2);
            assert(s1.len() == s2.len());
            assert forall|t: int| 0 <= t < s1.len() implies s1[t] == s2[t] by {
                assert(k1[p1.len() + 1 + t] == k2[p2.len() + 1 + t]);
            }
            assert(s1 =~= s2);
            if i1 < i2 {
                assert(v.prefixes()[i1] != v.prefixes()[i2]);
            }
            if i2 < i1 {
                assert(v.prefixes()[i2] != v.prefixes()[i1]);
            }
            if j1 < j2 {
                assert(v.suffixes()[j1] != v.suffixes()[j2]);
            }
            if j2 < j1 {
                assert(v.suffixes()[j2] != v.suffixes()[j1]);
            }
        } else if p1.len() < p2.len() {
            assert(k1[p1.len() as int] == ' ');
            assert(k2[p1.len() as int] == p2[p1.len() as int]);
            assert(p2.contains(' '));
        } else {
            assert(k2[p2.len() as int] == ' ');
            assert(k1[p2.len() as int] == p1[p2.len() as int]);
            assert(p1.contains(' '));
        }
    }
}

proof fn lemma_u32_below_len(b: int)
    requires
        0 <= b <= 0x1_0000_0000,
    ensures
        Set::new(|k: u32| (k as int) < b).finite(),
        Set::new(|k: u32| (k as int) < b).len() == b,
    decreases b,
{
    let s = Set::new(|k: u32| (k as int) < b);
    if b == 0 {
        assert(s =~= Set::empty());
    } else {
        let smaller = Set::new(|k: u32| (k as int) < b - 1);
        lemma_u32_below_len(b - 1);
        assert(((b - 1) as u32) as int == b - 1);
        assert(s =~= smaller.insert((b - 1) as u32));
        assert(!smaller.contains((b - 1) as u32));
        vstd::set::axiom_set_insert_len(smaller, (b - 1) as u32);
    }
}

/// The vault never holds more active keys than there are word pairs:
/// its capacity is the square of the word-list length.
pub proof fn lemma_vault_capacity(v: KeyVault)
    requires
        v.wf(),
    ensures
        v.contents().dom().len() <= v.n() * v.n(),
{
    v.lemma_wf_words();
    assert(v.n() * v.n() <= 0xFFFF * 0xFFFF) by (nonlinear_arith)
        requires
            1 <= v.n() <= 0xFFFF,
    ;
    assert(v.n() * v.n() >= 1) by (nonlinear_arith)
        requires
            v.n() >= 1,
    ;
    let bound = v.n() * v.n();
    let full = Set::new(|k: u32| (k as int) < bound);
    lemma_u32_below_len(bound);
    assert(v.contents().dom().subset_of(full));
    vstd::set_lib::lemma_len_subset(v.contents().dom(), full);
}

/// The index of the first occurrence of `w` in the word list, if any.
fn find_word(words: &Vec<String>, w: &str) -> (r: Option<usize>)
    ensures
        r matches Some(i) ==> i < words@.len() && words@[i as int]@ == w@,
        r is None ==> forall|i: int| 0 <= i < words@.len() ==> (#[trigger] words@[i])@ != w@,
{
    let len = words.len();
    let mut i: usize = 0;
    while i < len
        invariant
            i <= len,
            len == words@.len(),
            forall|a: int| 0 <= a < i ==> (#[trigger] words@[a])@ != w@,
        decreases len - i,
    {
        if str_eq(words[i].as_str(), w) {
            return Some(i);
        }
        i = i + 1;
    }
    None
}

/// Whether no word of the list holds a space and no word repeats.
#[verifier::loop_isolation(false)]
fn word_list_clean(words: &Vec<String>) -> (r: bool)
    ensures
        r == ({
            &&& forall|i: int| 0 <= i < words@.len() ==> !(#[trigger] words@[i])@.contains(' ')
            &&& forall|a: int, b: int| 0 <= a < b < words@.len() ==> words@[a]@ != words@[b]@
        }),
{
    let len = words.len();
    let mut i: usize = 0;
    while i < len
        invariant
            i <= len,
            forall|a: int| 0 <= a < i ==> !(#[trigger] words@[a])@.contains(' '),
            forall|a: int, b: int| 0 <= a < b < i ==> words@[a]@ != words@[b]@,
        decreases len - i,
    {
        if str_contains_char(words[i].as_str(), ' ') {
            return false;
        }
        let mut j: usize = 0;
        while j < i
            invariant
                j <= i,
                forall|b: int| 0 <= b < j ==> words@[b]@ != words@[i as int]@,
            decreases i - j,
        {
            if str_eq(words[j].as_str(), words[i].as_str()) {
                return false;
            }
            j = j + 1;
        }
        i = i + 1;
    }
    true
}

/// The characters of `s` before its first space, or all of `s` when no
/// space occurs.
pub open spec fn until_space(s: Seq<char>) -> Seq<char>
    decreases s.len(),
{
    if s.len() == 0 {
        Seq::empty()
    } else if s[0] == ' ' {
        Seq::empty()
    } else {
        seq![s[0]] + until_space(s.skip(1))
    }
}

/// How a textual game key is read: the characters before the first
/// space, and the characters between the first space and the next one or
/// the end. `None` when the text holds no space.
pub open spec fn split_two(s: Seq<char>) -> Option<(Seq<char>, Seq<char>)>
    decreases s.len(),
{
    if s.len() == 0 {
        None
    } else if s[0] == ' ' {
        Some((Seq::empty(), until_space(s.skip(1))))
    } else {
        match split_two(s.skip(1)) {
            None => None,
            Some(pair) => Some((seq![s[0]] + pair.0, pair.1)),
        }
    }
}

proof fn lemma_until_space_no_space(s: Seq<char>)
    requires
        !s.contains(' '),
    ensures
        until_space(s) == s,
    decreases s.len(),
{
    if s.len() == 0 {
        assert(until_space(s) =~= s);
    } else {
        if s[0] == ' ' {
            assert(s.contains(' '));
        }
        assert(!s.skip(1).contains(' ')) by {
            if s.skip(1).contains(' ') {
                let k = choose|k: int| 0 <= k < s.skip(1).len() && s.skip(1)[k] == ' ';
                assert(s[k + 1] == ' ');
                assert(s.contains(' '));
            }
        }
        lemma_until_space_no_space(s.skip(1));
        assert(seq![s[0]] + s.skip(1) =~= s);
    }
}

proof fn lemma_until_space_at(s: Seq<char>, i: int)
    requires
        0 <= i < s.len(),
        s[i] == ' ',
        forall|j: int| 0 <= j < i ==> s[j] != ' ',
    ensures
        until_space(s) == s.take(i),
    decreases i,
{
    if i == 0 {
        assert(until_space(s) =~= s.take(0));
    } else {
        lemma_until_space_at(s.skip(1), i - 1);
        assert(seq![s[0]] + s.skip(1).take(i - 1) =~= s.take(i));
    }
}

proof fn lemma_split_two_no_space(s: Seq<char>)
    requires
        !s.contains(' '),
    ensures
        split_two(s) is None,
    decreases s.len(),
{
    if s.len() > 0 {
        if s[0] == ' ' {
            assert(s.contains(' '));
        }
        assert(!s.skip(1).contains(' ')) by {
            if s.skip(1).contains(' ') {
                let k = choose|k: int| 0 <= k < s.skip(1).len() && s.skip(1)[k] == ' ';
                assert(s[k + 1] == ' ');
                assert(s.contains(' '));
            }
        }
        lemma_split_two_no_space(s.skip(1));
    }
}

proof fn lemma_split_two_at(s: Seq<char>, i: int)
    requires
        0 <= i < s.len(),
        s[i] == ' ',
        forall|j: int| 0 <= j < i ==> s[j] != ' ',
    ensures
        split_two(s) == Some((s.take(i), until_space(s.skip(i + 1)))),
    decreases i,
{
    if i == 0 {
        assert(s.take(0) =~= Seq::<char>::empty());
    } else {
        lemma_split_two_at(s.skip(1), i - 1);
        assert(seq![s[0]] + s.skip(1).take(i - 1) =~= s.take(i));
        assert(s.skip(1).skip(i) =~= s.skip(i + 1));
    }
}

/// A key formed from two space-free words parses back into exactly those
/// words: the single space between them is the first space of the text.
pub proof fn lemma_game_key_round_trip(p: Seq<char>, s: Seq<char>)
    requires
        !p.contains(' '),
        !s.contains(' '),
    ensures
        split_two(p + seq![' '] + s) == Some((p, s)),
{
    let whole = p + seq![' '] + s;
    assert(whole[p.len() as int] == ' ');
    assert(forall|j: int| 0 <= j < p.len() ==> whole[j] == p[j]);
    assert forall|j: int| 0 <= j < p.len() implies whole[j] != ' ' by {
        if p[j] == ' ' {
            assert(p.contains(' '));
        }
    }
    lemma_split_two_at(whole, p.len() as int);
    assert(whole.take(p.len() as int) =~= p);
    assert(whole.skip(p.len() as int + 1) =~= s);
    lemma_until_space_no_space(s);
}

/// Reads a textual key into its two words: the characters before the
/// first space, and from there to the next space or the end. `None` when
/// no space occurs.
pub fn parse_game_key(s: &str) -> (r: Option<(String, String)>)
    ensures
        r is Some <==> split_two(s@) is Some,
        r matches Some(pair) ==> split_two(s@) == Some((pair.0@, pair.1@)),
{
    let len = s.unicode_len();
    match find_char(s, ' ') {
        None => {
            proof {
                lemma_split_two_no_space(s@);
            }
            None
        },
        Some(i) => {
            let p = substr_to_string(s, 0, i);
            let rest = s.substring_char(i + 1, len);
            proof {
                assert(rest@ =~= s@.skip(i + 1));
            }
            let suf = match find_char(rest, ' ') {
                None => {
                    proof {
                        lemma_until_space_no_space(rest@);
                    }
                    String::from_str(rest)
                },
                Some(j) => {
                    proof {
                        lemma_until_space_at(rest@, j as int);
                    }
                    substr_to_string(rest, 0, j)
                },
            };
            proof {
                lemma_split_two_at(s@, i as int);
            }
            Some((p, suf))
        },
    }
}

/// The textual form of a game key: prefix word, one space, suffix word.
pub fn format_game_key(prefix: &str, suffix: &str) -> (r: String)
    ensures
        r@ == prefix@ + seq![' '] + suffix@,
{
    let mut s = String::new();
    s.append(prefix);
    s.append(" ");
    s.append(suffix);
    proof {
        reveal_strlit(" ");
        assert(" "@ =~= seq![' ']);
        assert(s@ =~= prefix@ + seq![' '] + suffix@);
    }
    s
}

} // verus!
