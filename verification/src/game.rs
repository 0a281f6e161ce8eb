//! Game kinds, categories and the cache key for paginated listings.

use vstd::prelude::*;

verus! {

/// Closed set of game kinds the platform hosts.
#[derive(Debug, Clone, Copy, PartialEq, Eq, Hash, Structural)]
pub enum GameType {
    Roulette,
    Duel,
    Quiz,
    Imposter,
}

/// Closed set of listing categories.
#[derive(Debug, Clone, Copy, PartialEq, Eq, Hash, Structural)]
pub enum GameCategory {
    Vors,
    Ladies,
    Boys,
    All,
}

/// Gender tag carried on user records.
#[derive(Debug, Clone, Copy, PartialEq, Eq, Structural)]
pub enum Gender {
    Male,
    Female,
    Unknown,
}

impl GameType {
    /// What `as_str` returns for each kind.
    pub open spec fn spec_as_str(self) -> Seq<char> {
        match self {
            GameType::Quiz => "quiz"@,
            GameType::Duel => "duel"@,
            GameType::Roulette => "roulette"@,
            GameType::Imposter => "imposter"@,
        }
    }

    /// Short name of the kind, used in URLs and payload dispatch.
    pub fn as_str(&self) -> (r: &'static str)
        ensures
            r@ == self.spec_as_str(),
    {
        match self {
            GameType::Quiz => "quiz",
            GameType::Duel => "duel",
            GameType::Roulette => "roulette",
            GameType::Imposter => "imposter",
        }
    }

    /// What `hub_name` returns for each kind: roulette and duel share the
    /// spin hub.
    pub open spec fn spec_hub_name(self) -> Seq<char> {
        match self {
            GameType::Quiz => "quiz"@,
            GameType::Duel => "spin"@,
            GameType::Roulette => "spin"@,
            GameType::Imposter => "imposter"@,
        }
    }

    /// Name of the real-time hub a client of this kind connects to.
    pub fn hub_name(&self) -> (r: &'static str)
        ensures
            r@ == self.spec_hub_name(),
    {
        match self {
            GameType::Quiz => "quiz",
            GameType::Duel | GameType::Roulette => "spin",
            GameType::Imposter => "imposter",
        }
    }

    /// What `table_name` returns for each kind: roulette and duel share the
    /// spin table.
    pub open spec fn spec_table_name(self) -> Seq<char> {
        match self {
            GameType::Quiz => "quiz_game"@,
            GameType::Duel => "spin_game"@,
            GameType::Roulette => "spin_game"@,
            GameType::Imposter => "imposter_game"@,
        }
    }

    /// Name of the per-kind table holding this kind's sessions.
    pub fn table_name(&self) -> (r: &'static str)
        ensures
            r@ == self.spec_table_name(),
    {
        match self {
            GameType::Quiz => "quiz_game",
            GameType::Duel | GameType::Roulette => "spin_game",
            GameType::Imposter => "imposter_game",
        }
    }
}

/// Key of one memoized listing page: page index, game kind, and an
/// optional category filter.
#[derive(Debug, Clone, PartialEq, Eq, Hash, Structural)]
pub struct GameCacheKey {
    pub page_num: u16,
    pub game_type: GameType,
    pub category: Option<GameCategory>,
}

/// Body of a listing request; carries the same fields as the cache key.
#[derive(Debug, Clone)]
pub struct GamePageQuery {
    pub page_num: u16,
    pub game_type: GameType,
    pub category: Option<GameCategory>,
}

impl GameCacheKey {
    /// Cache key of a listing request, field for field.
    pub fn from_query(query: &GamePageQuery) -> (r: Self)
        ensures
            r.page_num == query.page_num,
            r.game_type == query.game_type,
            r.category == query.category,
    {
        Self { page_num: query.page_num, game_type: query.game_type, category: query.category }
    }
}

/// Numeric code of a game kind, used by the cache-key encoding.
pub open spec fn kind_code(t: GameType) -> int {
    match t {
        GameType::Roulette => 0,
        GameType::Duel => 1,
        GameType::Quiz => 2,
        GameType::Imposter => 3,
    }
}

/// Numeric code of an optional category, used by the cache-key encoding.
pub open spec fn category_code(c: Option<GameCategory>) -> int {
    match c {
        Option::None => 0,
        Option::Some(GameCategory::Vors) => 1,
        Option::Some(GameCategory::Ladies) => 2,
        Option::Some(GameCategory::Boys) => 3,
        Option::Some(GameCategory::All) => 4,
    }
}

/// The structural cache key packed into one integer. The packing is
/// injective: page, kind and category occupy disjoint digit ranges.
pub open spec fn spec_encode_key(k: GameCacheKey) -> int {
    k.page_num * 32 + kind_code(k.game_type) * 8 + category_code(k.category)
}

/// Packs a cache key into a `u32`. Stable across runs: the code depends
/// on the fields alone.
pub fn encode_key(k: &GameCacheKey) -> (r: u32)
    ensures
        r == spec_encode_key(*k),
{
    let kind: u32 = match k.game_type {
        GameType::Roulette => 0,
        GameType::Duel => 1,
        GameType::Quiz => 2,
        GameType::Imposter => 3,
    };
    let cat: u32 = match k.category {
        Option::None => 0,
        Option::Some(GameCategory::Vors) => 1,
        Option::Some(GameCategory::Ladies) => 2,
        Option::Some(GameCategory::Boys) => 3,
        Option::Some(GameCategory::All) => 4,
    };
    (k.page_num as u32) * 32 + kind * 8 + cat
}

/// Body of a listing request for games a user saved.
#[derive(Debug, Clone, Copy)]
pub struct SavedGamesPageQuery {
    pub page_num: Option<u8>,
}

/// Body of a request to create a game.
#[derive(Debug, Clone)]
pub struct CreateGameRequest {
    pub name: String,
    pub category: GameCategory,
}

impl CreateGameRequest {
    /// A request for the given name in the catch-all category.
    pub fn new(name: String) -> (r: Self)
        ensures
            r.name == name,
            r.category == GameCategory::All,
    {
        Self { name, category: GameCategory::All }
    }
}

/// What the deletion of a game reports back, so the listing cache can be
/// invalidated for the right kind and category.
#[derive(Debug, Clone, Copy, PartialEq, Eq, Structural)]
pub struct DeleteGameResult {
    pub game_type: GameType,
    pub category: GameCategory,
}

/// One game's base record. Identifiers are carried as 128-bit values and
/// times as seconds since the epoch.
#[derive(Debug, Clone)]
pub struct GameBase {
    pub id: u128,
    pub name: String,
    pub game_type: GameType,
    pub category: GameCategory,
    pub iterations: i32,
    pub times_played: i32,
    pub last_played: i64,
    pub synced: bool,
}

/// Relies on uuid's `Uuid::new_v4`: a fresh random identifier, returned
/// as its 128-bit value. Nothing is assumed of the value drawn.
#[verifier::external_body]
fn fresh_uuid() -> (r: u128) {
    uuid::Uuid::new_v4().as_u128()
}

/// Relies on chrono's `Utc::now`: the current time, as seconds since the
/// epoch. Nothing is assumed of the value read.
#[verifier::external_body]
fn utc_now_timestamp() -> (r: i64) {
    chrono::Utc::now().timestamp()
}

impl GameBase {
    /// A fresh, never-played base record for the request: new identifier,
    /// the request's name and category, counters at zero, not synced.
    pub fn from_request(request: &CreateGameRequest, game_type: GameType) -> (r: Self)
        ensures
            r.name == request.name,
            r.game_type == game_type,
            r.category == request.category,
            r.iterations == 0,
            r.times_played == 0,
            !r.synced,
    {
        Self {
            id: fresh_uuid(),
            name: request.name.clone(),
            game_type,
            category: request.category,
            iterations: 0,
            times_played: 0,
            last_played: utc_now_timestamp(),
            synced: false,
        }
    }
}

/// A packed cache key fits in 32 bits.
pub proof fn lemma_encode_key_in_range(k: GameCacheKey)
    ensures
        0 <= spec_encode_key(k) < 0x1_0000_0000,
{
}

/// Two distinct cache keys never pack to the same integer, so the cache,
/// which is keyed by the packed form, never conflates two listing pages.
pub proof fn lemma_encode_key_injective(k1: GameCacheKey, k2: GameCacheKey)
    requires
        spec_encode_key(k1) == spec_encode_key(k2),
    ensures
        k1 == k2,
{
    assert(kind_code(k1.game_type) * 8 + category_code(k1.category) < 32);
    assert(kind_code(k2.game_type) * 8 + category_code(k2.category) < 32);
}

} // verus!
