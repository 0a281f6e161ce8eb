use tero_core::cache::GustCache;
use tero_core::game::{GameBase, GameCacheKey, GameCategory, GameType};
use tero_core::paging::PagedResponse;

fn page(tag: i32) -> PagedResponse<GameBase> {
    let row = GameBase {
        id: tag as u128,
        name: format!("game-{}", tag),
        game_type: GameType::Quiz,
        category: GameCategory::All,
        iterations: 0,
        times_played: tag,
        last_played: 0,
        synced: false,
    };
    PagedResponse::new(vec![row], false)
}

fn key(page_num: u16, kind: GameType, category: Option<GameCategory>) -> GameCacheKey {
    GameCacheKey { page_num, game_type: kind, category }
}

#[test]
fn a_fresh_cache_is_empty() {
    let mut cache = GustCache::from_ttl(120);
    assert_eq!(cache.entry_count(), 0);
    assert!(cache.get_cached(&key(0, GameType::Quiz, None), 0).is_none());
}

#[test]
fn a_hit_returns_the_memoized_page() {
    let mut cache = GustCache::from_ttl(120);
    let k = key(1, GameType::Quiz, Some(GameCategory::Boys));
    cache.insert(&k, page(7), 1_000);
    let hit = cache.get_cached(&k, 1_010).unwrap();
    assert_eq!(hit.items.len(), 1);
    assert_eq!(hit.items[0].times_played, 7);
    assert_eq!(cache.entry_count(), 1);
}

#[test]
fn an_idle_entry_expires_after_the_lifetime() {
    let mut cache = GustCache::from_ttl(120);
    let k = key(0, GameType::Duel, None);
    cache.insert(&k, page(1), 1_000);
    // Just inside the idle lifetime.
    assert!(cache.get_cached(&k, 1_119).is_some());
    // The hit refreshed the timer to 1119, so 1238 still hits.
    assert!(cache.get_cached(&k, 1_238).is_some());
    // 1238 + 120 = 1358: at 1360 the entry has idled out.
    assert!(cache.get_cached(&k, 1_360).is_none());
    // The caller recomputes and installs anew.
    cache.insert(&k, page(2), 1_360);
    assert_eq!(cache.get_cached(&k, 1_361).unwrap().items[0].times_played, 2);
}

#[test]
fn evict_idle_drops_only_stale_entries() {
    let mut cache = GustCache::from_ttl(100);
    cache.insert(&key(0, GameType::Quiz, None), page(1), 1_000);
    cache.insert(&key(1, GameType::Quiz, None), page(2), 1_050);
    cache.evict_idle(1_110);
    assert_eq!(cache.entry_count(), 1);
    assert!(cache.get_cached(&key(0, GameType::Quiz, None), 1_110).is_none());
    assert!(cache.get_cached(&key(1, GameType::Quiz, None), 1_110).is_some());
}

#[test]
fn invalidation_is_scoped_to_kind_and_category() {
    let mut cache = GustCache::from_ttl(1_000);
    let a_x = key(0, GameType::Quiz, Some(GameCategory::Boys));
    let a_y = key(0, GameType::Quiz, Some(GameCategory::Ladies));
    let a_none = key(0, GameType::Quiz, None);
    let b_x = key(0, GameType::Duel, Some(GameCategory::Boys));
    cache.insert(&a_x, page(1), 10);
    cache.insert(&a_y, page(2), 10);
    cache.insert(&a_none, page(3), 10);
    cache.insert(&b_x, page(4), 10);

    cache.invalidate(&GameType::Quiz, &GameCategory::Boys);

    assert!(cache.get_cached(&a_x, 11).is_none(), "same kind and category must recompute");
    assert!(cache.get_cached(&a_none, 11).is_none(), "same kind without category must recompute");
    assert!(cache.get_cached(&a_y, 11).is_some(), "another category must still hit");
    assert!(cache.get_cached(&b_x, 11).is_some(), "another kind must still hit");
}

#[test]
fn capacity_eviction_bounds_the_cache() {
    let mut cache = GustCache::from_ttl(1_000);
    for i in 0..5u16 {
        cache.insert(&key(i, GameType::Quiz, None), page(i as i32), 10);
    }
    assert_eq!(cache.entry_count(), 5);
    cache.evict_to_capacity(3);
    assert!(cache.entry_count() <= 3);
    // Within the bound nothing is touched.
    let before = cache.entry_count();
    cache.evict_to_capacity(10);
    assert_eq!(cache.entry_count(), before);
}

#[test]
fn distinct_keys_do_not_collide() {
    let mut cache = GustCache::from_ttl(1_000);
    let k1 = key(3, GameType::Quiz, None);
    let k2 = key(3, GameType::Quiz, Some(GameCategory::All));
    let k3 = key(4, GameType::Quiz, None);
    cache.insert(&k1, page(1), 0);
    cache.insert(&k2, page(2), 0);
    cache.insert(&k3, page(3), 0);
    assert_eq!(cache.get_cached(&k1, 1).unwrap().items[0].times_played, 1);
    assert_eq!(cache.get_cached(&k2, 1).unwrap().items[0].times_played, 2);
    assert_eq!(cache.get_cached(&k3, 1).unwrap().items[0].times_played, 3);
}
