use aocio::cache::{Cache, MemoryCache};
use aocio::day::AocDay;
use aocio::fetcher::{FetchError, HandleCacheHitStrategy, InputFetcher, InputStep};
use aocio::session::Session;
use aocio::year::AocYear;

fn key(y: &str, d: &str) -> (AocYear, AocDay) {
    (AocYear::parse(y).unwrap(), AocDay::parse(d).unwrap())
}

fn session() -> Session {
    Session::parse("tok").unwrap()
}

fn filled(y: AocYear, d: AocDay, text: &str) -> MemoryCache {
    let mut c = MemoryCache::new();
    c.write(y, d, text).unwrap();
    c
}

#[test]
fn cache_hit_returns_cached_without_request() {
    let (y, d) = key("2022", "1");
    let f = InputFetcher::with_cache(session(), filled(y, d, "cached"));
    match f.get_input_handle_cache(y, d, HandleCacheHitStrategy::ReturnCache) {
        InputStep::Cached(t) => assert_eq!(t, "cached"),
        other => panic!("unexpected {:?}", other),
    }
    match f.get_input(y, d) {
        InputStep::Cached(t) => assert_eq!(t, "cached"),
        other => panic!("unexpected {:?}", other),
    }
}

#[test]
fn cache_hit_with_error_strategy_collides() {
    let (y, d) = key("2022", "1");
    let f = InputFetcher::with_cache(session(), filled(y, d, "cached"));
    match f.get_input_handle_cache(y, d, HandleCacheHitStrategy::ErrorOnCacheHit) {
        InputStep::Failed(e) => assert_eq!(e, FetchError::CacheCollision(y, d)),
        other => panic!("unexpected {:?}", other),
    }
}

#[test]
fn cache_hit_with_overwrite_refetches() {
    let (y, d) = key("2022", "1");
    let mut f = InputFetcher::with_cache(session(), filled(y, d, "old"));
    match f.get_input_handle_cache(y, d, HandleCacheHitStrategy::OverwriteCache) {
        InputStep::Fetch(_) => {}
        other => panic!("unexpected {:?}", other),
    }
    assert_eq!(f.accept_input(y, d, "new".to_string()).unwrap(), "new");
    assert_eq!(f.cache().read(y, d), Some("new".to_string()));
}

#[test]
fn cache_miss_requests_once_then_caches() {
    let (y, d) = key("2021", "9");
    let mut f = InputFetcher::with_memory_cache(session());
    let req = match f.get_input(y, d) {
        InputStep::Fetch(req) => req,
        other => panic!("unexpected {:?}", other),
    };
    assert_eq!(req.url, "https://adventofcode.com/2021/day/9/input");
    assert_eq!(req.cookie, "session=tok");
    assert_eq!(f.accept_input(y, d, "1 2 3\n".to_string()).unwrap(), "1 2 3\n");
    assert_eq!(f.cache().read(y, d), Some("1 2 3\n".to_string()));
    match f.get_input(y, d) {
        InputStep::Cached(t) => assert_eq!(t, "1 2 3\n"),
        other => panic!("unexpected {:?}", other),
    }
}

#[test]
fn unauthenticated_body_is_an_error_and_not_cached() {
    let (y, d) = key("2021", "9");
    let mut f = InputFetcher::with_memory_cache(session());
    let body = "Puzzle inputs differ by user.  Please log in to get your puzzle input.".to_string();
    assert_eq!(f.accept_input(y, d, body), Err(FetchError::Unauthenticated));
    assert_eq!(f.cache().read(y, d), None);
}

#[test]
fn no_cache_fetcher_always_requests() {
    let (y, d) = key("2015", "25");
    let mut f = InputFetcher::new(session());
    assert_eq!(f.accept_input(y, d, "x".to_string()).unwrap(), "x");
    match f.get_input(y, d) {
        InputStep::Fetch(req) => assert_eq!(req.url, "https://adventofcode.com/2015/day/25/input"),
        other => panic!("unexpected {:?}", other),
    }
}

#[test]
fn unauthenticated_phrase_without_period_is_an_error() {
    let (y, d) = key("2018", "2");
    let mut f = InputFetcher::with_memory_cache(session());
    let body = "Puzzle inputs differ by user".to_string();
    assert_eq!(f.accept_input(y, d, body), Err(FetchError::Unauthenticated));
    assert_eq!(f.cache().read(y, d), None);
}
