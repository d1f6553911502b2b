use rusoto_credential::cache::{is_fresh, CacheDecision, RefreshingCache};
use rusoto_credential::credentials::{Credentials, CredentialsError, ErrorKind};

fn creds(key: &str, expiration: Option<u64>) -> Credentials {
    Credentials::new(key.to_string(), "secret".to_string(), None, expiration)
}

#[test]
fn freshness_boundary() {
    let now = 1000;
    let buffer = 60;
    assert!(!is_fresh(Some(now + buffer - 1), now, buffer));
    assert!(!is_fresh(Some(now + buffer), now, buffer));
    assert!(is_fresh(Some(now + buffer + 1), now, buffer));
    assert!(is_fresh(None, now, buffer));
    assert!(is_fresh(None, u64::MAX, u64::MAX));
    assert!(!is_fresh(Some(u64::MAX), u64::MAX, 1));
}

#[test]
fn single_flight_on_empty_cache() {
    let mut cache = RefreshingCache::new(60);
    let mut refreshes = 0;
    let mut waits = 0;
    for i in 0..10u64 {
        match cache.request(100 + i) {
            CacheDecision::Refresh => refreshes += 1,
            CacheDecision::Wait => waits += 1,
            CacheDecision::Serve(_) => panic!("an empty cache served credentials"),
        }
    }
    assert_eq!(refreshes, 1);
    assert_eq!(waits, 9);
    assert!(cache.is_refreshing());
    let result = cache.complete(Ok(creds("AKIA1", Some(10_000)))).unwrap();
    assert_eq!(result.access_key, "AKIA1");
    assert!(!cache.is_refreshing());
    assert!(matches!(cache.request(10_000 - 60), CacheDecision::Refresh));
    cache.complete(Ok(creds("AKIA1", Some(10_000)))).unwrap();
    match cache.request(200) {
        CacheDecision::Serve(c) => assert_eq!(c.access_key, "AKIA1"),
        _ => panic!("fresh credentials were not served"),
    }
}

#[test]
fn refresh_error_is_shared_and_nothing_cached() {
    let mut cache = RefreshingCache::new(60);
    assert!(matches!(cache.request(0), CacheDecision::Refresh));
    assert!(matches!(cache.request(0), CacheDecision::Wait));
    let err = cache
        .complete(Err(CredentialsError::new(ErrorKind::Network, "down".to_string())))
        .err()
        .unwrap();
    assert_eq!(err.kind, ErrorKind::Network);
    assert_eq!(err.message(), "down");
    assert!(matches!(cache.request(0), CacheDecision::Refresh));
}

#[test]
fn expiring_entry_triggers_refresh() {
    let now = 5000;
    let buffer = 300;
    let mut cache = RefreshingCache::new(buffer);
    assert!(matches!(cache.request(now), CacheDecision::Refresh));
    cache.complete(Ok(creds("OLD", Some(now + buffer - 1)))).unwrap();
    assert!(matches!(cache.request(now), CacheDecision::Refresh));
    cache.complete(Ok(creds("NEW", Some(now + buffer + 1)))).unwrap();
    match cache.request(now) {
        CacheDecision::Serve(c) => assert_eq!(c.access_key, "NEW"),
        _ => panic!("valid credentials were not served from the cache"),
    }
}

#[test]
fn long_term_credentials_never_expire() {
    let mut cache = RefreshingCache::new(60);
    assert!(matches!(cache.request(0), CacheDecision::Refresh));
    cache.complete(Ok(creds("LONG", None))).unwrap();
    assert!(matches!(cache.request(u64::MAX), CacheDecision::Serve(_)));
}
