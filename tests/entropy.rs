use std::collections::HashSet;

use codex_session::entropy::{
    entropy_now, entropy_uuid, millis_or_zero, EntropyScopes, Clock, ScriptedRandomSource, SystemClock, SystemRandomSource,
};

#[test]
fn system_random_source_generates_unique_uuids() {
    let source = SystemRandomSource;
    let uuids: HashSet<_> = (0..100).map(|_| source.uuid()).collect();
    assert_eq!(uuids.len(), 100, "UUIDs should be unique");
}

#[test]
fn system_random_source_uuid_is_hyphenated() {
    let source = SystemRandomSource;
    let u = source.uuid();
    assert_eq!(u.len(), 36);
    assert_eq!(u.matches('-').count(), 4);
}

#[test]
fn system_clock_now_is_monotonic() {
    let clock = SystemClock;
    let t1 = clock.now();
    let t2 = clock.now();
    assert!(t2 >= t1, "Clock should be monotonic");
}

#[test]
fn system_clock_now_is_monotonic_over_many_calls() {
    let clock = SystemClock;
    let mut prev = clock.now();
    for _ in 0..1000 {
        let next = clock.now();
        assert!(next >= prev);
        prev = next;
    }
}

#[test]
fn system_clock_unix_millis_is_reasonable() {
    let clock = SystemClock;
    let millis = clock.unix_millis();
    // Should be after 2020 (1577836800000) and before 2100
    assert!(millis > 1577836800000, "unix_millis should be after 2020");
    assert!(millis < 4102444800000, "unix_millis should be before 2100");
}

#[test]
fn system_clock_wall_time_is_after_epoch() {
    let clock = SystemClock;
    let t = clock.wall_time();
    assert!(t > std::time::SystemTime::UNIX_EPOCH);
}

#[test]
fn millis_or_zero_keeps_low_bits_and_defaults_to_zero() {
    assert_eq!(millis_or_zero(None), 0);
    assert_eq!(millis_or_zero(Some(1_700_000_000_000)), 1_700_000_000_000);
    assert_eq!(millis_or_zero(Some((1u128 << 64) + 5)), 5);
}

#[test]
fn scripted_source_replays_then_falls_back() {
    let mut source = ScriptedRandomSource::new(vec!["a".to_string(), "b".to_string()]);
    assert_eq!(source.uuid(), "a");
    assert_eq!(source.uuid(), "b");
    let third = source.uuid();
    assert_ne!(third, "a");
    assert_ne!(third, "b");
    assert_eq!(third.len(), 36);
}

#[test]
fn scripted_sources_do_not_cross_contaminate() {
    let mut a = ScriptedRandomSource::new(vec!["a1".to_string(), "a2".to_string(), "a3".to_string()]);
    let mut b = ScriptedRandomSource::new(vec!["b1".to_string(), "b2".to_string()]);
    assert_eq!(a.uuid(), "a1");
    assert_eq!(b.uuid(), "b1");
    assert_eq!(b.uuid(), "b2");
    assert_eq!(a.uuid(), "a2");
    assert_eq!(entropy_uuid(Some(a.uuid())), "a3");
}

#[test]
fn entropy_uuid_uses_scope_value_or_fresh_one() {
    assert_eq!(entropy_uuid(Some("scoped".to_string())), "scoped");
    let fallback = entropy_uuid(None);
    assert_eq!(fallback.len(), 36);
    assert_ne!(fallback, entropy_uuid(None));
}

#[test]
fn entropy_now_uses_scope_value_or_system_clock() {
    let fixed = std::time::Instant::now();
    assert_eq!(entropy_now(Some(fixed)), fixed);
    assert!(entropy_now(None) >= fixed);
}

#[test]
fn interleaved_scopes_each_replay_their_own_sequence() {
    let mut scopes = EntropyScopes::new();
    let a = scopes.open(vec!["a1".to_string(), "a2".to_string()]);
    let b = scopes.open(vec!["b1".to_string(), "b2".to_string(), "b3".to_string()]);
    assert_eq!(scopes.uuid_in(b), "b1");
    assert_eq!(scopes.uuid_in(a), "a1");
    assert_eq!(scopes.uuid_in(b), "b2");
    assert_eq!(scopes.uuid_in(b), "b3");
    assert_eq!(scopes.uuid_in(a), "a2");
    let fresh = scopes.uuid_in(a);
    assert_eq!(fresh.len(), 36);
    assert_eq!(scopes.uuid_in(b).len(), 36);
}

fn is_v4_text(u: &str) -> bool {
    let c: Vec<char> = u.chars().collect();
    c.len() == 36
        && c.iter().enumerate().all(|(i, ch)| {
            if [8, 13, 18, 23].contains(&i) {
                *ch == '-'
            } else {
                ch.is_ascii_digit() || ('a'..='f').contains(ch)
            }
        })
        && c[14] == '4'
        && ['8', '9', 'a', 'b'].contains(&c[19])
}

#[test]
fn fresh_uuids_are_lowercase_hyphenated_v4() {
    assert!(is_v4_text(&SystemRandomSource.uuid()));
    assert!(is_v4_text(&entropy_uuid(None)));
    let mut source = ScriptedRandomSource::new(vec![]);
    assert!(is_v4_text(&source.uuid()));
}
