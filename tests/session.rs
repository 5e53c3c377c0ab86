use libminer::cache::CacheSlot;
use libminer::session::{AuthPlan, CallPlan, Session, Token, TokenStore};

fn token(value: &str, expires_at: i64) -> Token {
    Token { value: value.to_string(), secret: "k".to_string(), expires_at }
}

#[test]
fn single_flight_reads() {
    let mut slot: CacheSlot<u32> = CacheSlot::new();
    let mut fetches = 0;
    let mut seen = Vec::new();
    for _ in 0..5 {
        if slot.needs_fetch() {
            fetches += 1;
            slot.store::<()>(Ok(42)).unwrap();
        }
        seen.push(*slot.get().unwrap());
    }
    assert_eq!(fetches, 1);
    assert_eq!(seen, vec![42; 5]);
}

#[test]
fn failed_fetch_leaves_slot_empty() {
    let mut slot: CacheSlot<u32> = CacheSlot::new();
    assert_eq!(slot.store(Err("down")), Err("down"));
    assert!(slot.needs_fetch());
}

#[test]
fn invalidation_forces_fetch() {
    let mut slot: CacheSlot<String> = CacheSlot::new();
    slot.store::<()>(Ok("pools v1".to_string())).unwrap();
    assert!(!slot.needs_fetch());
    slot.invalidate();
    assert!(slot.needs_fetch());
    assert!(slot.get().is_none());
    slot.store::<()>(Ok("pools v2".to_string())).unwrap();
    assert_eq!(slot.get().unwrap(), "pools v2");
}

#[test]
fn fresh_token_is_reused() {
    let now = 1_000_000;
    let mut s = Session::new("10.0.0.9");
    s.set_password("pw");
    s.token = Some(token("abc", now + 60_000));
    match s.plan_call(now) {
        CallPlan::Send(t) => assert_eq!(t.value, "abc"),
        other => panic!("unexpected {:?}", other),
    }
}

#[test]
fn expired_token_refreshes_once() {
    let now = 1_000_000;
    let mut store = TokenStore::new();
    let mut s = Session::new("10.0.0.9");
    s.set_password("pw");
    s.token = Some(token("old", now - 1));
    assert!(matches!(s.plan_call(now), CallPlan::Handshake));
    s.accept_token(token("new", now + 60_000), &mut store);
    match s.plan_call(now) {
        CallPlan::Send(t) => assert_eq!(t.value, "new"),
        other => panic!("unexpected {:?}", other),
    }
    assert_eq!(store.lookup("10.0.0.9", now).unwrap().value, "new");
}

#[test]
fn expired_token_without_password_is_unauthorized() {
    let mut s = Session::new("h");
    s.token = Some(token("old", 5));
    assert!(matches!(s.plan_call(10), CallPlan::Unauthorized));
    let s2 = Session::new("h");
    assert!(matches!(s2.plan_call(10), CallPlan::Unauthorized));
}

#[test]
fn store_never_hands_out_expired_tokens() {
    let mut store = TokenStore::new();
    store.put("a", token("ta", 100));
    store.put("b", token("tb", 300));
    assert!(store.lookup("a", 100).is_none());
    assert_eq!(store.lookup("a", 99).unwrap().value, "ta");
    assert_eq!(store.lookup("b", 200).unwrap().value, "tb");
    assert!(store.lookup("c", 0).is_none());
    store.put("a", token("ta2", 500));
    assert_eq!(store.lookup("a", 200).unwrap().value, "ta2");
}

#[test]
fn auth_adopts_stored_token() {
    let now = 50;
    let mut store = TokenStore::new();
    store.put("h", token("shared", 100));
    let mut s = Session::new("h");
    s.set_password("pw");
    assert_eq!(s.begin_auth(&store, now), AuthPlan::Adopted);
    assert_eq!(s.token().unwrap().value, "shared");
    let mut late = Session::new("h");
    late.set_password("pw");
    assert_eq!(late.begin_auth(&store, 100), AuthPlan::Handshake);
    let mut nopw = Session::new("x");
    assert_eq!(nopw.begin_auth(&store, now), AuthPlan::Unauthorized);
}

#[test]
fn plan_with_clock() {
    let mut s = Session::new("h");
    s.set_password("pw");
    s.token = Some(token("far", i64::MAX));
    let (plan, _now) = s.plan_call_now();
    assert!(matches!(plan, CallPlan::Send(_)));
}
