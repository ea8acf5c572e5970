use stats_service::{
    is_revenue_type, seed_event_type, seed_request, seed_user_id, summary, StatEntry,
    StatRequest, StatStore, Timestamp, SEED_COUNT,
};

fn seed_values() -> Vec<u64> {
    (1..=SEED_COUNT)
        .map(|i| {
            let t = seed_event_type(i);
            let v = if is_revenue_type(&t) { i as f64 * 23.45 } else { i as f64 };
            v.to_bits()
        })
        .collect()
}

fn request(event_type: &str, user_id: u32, value: f64, metadata: Option<&str>) -> StatRequest {
    StatRequest {
        event_type: event_type.to_string(),
        user_id,
        value_bits: value.to_bits(),
        metadata: metadata.map(|m| m.to_string()),
    }
}

fn ids(entries: &[StatEntry]) -> Vec<u32> {
    entries.iter().map(|e| e.id).collect()
}

#[test]
fn fresh_service_scenario() {
    let mut store = StatStore::with_seed(&seed_values());
    let all = store.list_all();
    assert_eq!(all.len(), 19);
    assert_eq!(ids(&all), (1..=19).collect::<Vec<u32>>());
    assert_eq!(store.next_id(), 20);

    let created = store.append(request("signup", 5, 1.0, None));
    assert_eq!(created.id, 20);
    assert_eq!(created.user_id, 5);
    assert_eq!(created.event_type, "signup");
    assert_eq!(f64::from_bits(created.value_bits), 1.0);
    assert_eq!(created.metadata, None);
    assert!(created.timestamp.nanos < 1_000_000_000);

    let user5 = store.user_stats(5).expect("user 5 has entries");
    assert!(user5.iter().any(|e| e.id == 20));
    assert!(user5.iter().all(|e| e.user_id == 5));
    assert_eq!(store.user_stats(9999), None);

    let revenue = store.filter_revenue();
    assert!(!revenue.is_empty());
    assert!(revenue
        .iter()
        .all(|e| e.event_type == "revenue" || e.event_type == "purchase"));
    assert_eq!(ids(&revenue), vec![2, 3, 7, 8, 12, 13, 17, 18]);
}

#[test]
fn seeded_entries_follow_the_pattern() {
    let values = seed_values();
    let store = StatStore::with_seed(&values);
    let all = store.list_all();
    let types = ["login", "pageview", "purchase", "revenue", "signup"];
    for (k, e) in all.iter().enumerate() {
        let i = k + 1;
        assert_eq!(e.id as usize, i);
        assert_eq!(e.event_type, types[i % 5]);
        assert_eq!(e.user_id as usize, i % 10 + 1);
        assert_eq!(e.value_bits, values[k]);
        assert_eq!(e.metadata, None);
    }
    assert_eq!(f64::from_bits(all[2].value_bits), 3.0 * 23.45);
    assert_eq!(f64::from_bits(all[0].value_bits), 1.0);
}

#[test]
fn appends_get_consecutive_ids() {
    let mut store = StatStore::new();
    assert_eq!(store.next_id(), 1);
    let got: Vec<u32> = (0..6)
        .map(|k| store.append(request("login", k, 0.0, None)).id)
        .collect();
    assert_eq!(got, vec![1, 2, 3, 4, 5, 6]);
    assert_eq!(store.next_id(), 7);

    let mut seeded = StatStore::with_seed(&seed_values());
    let more: Vec<u32> = (0..3)
        .map(|_| seeded.append(request("pageview", 1, 2.5, None)).id)
        .collect();
    assert_eq!(more, vec![20, 21, 22]);
}

#[test]
fn list_all_keeps_insertion_order() {
    let mut store = StatStore::new();
    assert!(store.list_all().is_empty());
    store.append(request("b", 2, 1.0, None));
    store.append(request("a", 1, 2.0, Some("x")));
    store.append(request("c", 3, 3.0, None));
    let all = store.list_all();
    assert_eq!(ids(&all), vec![1, 2, 3]);
    let types: Vec<&str> = all.iter().map(|e| e.event_type.as_str()).collect();
    assert_eq!(types, vec!["b", "a", "c"]);
    assert_eq!(all[1].metadata, Some("x".to_string()));
}

#[test]
fn filter_by_user_selects_in_order() {
    let mut store = StatStore::new();
    store.append(request("login", 7, 1.0, None));
    store.append(request("login", 8, 1.0, None));
    store.append(request("purchase", 7, 9.5, None));
    store.append(request("signup", 9, 1.0, None));
    store.append(request("pageview", 7, 1.0, None));
    assert_eq!(ids(&store.filter_by_user(7)), vec![1, 3, 5]);
    assert_eq!(ids(&store.filter_by_user(8)), vec![2]);
    assert!(store.filter_by_user(10).is_empty());
    assert_eq!(store.user_stats(10), None);
    assert_eq!(ids(&store.user_stats(9).unwrap()), vec![4]);
    assert_eq!(StatStore::new().user_stats(1), None);
}

#[test]
fn filter_revenue_selects_in_order() {
    let mut store = StatStore::new();
    store.append(request("revenue", 1, 10.0, None));
    store.append(request("Revenue", 1, 10.0, None));
    store.append(request("login", 2, 1.0, None));
    store.append(request("purchase", 3, 5.0, None));
    store.append(request("purchases", 3, 5.0, None));
    let revenue = store.filter_revenue();
    assert_eq!(ids(&revenue), vec![1, 4]);
    assert!(StatStore::new().filter_revenue().is_empty());
}

#[test]
fn queries_repeat_identically() {
    let store = StatStore::with_seed(&seed_values());
    assert_eq!(store.list_all(), store.list_all());
    assert_eq!(store.filter_by_user(3), store.filter_by_user(3));
    assert_eq!(store.filter_revenue(), store.filter_revenue());
    assert_eq!(store.user_stats(4), store.user_stats(4));
    assert_eq!(summary(), summary());
    assert_eq!(store.next_id(), 20);
    assert_eq!(store.list_all().len(), 19);
}

#[test]
fn append_at_uses_given_time() {
    let mut store = StatStore::new();
    let t = Timestamp { secs: 1_700_000_000, nanos: 5 };
    let e = store.append_at(request("signup", 4, 1.5, Some("m")), t);
    assert_eq!(e.id, 1);
    assert_eq!(e.timestamp, t);
    assert_eq!(e.metadata, Some("m".to_string()));
    assert_eq!(store.list_all(), vec![e]);
}

#[test]
fn append_stamps_current_time() {
    let mut store = StatStore::new();
    let e = store.append(request("login", 1, 1.0, None));
    assert!(e.timestamp.secs > 1_600_000_000);
    assert!(e.timestamp.nanos < 1_000_000_000);
}

#[test]
fn revenue_types() {
    assert!(is_revenue_type(&"revenue".to_string()));
    assert!(is_revenue_type(&"purchase".to_string()));
    assert!(!is_revenue_type(&"login".to_string()));
    assert!(!is_revenue_type(&"".to_string()));
    assert!(!is_revenue_type(&"REVENUE".to_string()));
}

#[test]
fn seed_helpers() {
    assert_eq!(seed_event_type(0), "login");
    assert_eq!(seed_event_type(1), "pageview");
    assert_eq!(seed_event_type(2), "purchase");
    assert_eq!(seed_event_type(3), "revenue");
    assert_eq!(seed_event_type(4), "signup");
    assert_eq!(seed_event_type(19), "signup");
    assert_eq!(seed_user_id(1), 2);
    assert_eq!(seed_user_id(9), 10);
    assert_eq!(seed_user_id(10), 1);
    assert_eq!(seed_user_id(u32::MAX), 6);
    let r = seed_request(3, 42);
    assert_eq!(r.event_type, "revenue");
    assert_eq!(r.user_id, 4);
    assert_eq!(r.value_bits, 42);
    assert_eq!(r.metadata, None);
}

#[test]
fn summary_figures() {
    let s = summary();
    assert_eq!(s.total_users, 8942);
    assert_eq!(s.active_users, 2531);
    assert_eq!(s.new_today, 147);
    assert_eq!(s.revenue_cents, 13495289);
    assert_eq!(s.revenue_cents as f64 / 100.0, 134952.89);
}

#[test]
fn duplicates_are_equal() {
    let r = request("purchase", 2, 3.25, Some("note"));
    assert_eq!(r.duplicate(), r);
    let mut store = StatStore::new();
    let e = store.append(r);
    assert_eq!(e.duplicate(), e);
}
