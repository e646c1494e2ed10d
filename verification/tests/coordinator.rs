use sieve_fanout::coordinator::{
    health_check, register_sieve, registration_delay_ms, save_result, summarize, MirrorWrite,
    PrimeResult, ResultMode, Sieve, SieveResult, Store, StoredResult, WorkerStatus,
};

fn sieve(id: &str) -> Sieve {
    Sieve { id: id.to_string() }
}

fn result(id: &str, primes: &[i32]) -> SieveResult {
    SieveResult { id: id.to_string(), primes: primes.to_vec() }
}

#[test]
fn register_then_submit_leaves_the_summary() {
    let mut store = Store::new(ResultMode::Summary);
    assert_eq!(register_sieve(&mut store, &sieve("w1"), 10), 201);
    let reply = save_result(&mut store, result("w1", &[2, 3, 5, 7]), 20);
    assert_eq!(reply.status, 200);
    assert!(!reply.out_of_order);
    assert_eq!(store.len(), 1);
    let record = store.get("w1").unwrap();
    assert_eq!(record.id, "w1");
    assert_eq!(
        record.results,
        Some(StoredResult::Summary(PrimeResult { quantity: 4, max_prime: Some(7) }))
    );
    assert_eq!(record.status(), WorkerStatus::Completed);
    assert_eq!(record.registered_at, Some(10));
    assert_eq!(record.completed_at, Some(20));
}

#[test]
fn submit_without_registration_makes_a_completed_record() {
    let mut store = Store::new(ResultMode::Summary);
    let reply = save_result(&mut store, result("w2", &[2]), 7);
    assert_eq!(reply.status, 200);
    assert!(reply.out_of_order);
    assert_eq!(store.len(), 1);
    let record = store.get("w2").unwrap();
    assert_eq!(
        record.results,
        Some(StoredResult::Summary(PrimeResult { quantity: 1, max_prime: Some(2) }))
    );
    assert_eq!(record.status(), WorkerStatus::Completed);
    assert_eq!(record.registered_at, None);
    assert_eq!(record.completed_at, Some(7));
}

#[test]
fn mirror_write_carries_identifier_and_last_value() {
    let mut store = Store::new(ResultMode::Summary);
    let reply = save_result(&mut store, result("w3", &[2, 3, 5, 7, 11]), 1);
    assert_eq!(reply.mirror, Some(MirrorWrite { key: "w3".to_string(), value: 11 }));
}

#[test]
fn a_result_without_values_is_accepted_and_completes_the_record() {
    let mut store = Store::new(ResultMode::Summary);
    register_sieve(&mut store, &sieve("w4"), 1);
    let reply = save_result(&mut store, result("w4", &[]), 2);
    assert_eq!(reply.status, 200);
    assert!(!reply.out_of_order);
    assert_eq!(reply.mirror, None);
    assert_eq!(store.len(), 1);
    let record = store.get("w4").unwrap();
    assert_eq!(record.status(), WorkerStatus::Completed);
    assert_eq!(
        record.results,
        Some(StoredResult::Summary(PrimeResult { quantity: 0, max_prime: None }))
    );
    assert_eq!(record.registered_at, Some(1));
    assert_eq!(record.completed_at, Some(2));
}

#[test]
fn a_result_without_values_and_without_registration_makes_a_record() {
    for mode in [ResultMode::Summary, ResultMode::Full] {
        let mut store = Store::new(mode);
        let reply = save_result(&mut store, result("w5", &[]), 3);
        assert_eq!(reply.status, 200);
        assert!(reply.out_of_order);
        assert_eq!(reply.mirror, None);
        assert_eq!(store.len(), 1);
        let record = store.get("w5").unwrap();
        assert_eq!(record.status(), WorkerStatus::Completed);
        assert_eq!(
            record.results.unwrap().summary(),
            PrimeResult { quantity: 0, max_prime: None }
        );
    }
}

#[test]
fn the_number_of_records_grows_by_one_for_each_new_worker_only() {
    let mut store = Store::new(ResultMode::Summary);
    assert_eq!(store.len(), 0);
    save_result(&mut store, result("a", &[2]), 1);
    assert_eq!(store.len(), 1);
    save_result(&mut store, result("a", &[2, 3]), 2);
    assert_eq!(store.len(), 1);
    register_sieve(&mut store, &sieve("b"), 3);
    assert_eq!(store.len(), 2);
    register_sieve(&mut store, &sieve("a"), 4);
    assert_eq!(store.len(), 2);
    save_result(&mut store, result("c", &[]), 5);
    assert_eq!(store.len(), 3);
}

#[test]
fn registration_creates_an_empty_record() {
    let mut store = Store::new(ResultMode::Summary);
    assert!(store.get("w1").is_none());
    assert!(!store.contains("w1"));
    register_sieve(&mut store, &sieve("w1"), 3);
    assert!(store.contains("w1"));
    let record = store.get("w1").unwrap();
    assert_eq!(record.results, None);
    assert_eq!(record.status(), WorkerStatus::Registered);
    assert_eq!(record.registered_at, Some(3));
    assert_eq!(record.completed_at, None);
}

#[test]
fn registering_again_erases_the_result() {
    let mut store = Store::new(ResultMode::Summary);
    register_sieve(&mut store, &sieve("w1"), 1);
    save_result(&mut store, result("w1", &[2, 3]), 2);
    register_sieve(&mut store, &sieve("w1"), 3);
    assert_eq!(store.len(), 1);
    let record = store.get("w1").unwrap();
    assert_eq!(record.results, None);
    assert_eq!(record.status(), WorkerStatus::Registered);
    assert_eq!(record.registered_at, Some(3));
    assert_eq!(record.completed_at, None);
}

#[test]
fn last_of_many_operations_on_one_identifier_wins() {
    let mut store = Store::new(ResultMode::Summary);
    save_result(&mut store, result("w1", &[2, 3, 5]), 1);
    register_sieve(&mut store, &sieve("w1"), 2);
    register_sieve(&mut store, &sieve("w2"), 3);
    save_result(&mut store, result("w1", &[2, 3]), 4);
    save_result(&mut store, result("w1", &[2, 3, 5, 7, 11, 13]), 5);
    assert_eq!(store.len(), 2);
    let record = store.get("w1").unwrap();
    assert_eq!(
        record.results,
        Some(StoredResult::Summary(PrimeResult { quantity: 6, max_prime: Some(13) }))
    );
    assert_eq!(record.registered_at, Some(2));
    assert_eq!(record.completed_at, Some(5));
    assert_eq!(store.get("w2").unwrap().status(), WorkerStatus::Registered);
}

#[test]
fn every_order_of_calls_leaves_one_record_set_by_the_last_call() {
    // Four calls on one identifier, taken in each of their 24 orders.
    let calls: [Option<&[i32]>; 4] = [None, Some(&[2, 3]), None, Some(&[2, 3, 5, 7])];
    let mut orders = Vec::new();
    for a in 0..4 {
        for b in 0..4 {
            for c in 0..4 {
                for d in 0..4 {
                    let order = [a, b, c, d];
                    if (0..4).all(|x| order.contains(&x)) {
                        orders.push(order);
                    }
                }
            }
        }
    }
    assert_eq!(orders.len(), 24);
    for order in orders {
        let store = std::sync::Mutex::new(Store::new(ResultMode::Summary));
        for (at, call) in order.iter().enumerate() {
            let mut guard = store.lock().unwrap();
            match calls[*call] {
                None => {
                    register_sieve(&mut guard, &sieve("shared"), at as u64);
                }
                Some(primes) => {
                    save_result(&mut guard, result("shared", primes), at as u64);
                }
            }
        }
        let guard = store.lock().unwrap();
        assert_eq!(guard.len(), 1);
        let record = guard.get("shared").unwrap();
        match calls[order[3]] {
            None => {
                assert_eq!(record.results, None);
                assert_eq!(record.registered_at, Some(3));
                assert_eq!(record.completed_at, None);
            }
            Some(primes) => {
                assert_eq!(record.results, Some(StoredResult::Summary(summarize(&primes.to_vec()))));
                assert_eq!(record.completed_at, Some(3));
            }
        }
    }
}

#[test]
fn full_mode_keeps_every_value() {
    let mut store = Store::new(ResultMode::Full);
    assert_eq!(store.result_mode(), ResultMode::Full);
    let reply = save_result(&mut store, result("w1", &[2, 3, 5, 7]), 1);
    assert_eq!(reply.mirror, Some(MirrorWrite { key: "w1".to_string(), value: 7 }));
    let record = store.get("w1").unwrap();
    let kept = record.results.unwrap();
    assert_eq!(kept, StoredResult::Full(vec![2, 3, 5, 7]));
    assert_eq!(kept.summary(), PrimeResult { quantity: 4, max_prime: Some(7) });
}

#[test]
fn summary_takes_the_last_value_as_it_stands() {
    assert_eq!(summarize(&vec![7, 5, 3]), PrimeResult { quantity: 3, max_prime: Some(3) });
    assert_eq!(summarize(&vec![-4]), PrimeResult { quantity: 1, max_prime: Some(-4) });
    assert_eq!(summarize(&Vec::new()), PrimeResult { quantity: 0, max_prime: None });
}

#[test]
fn health_is_constant() {
    assert_eq!(health_check(), 200);
    assert_eq!(health_check(), 200);
}

#[test]
fn registration_delay_stays_in_range_and_varies() {
    let mut seen = std::collections::BTreeSet::new();
    for _ in 0..300 {
        let ms = registration_delay_ms();
        assert!((400..=1000).contains(&ms));
        seen.insert(ms);
    }
    assert!(seen.len() > 1);
}
