//! The single-slot request channel, generation assignment, and the
//! consumer-side staleness gate.

use fragment::dispatch::{Query, QueryDispatcher, TrySubmit};
use fragment::generation::{GenerationCounter, SinkGate};

fn query(text: &str) -> Query {
    Query {
        query: text.to_string(),
    }
}

#[test]
fn occupied_slot_reports_backpressure() {
    let (dispatcher, source) = QueryDispatcher::new();
    assert!(dispatcher.submit(query("first")).is_ok());
    // The slot holds an unconsumed request: a second submission cannot be
    // accepted until the dispatcher loop takes the first one.
    match dispatcher.try_submit(query("second")) {
        TrySubmit::Occupied(back) => assert_eq!(back.query, "second"),
        _ => panic!("the occupied slot must refuse a second request"),
    }
    let counter = GenerationCounter::new();
    let accepted = source.accept(&counter).expect("a request is waiting");
    assert_eq!(accepted.0.query, "first");
    assert_eq!(accepted.1, 1);
    // The slot is free again.
    match dispatcher.try_submit(query("third")) {
        TrySubmit::Accepted => {}
        _ => panic!("the freed slot must accept a request"),
    }
}

#[test]
fn generations_assigned_in_acceptance_order() {
    let (dispatcher, source) = QueryDispatcher::new();
    let counter = GenerationCounter::new();
    assert!(dispatcher.submit(query("x")).is_ok());
    let first = source.accept(&counter).expect("first request");
    assert!(dispatcher.submit(query("x")).is_ok());
    let second = source.accept(&counter).expect("second request");
    assert!(second.1 > first.1);
    assert_eq!(counter.current(), second.1);
}

#[test]
fn shutdown_reports_the_query_back() {
    let (dispatcher, source) = QueryDispatcher::new();
    drop(source);
    match dispatcher.submit(query("late")) {
        Err(back) => assert_eq!(back.query, "late"),
        Ok(()) => panic!("submitting to a closed dispatcher must fail"),
    }
    match dispatcher.try_submit(query("later")) {
        TrySubmit::Closed(back) => assert_eq!(back.query, "later"),
        _ => panic!("submitting to a closed dispatcher must fail"),
    }
}

#[test]
fn counter_counts_upward() {
    let counter = GenerationCounter::new();
    assert_eq!(counter.current(), 0);
    assert_eq!(counter.next(), 1);
    assert_eq!(counter.next(), 2);
    assert_eq!(counter.next(), 3);
    assert_eq!(counter.current(), 3);
}

#[test]
fn late_stale_delivery_is_distinguishable() {
    let counter = GenerationCounter::new();
    // A search for "x" is in flight with g1 when a file-change signal causes
    // a second run: its generation is strictly greater.
    let g1 = counter.next();
    let g2 = counter.next();
    assert!(g2 > g1);
    let mut gate = SinkGate::new();
    // The newer run delivers first and is accepted.
    assert!(gate.accept(g2));
    // The older run's late delivery arrives afterwards: the consumer can
    // tell it is stale by its tag and discards it.
    assert!(!gate.accept(g1));
    // A re-delivery at the accepted generation still passes.
    assert!(gate.accept(g2));
}

#[test]
fn gate_accepts_the_first_delivery() {
    let mut gate = SinkGate::new();
    assert!(gate.accept(1));
    assert!(!gate.accept(0));
}
