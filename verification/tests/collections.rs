use std::collections::HashMap;
use trading_strategy::indicator::TAs;

fn sample() -> TAs<i32, f64> {
    TAs::new(
        "test".to_owned(),
        vec![1, 2, 3],
        HashMap::from([(1, 3.0), (2, 2.0), (3, 1.0)]),
    )
}

#[test]
fn tas_keeps_keys_in_given_order() {
    let tas = TAs::new(
        "order".to_owned(),
        vec![3, 1, 2],
        HashMap::from([(1, 10), (2, 20), (3, 30)]),
    );
    assert_eq!(tas.get_keys(), &vec![3, 1, 2]);
    let all: Vec<i32> = tas.get_all().into_iter().copied().collect();
    assert_eq!(all, vec![30, 10, 20]);
}

#[test]
fn tas_get_finds_value_of_key() {
    let tas = sample();
    assert_eq!(*tas.get(&1), 3.0);
    assert_eq!(*tas.get(&3), 1.0);
}

#[test]
fn tas_get_by_key_index_agrees_with_get() {
    let tas = sample();
    for (i, key) in tas.get_keys().clone().iter().enumerate() {
        assert_eq!(tas.get_by_key_index(i), tas.get(key));
    }
    assert_eq!(*tas.get_by_key_index(1), 2.0);
}

#[test]
fn tas_is_all_checks_every_value() {
    let tas = sample();
    assert!(tas.is_all(|v| *v > 0.0));
    assert!(!tas.is_all(|v| *v > 1.5));
    let empty: TAs<i32, f64> = TAs::new("empty".to_owned(), vec![], HashMap::new());
    assert!(empty.is_all(|_| false));
}

#[test]
fn tas_is_all_stops_at_first_rejection() {
    let tas = sample();
    let calls = std::cell::Cell::new(0);
    let r = tas.is_all(|v| {
        calls.set(calls.get() + 1usize);
        *v > 2.5
    });
    assert!(!r);
    assert_eq!(calls.get(), 2);
}

#[test]
fn tas_display_shows_name() {
    assert_eq!(sample().to_string(), "TAs(test)");
}
