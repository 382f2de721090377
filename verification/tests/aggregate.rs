use wresult::WResult;

#[test]
fn aggregation_short_circuits_on_the_first_failure() {
    let items: Vec<WResult<i32, &str, &str>> = vec![
        WResult::WOk(1, vec![]),
        WResult::WOk(2, vec!["w"]),
        WResult::WErr("e"),
        WResult::WOk(3, vec![]),
    ];
    match WResult::from_iter(items) {
        WResult::WOk(_, _) => panic!("aggregation over a failure succeeded"),
        WResult::WErr(e) => assert_eq!(e, "e"),
    }
}

#[test]
fn aggregation_collects_values_and_concatenates_warnings_in_order() {
    let items: Vec<WResult<i32, &str, &str>> = vec![
        WResult::WOk(1, vec!["w1"]),
        WResult::WOk(2, vec![]),
        WResult::WOk(3, vec!["w2"]),
    ];
    match WResult::from_iter(items) {
        WResult::WOk(vals, ws) => {
            assert_eq!(vals, vec![1, 2, 3]);
            assert_eq!(ws, vec!["w1", "w2"]);
        }
        WResult::WErr(_) => panic!("aggregation over successes failed"),
    }
}

#[test]
fn aggregation_of_nothing_is_a_clean_empty_success() {
    let items: Vec<WResult<i32, &str, &str>> = vec![];
    match WResult::from_iter(items) {
        WResult::WOk(vals, ws) => {
            assert!(vals.is_empty());
            assert!(ws.is_empty());
        }
        WResult::WErr(_) => panic!("aggregation of nothing failed"),
    }
}

#[test]
fn aggregation_returns_the_first_of_several_errors() {
    let items: Vec<WResult<i32, &str, &str>> = vec![
        WResult::WOk(1, vec!["w"]),
        WResult::WErr("first"),
        WResult::WErr("second"),
    ];
    match WResult::from_iter(items) {
        WResult::WOk(_, _) => panic!("aggregation over failures succeeded"),
        WResult::WErr(e) => assert_eq!(e, "first"),
    }
}

#[test]
fn aggregation_keeps_duplicate_warnings() {
    let items: Vec<WResult<i32, &str, &str>> = vec![
        WResult::WOk(1, vec!["w", "w"]),
        WResult::WOk(2, vec!["w"]),
    ];
    match WResult::from_iter(items) {
        WResult::WOk(vals, ws) => {
            assert_eq!(vals, vec![1, 2]);
            assert_eq!(ws, vec!["w", "w", "w"]);
        }
        WResult::WErr(_) => panic!("aggregation over successes failed"),
    }
}
