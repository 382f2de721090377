use wresult::WResult;

#[test]
fn variant_queries_on_all_three_shapes() {
    let clean: WResult<i32, &str, &str> = WResult::WOk(1, vec![]);
    let degraded: WResult<i32, &str, &str> = WResult::WOk(1, vec!["w"]);
    let failed: WResult<i32, &str, &str> = WResult::WErr("e");
    assert!(clean.is_ok());
    assert!(!clean.is_err());
    assert!(!clean.is_warn_or_err());
    assert!(degraded.is_ok());
    assert!(!degraded.is_err());
    assert!(degraded.is_warn_or_err());
    assert!(!failed.is_ok());
    assert!(failed.is_err());
    assert!(failed.is_warn_or_err());
}

#[test]
fn ok_discard_takes_the_value_and_drops_warnings() {
    let degraded: WResult<i32, &str, &str> = WResult::WOk(3, vec!["w"]);
    assert_eq!(degraded.ok_discard(), Some(3));
    let failed: WResult<i32, &str, &str> = WResult::WErr("e");
    assert_eq!(failed.ok_discard(), None);
}

#[test]
fn err_takes_the_error_value() {
    let degraded: WResult<i32, &str, &str> = WResult::WOk(3, vec!["w"]);
    assert_eq!(degraded.err(), None);
    let failed: WResult<i32, &str, &str> = WResult::WErr("e");
    assert_eq!(failed.err(), Some("e"));
}

#[test]
fn ok_werr_treats_warnings_as_errors() {
    let clean: WResult<i32, &str, &str> = WResult::WOk(3, vec![]);
    assert_eq!(clean.ok_werr(), Some(3));
    let degraded: WResult<i32, &str, &str> = WResult::WOk(3, vec!["w"]);
    assert_eq!(degraded.ok_werr(), None);
    let failed: WResult<i32, &str, &str> = WResult::WErr("e");
    assert_eq!(failed.ok_werr(), None);
}

#[test]
fn result_discard_keeps_the_binary_outcome() {
    let degraded: WResult<i32, &str, &str> = WResult::WOk(3, vec!["w"]);
    assert_eq!(degraded.result_discard(), Ok(3));
    let failed: WResult<i32, &str, &str> = WResult::WErr("e");
    assert_eq!(failed.result_discard(), Err("e"));
}

#[test]
fn result_werr_on_clean_success_is_ok() {
    let clean: WResult<i32, &str, &str> = WResult::WOk(3, vec![]);
    assert_eq!(clean.result_werr(), Ok(3));
}

#[test]
fn result_werr_on_degraded_success_returns_only_the_first_warning() {
    let degraded: WResult<i32, &str, &str> = WResult::WOk(3, vec!["w1", "w2", "w3"]);
    assert_eq!(degraded.result_werr(), Err("w1"));
}

#[test]
fn result_werr_on_failure_returns_the_error() {
    let failed: WResult<i32, &str, &str> = WResult::WErr("e");
    assert_eq!(failed.result_werr(), Err("e"));
}

#[test]
fn result_werr_res_distinguishes_warning_from_error() {
    let clean: WResult<i32, &str, i32> = WResult::WOk(3, vec![]);
    assert_eq!(clean.result_werr_res(), Ok(3));
    let degraded: WResult<i32, &str, i32> = WResult::WOk(3, vec!["w1", "w2"]);
    assert_eq!(degraded.result_werr_res(), Err(Ok("w1")));
    let failed: WResult<i32, &str, i32> = WResult::WErr(9);
    assert_eq!(failed.result_werr_res(), Err(Err(9)));
}

#[test]
fn err_werr_takes_error_or_first_warning() {
    let clean: WResult<i32, &str, &str> = WResult::WOk(3, vec![]);
    assert_eq!(clean.err_werr(), None);
    let degraded: WResult<i32, &str, &str> = WResult::WOk(3, vec!["w1", "w2"]);
    assert_eq!(degraded.err_werr(), Some("w1"));
    let failed: WResult<i32, &str, &str> = WResult::WErr("e");
    assert_eq!(failed.err_werr(), Some("e"));
}

#[test]
fn unwrap_discard_or_unwraps_success() {
    let degraded: WResult<i32, &str, &str> = WResult::WOk(3, vec!["w"]);
    assert_eq!(degraded.unwrap_discard_or(0), 3);
    let failed: WResult<i32, &str, &str> = WResult::WErr("e");
    assert_eq!(failed.unwrap_discard_or(0), 0);
}

#[test]
fn unwrap_or_werr_keeps_its_inverted_policy() {
    // This operation's long-standing policy is the inverse of its siblings:
    // a clean success yields the fallback, a degraded success the real value.
    let clean: WResult<i32, &str, &str> = WResult::WOk(3, vec![]);
    assert_eq!(clean.unwrap_or_werr(0), 0);
    let degraded: WResult<i32, &str, &str> = WResult::WOk(3, vec!["w"]);
    assert_eq!(degraded.unwrap_or_werr(0), 3);
    let failed: WResult<i32, &str, &str> = WResult::WErr("e");
    assert_eq!(failed.unwrap_or_werr(0), 0);
}

#[test]
fn unwrap_discard_or_else_applies_the_operation_to_the_error() {
    let degraded: WResult<i32, &str, i32> = WResult::WOk(3, vec!["w"]);
    assert_eq!(degraded.unwrap_discard_or_else(|e| e + 1), 3);
    let failed: WResult<i32, &str, i32> = WResult::WErr(9);
    assert_eq!(failed.unwrap_discard_or_else(|e| e + 1), 10);
}

#[test]
fn unwrap_or_else_werr_applies_the_operation_to_error_or_first_warning() {
    let clean: WResult<i32, i32, i32> = WResult::WOk(3, vec![]);
    assert_eq!(clean.unwrap_or_else_werr(|e| e + 1), 3);
    let degraded: WResult<i32, i32, i32> = WResult::WOk(3, vec![100, 200]);
    assert_eq!(degraded.unwrap_or_else_werr(|e| e + 1), 101);
    let failed: WResult<i32, i32, i32> = WResult::WErr(9);
    assert_eq!(failed.unwrap_or_else_werr(|e| e + 1), 10);
}

#[test]
fn lifting_ok_then_discarding_round_trips() {
    let lifted: WResult<i32, &str, &str> = WResult::from_result(Ok(5));
    assert_eq!(lifted.result_discard(), Ok(5));
}

#[test]
fn lifting_err_then_discarding_round_trips() {
    let lifted: WResult<i32, &str, &str> = WResult::from_result(Err("e"));
    assert_eq!(lifted.result_discard(), Err("e"));
}

#[test]
fn lifting_ok_gives_a_clean_success() {
    let lifted: WResult<i32, &str, &str> = WResult::from_result(Ok(5));
    match lifted {
        WResult::WOk(t, ws) => {
            assert_eq!(t, 5);
            assert!(ws.is_empty());
        }
        WResult::WErr(_) => panic!("lifting Ok gave a failure"),
    }
}
