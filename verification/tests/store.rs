use terraform_http_backend::db::terraform::{MaybeConflictError, TerraformQuery};
use terraform_http_backend::error::DatabaseError;

fn now() -> chrono::NaiveDateTime {
    chrono::Utc::now().naive_utc()
}

fn at(second: u32) -> chrono::NaiveDateTime {
    chrono::NaiveDate::from_ymd_opt(2021, 10, 5)
        .expect("a date")
        .and_hms_opt(12, 30, second)
        .expect("a time")
}

#[test]
fn test_create_replace() {
    let mut query = TerraformQuery::new();

    let id = "105";
    let initial_state = "initial-state";
    let secondary_state = "secondary-state";

    let initial_results = query.create_or_replace(id, initial_state, now());
    let get_initial = query.get(id).expect("No row for initial_state");

    assert_eq!(initial_results.id, id);
    assert_eq!(get_initial.id, id);
    assert_eq!(initial_results.state, initial_state);
    assert_eq!(get_initial.state, initial_state);

    let secondary_results = query.create_or_replace(id, secondary_state, now());
    let get_secondary = query.get(id).expect("No row for secondary_state");

    assert_eq!(secondary_results.state, secondary_state);
    assert_eq!(get_secondary.state, secondary_state);
}

#[test]
fn test_lock() {
    let mut query = TerraformQuery::new();

    let id = "105";
    let lock_id = "lock_id";

    let lock_results = query.lock(id, lock_id, "state", now()).expect("Failed to lock resource");

    let secondary_lock_results = query.lock(id, "different_lock_id", "state", now());

    let get_lock_by_tf = query.get_lock_by_terraform_id(id).expect("No lock row for resource");

    query.unlock(id, lock_id);

    assert_eq!(lock_results.id, lock_id);
    assert_eq!(get_lock_by_tf.terraform_id, id);

    // Should be locked
    assert!(secondary_lock_results.is_err());
}

#[test]
fn read_of_an_id_never_written_finds_nothing() {
    let mut query = TerraformQuery::new();
    assert!(query.get("105").is_none());

    query.create_or_replace("106", "other", now());
    query.lock("105", "holder", "payload", now()).expect("a free resource is locked");
    query.unlock("105", "holder");

    assert!(query.get("105").is_none());
    assert!(query.get("").is_none());
}

#[test]
fn read_returns_the_exact_text_last_written() {
    let mut query = TerraformQuery::new();
    let text = "{\"v\": [1, 2.50, \"\u{e9}\"],  \"w\":null}";

    let written = query.create_or_replace("105", text, now());
    query.lock("105", "holder", "payload", now()).expect("a free resource is locked");
    query.create_or_replace("106", "noise", now());
    let read = query.get("105").expect("the row was written");

    assert_eq!(read.id, "105");
    assert_eq!(read.state, text);
    assert_eq!(read.last_update_ts, written.last_update_ts);
}

#[test]
fn second_write_leaves_no_trace_of_the_first() {
    let mut once = TerraformQuery::new();
    let mut twice = TerraformQuery::new();

    twice.create_or_replace("105", "first", at(1));
    let second = twice.create_or_replace("105", "second", at(2));
    once.create_or_replace("105", "second", at(2));

    let read = twice.get("105").expect("the row was written");
    let alone = once.get("105").expect("the row was written");
    assert_eq!(read.state, "second");
    assert_eq!(read.last_update_ts, second.last_update_ts);
    assert_eq!(read.id, alone.id);
    assert_eq!(read.state, alone.state);
    assert_eq!(read.last_update_ts, alone.last_update_ts);
    assert!(twice.get("first").is_none());
}

#[test]
fn empty_state_and_empty_id_are_stored_like_any_other() {
    let mut query = TerraformQuery::new();
    query.create_or_replace("", "", now());
    let read = query.get("").expect("the row was written");
    assert_eq!(read.id, "");
    assert_eq!(read.state, "");
    assert!(query.get("105").is_none());
}

#[test]
fn lock_under_another_id_conflicts_with_first_payload() {
    let mut query = TerraformQuery::new();

    let first = query.lock("105", "L1", "first payload", now()).expect("a free resource is locked");
    let second = query.lock("105", "L2", "second payload", now());

    match second {
        Err(MaybeConflictError::Conflict(row)) => {
            assert_eq!(row.id, "L1");
            assert_eq!(row.terraform_id, "105");
            assert_eq!(row.state, "first payload");
            assert_eq!(row.last_update_ts, first.last_update_ts);
        }
        other => panic!("expected a conflict, got {:?}", other),
    }

    let held = query.get_lock_by_terraform_id("105").expect("the resource is locked");
    assert_eq!(held.id, "L1");
    assert_eq!(held.state, "first payload");
    assert_eq!(held.last_update_ts, first.last_update_ts);
}

#[test]
fn holder_may_lock_again() {
    let mut query = TerraformQuery::new();

    let first = query.lock("105", "L1", "first payload", now()).expect("a free resource is locked");
    let again = query
        .lock("105", "L1", "first payload", now())
        .expect("the holder is granted the lock again");

    assert_eq!(again.id, "L1");
    assert_eq!(again.terraform_id, "105");
    assert_eq!(again.state, "first payload");
    assert_eq!(again.last_update_ts, first.last_update_ts);

    let other_payload = query
        .lock("105", "L1", "late payload", now())
        .expect("the holder is granted the lock again");
    assert_eq!(other_payload.state, "first payload");
}

#[test]
fn release_frees_the_resource_for_another_lock_id() {
    let mut query = TerraformQuery::new();

    query.lock("105", "L1", "first payload", now()).expect("a free resource is locked");
    query.unlock("105", "L1");
    assert!(query.get_lock_by_terraform_id("105").is_none());

    let next = query.lock("105", "L2", "second payload", now()).expect("a freed resource is locked");
    assert_eq!(next.id, "L2");
    assert_eq!(next.state, "second payload");
}

#[test]
fn release_under_another_lock_id_keeps_the_lock() {
    let mut query = TerraformQuery::new();

    query.lock("105", "L1", "first payload", now()).expect("a free resource is locked");
    query.unlock("105", "L2");
    query.unlock("106", "L1");

    let held = query.get_lock_by_terraform_id("105").expect("the resource is still locked");
    assert_eq!(held.id, "L1");
    assert_eq!(held.state, "first payload");
}

#[test]
fn release_of_a_free_resource_returns() {
    let mut query = TerraformQuery::new();
    query.unlock("105", "L1");
    assert!(query.get_lock_by_terraform_id("105").is_none());
}

#[test]
fn same_lock_id_may_hold_two_resources() {
    let mut query = TerraformQuery::new();

    query.lock("105", "L", "payload of 105", now()).expect("a free resource is locked");
    query.lock("106", "L", "payload of 106", now()).expect("a free resource is locked");
    query.unlock("105", "L");

    assert!(query.get_lock_by_terraform_id("105").is_none());
    let held = query.get_lock_by_terraform_id("106").expect("the other resource is still locked");
    assert_eq!(held.state, "payload of 106");
}

#[test]
fn lock_and_state_of_one_resource_are_separate() {
    let mut query = TerraformQuery::new();

    query.lock("105", "L", "payload", now()).expect("a free resource is locked");
    assert!(query.get("105").is_none());

    query.create_or_replace("105", "state", now());
    let held = query.get_lock_by_terraform_id("105").expect("the resource is locked");
    assert_eq!(held.state, "payload");
    assert_eq!(query.get("105").expect("the row was written").state, "state");
}

#[test]
fn exactly_one_of_two_attempts_wins_every_time() {
    for round in 0..100 {
        let mut query = TerraformQuery::new();
        let id = format!("{}", round);
        let (first, second) = if round % 2 == 0 { ("A", "B") } else { ("B", "A") };

        let first_answer = query.lock(&id, first, "first", now());
        let second_answer = query.lock(&id, second, "second", now());

        let winners = [&first_answer, &second_answer].iter().filter(|a| a.is_ok()).count();
        assert_eq!(winners, 1);
        assert!(first_answer.is_ok());
        assert!(matches!(second_answer, Err(MaybeConflictError::Conflict(ref row)) if row.id == first));
        let held = query.get_lock_by_terraform_id(&id).expect("the resource is locked");
        assert_eq!(held.id, first);
        assert_eq!(held.state, "first");
    }
}

#[test]
fn arbitrate_grants_the_row_that_carries_the_lock_id() {
    let mut query = TerraformQuery::new();
    let row = query.lock("105", "L1", "first payload", now()).expect("a free resource is locked");
    let ts = row.last_update_ts;

    let granted = TerraformQuery::arbitrate("L1", Ok(row)).expect("the row carries the lock id");
    assert_eq!(granted.id, "L1");
    assert_eq!(granted.terraform_id, "105");
    assert_eq!(granted.state, "first payload");
    assert_eq!(granted.last_update_ts, ts);

    match TerraformQuery::arbitrate("L2", Ok(granted)) {
        Err(MaybeConflictError::Conflict(row)) => {
            assert_eq!(row.id, "L1");
            assert_eq!(row.state, "first payload");
        }
        other => panic!("expected a conflict, got {:?}", other),
    }
}

#[test]
fn arbitrate_passes_a_database_failure_on() {
    let failure = DatabaseError { message: "connection lost".to_string() };
    match TerraformQuery::arbitrate("L1", Err(failure.clone())) {
        Err(MaybeConflictError::Error(e)) => assert_eq!(e, failure),
        other => panic!("expected the failure, got {:?}", other),
    }
    assert!(matches!(
        MaybeConflictError::from(failure.clone()),
        MaybeConflictError::Error(e) if e == failure
    ));
}

#[test]
fn duplicate_copies_every_field() {
    let mut query = TerraformQuery::new();
    let row = query.create_or_replace("105", "state", now());
    let copy = row.duplicate();
    assert_eq!(copy.id, row.id);
    assert_eq!(copy.state, row.state);
    assert_eq!(copy.last_update_ts, row.last_update_ts);

    let lock = query.lock("105", "L1", "first payload", now()).expect("a free resource is locked");
    let copy = lock.duplicate();
    assert_eq!(copy.id, lock.id);
    assert_eq!(copy.terraform_id, lock.terraform_id);
    assert_eq!(copy.state, lock.state);
    assert_eq!(copy.last_update_ts, lock.last_update_ts);
}

#[test]
fn write_at_a_given_time_stores_that_time() {
    let mut query = TerraformQuery::new();

    let first = query.create_or_replace("105", "first", at(1));
    assert_eq!(first.id, "105");
    assert_eq!(first.state, "first");
    assert_eq!(first.last_update_ts, at(1));

    let second = query.create_or_replace("105", "second", at(2));
    assert_eq!(second.last_update_ts, at(2));

    let read = query.get("105").expect("the row was written");
    assert_eq!(read.state, "second");
    assert_eq!(read.last_update_ts, at(2));
}

#[test]
fn lock_at_a_given_time_keeps_the_time_of_the_first_holder() {
    let mut query = TerraformQuery::new();

    let first = query.lock("105", "L1", "first payload", at(1)).expect("a free resource is locked");
    assert_eq!(first.last_update_ts, at(1));

    let again = query.lock("105", "L1", "first payload", at(2)).expect("the holder is granted again");
    assert_eq!(again.last_update_ts, at(1));

    match query.lock("105", "L2", "second payload", at(3)) {
        Err(MaybeConflictError::Conflict(row)) => {
            assert_eq!(row.id, "L1");
            assert_eq!(row.state, "first payload");
            assert_eq!(row.last_update_ts, at(1));
        }
        other => panic!("expected a conflict, got {:?}", other),
    }

    query.unlock("105", "L1");
    let next = query.lock("105", "L2", "second payload", at(4)).expect("a freed resource is locked");
    assert_eq!(next.last_update_ts, at(4));
}

#[test]
fn many_resources_are_kept_apart() {
    let mut query = TerraformQuery::new();
    for n in 0..50 {
        query.create_or_replace(&format!("r{}", n), &format!("s{}", n), now());
        query
            .lock(&format!("r{}", n), &format!("l{}", n), "p", now())
            .expect("a free resource is locked");
    }
    for n in (0..50).step_by(2) {
        query.unlock(&format!("r{}", n), &format!("l{}", n));
        query.create_or_replace(&format!("r{}", n), "rewritten", now());
    }
    for n in 0..50 {
        let state = query.get(&format!("r{}", n)).expect("the row was written").state;
        let lock = query.get_lock_by_terraform_id(&format!("r{}", n));
        if n % 2 == 0 {
            assert_eq!(state, "rewritten");
            assert!(lock.is_none());
        } else {
            assert_eq!(state, format!("s{}", n));
            assert_eq!(lock.expect("still locked").id, format!("l{}", n));
        }
    }
}
