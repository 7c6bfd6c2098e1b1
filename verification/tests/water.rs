use water_tracker::api::{
    add_water, get_percentage, get_water_by_id, get_water_id, root, update_water, view_water,
    UpdateError, UpdateWater, ViewWaterById, WaterPayload,
};
use water_tracker::entry::{amend, validate_payload, Water, ValidationError};
use water_tracker::percent::compute_percentage;
use water_tracker::store::WaterStore;

fn store_with(rows: &[(i32, i32)]) -> WaterStore {
    let mut s = WaterStore::new();
    for (intake, target) in rows {
        s.insert(String::from("2024-01-01"), *intake, *target);
    }
    s
}

#[test]
fn percentage_exact_quarter() {
    assert_eq!(compute_percentage(500, 2000), 25);
}

#[test]
fn percentage_rounds_to_nearest() {
    assert_eq!(compute_percentage(1, 3), 33);
    assert_eq!(compute_percentage(2, 3), 67);
    assert_eq!(compute_percentage(999, 1000), 100);
    assert_eq!(compute_percentage(0, 7), 0);
}

#[test]
fn percentage_half_goes_up() {
    assert_eq!(compute_percentage(1, 200), 1);
    assert_eq!(compute_percentage(3, 200), 2);
}

#[test]
fn percentage_negative_intake_rounds_away_from_zero() {
    assert_eq!(compute_percentage(-500, 2000), -25);
    assert_eq!(compute_percentage(-1, 200), -1);
}

#[test]
fn percentage_extreme_values() {
    assert_eq!(compute_percentage(i32::MAX, 1), 214748364700);
    assert_eq!(compute_percentage(i32::MIN, 1), -214748364800);
    assert_eq!(compute_percentage(i32::MAX, i32::MAX), 100);
}

#[test]
fn amend_is_additive_either_sign() {
    assert_eq!(amend(500, 250), Some(750));
    assert_eq!(amend(500, -600), Some(-100));
    assert_eq!(amend(0, 0), Some(0));
}

#[test]
fn amend_reports_overflow() {
    assert_eq!(amend(i32::MAX, 1), None);
    assert_eq!(amend(i32::MIN, -1), None);
    assert_eq!(amend(i32::MAX, i32::MIN), Some(-1));
}

#[test]
fn validation_accepts_and_rejects() {
    assert_eq!(validate_payload(0, 1), Ok(()));
    assert_eq!(validate_payload(500, 2000), Ok(()));
    assert_eq!(validate_payload(-1, 2000), Err(ValidationError::NegativeIntake));
    assert_eq!(validate_payload(500, 0), Err(ValidationError::NonPositiveTarget));
    assert_eq!(validate_payload(500, -3), Err(ValidationError::NonPositiveTarget));
    assert_eq!(validate_payload(-1, 0), Err(ValidationError::NegativeIntake));
}

#[test]
fn water_new_derives_percentage() {
    let w: Water = Water::new(500, 2000);
    assert_eq!(w.water_intake, 500);
    assert_eq!(w.target, 2000);
    assert_eq!(w.percentage, 25);
    assert!(!w.date.is_empty());
}

#[test]
fn insert_then_fetch_round_trips() {
    let mut s = WaterStore::new();
    let id = s.insert(String::from("2024-01-01"), 500, 2000);
    assert_eq!(id, 1);
    let row = s.get_by_id(id).expect("row was just inserted");
    assert_eq!(row.id, 1);
    assert_eq!(row.date, "2024-01-01");
    assert_eq!(row.water_intake, 500);
    assert_eq!(row.target, 2000);
}

#[test]
fn ids_are_assigned_in_order() {
    let s = store_with(&[(100, 1000), (200, 1000), (300, 1000)]);
    let rows = s.list_all();
    assert_eq!(rows.len(), 3);
    assert_eq!(rows[0].id, 1);
    assert_eq!(rows[1].id, 2);
    assert_eq!(rows[2].id, 3);
}

#[test]
fn latest_is_the_last_inserted() {
    let mut s = WaterStore::new();
    for n in 1..=5 {
        s.insert(String::from("2024-01-01"), n * 10, 1000);
    }
    let latest = s.get_latest().expect("five rows inserted");
    assert_eq!(latest.id, 5);
    assert_eq!(latest.water_intake, 50);
}

#[test]
fn empty_store_lists_nothing_and_has_no_latest() {
    let s = WaterStore::new();
    assert!(s.list_all().is_empty());
    assert!(s.get_latest().is_none());
    assert!(s.get_by_id(1).is_none());
}

#[test]
fn update_on_empty_store_signals_empty() {
    let mut s = WaterStore::new();
    let r = update_water(&mut s, UpdateWater { water_intake: 250 });
    assert_eq!(r.err().expect("no rows to update"), UpdateError::Empty);
    assert!(s.list_all().is_empty());
}

#[test]
fn update_is_additive() {
    let mut s = store_with(&[(500, 2000)]);
    update_water(&mut s, UpdateWater { water_intake: 250 }).expect("store is not empty");
    assert_eq!(s.get_latest().unwrap().water_intake, 750);
    update_water(&mut s, UpdateWater { water_intake: 100 }).expect("store is not empty");
    assert_eq!(s.get_latest().unwrap().water_intake, 850);
}

#[test]
fn update_targets_only_the_latest_row() {
    let mut s = store_with(&[(100, 1000), (200, 1000)]);
    update_water(&mut s, UpdateWater { water_intake: 50 }).expect("store is not empty");
    assert_eq!(s.get_by_id(1).unwrap().water_intake, 100);
    assert_eq!(s.get_by_id(2).unwrap().water_intake, 250);
}

#[test]
fn update_reports_previous_and_updated_entries() {
    let mut s = store_with(&[(500, 2000)]);
    let rep = update_water(&mut s, UpdateWater { water_intake: 250 }).expect("store is not empty");
    assert_eq!(
        rep.previous,
        "Latest entry (ID: 1): Date: 2024-01-01, Current Water Intake: 500, Target: 2000"
    );
    assert_eq!(
        rep.updated,
        "Updated entry: Date: 2024-01-01, Water Intake: 750, Target: 2000"
    );
}

#[test]
fn update_overflow_leaves_the_store_unchanged() {
    let mut s = store_with(&[(i32::MAX, 2000)]);
    let r = update_water(&mut s, UpdateWater { water_intake: 1 });
    assert_eq!(r.err().expect("the sum does not fit"), UpdateError::Overflow);
    assert_eq!(s.get_latest().unwrap().water_intake, i32::MAX);
}

#[test]
fn direct_intake_overwrite_misses_absent_rows() {
    let mut s = store_with(&[(100, 1000)]);
    assert!(s.update_intake(1, 42));
    assert_eq!(s.get_by_id(1).unwrap().water_intake, 42);
    assert!(!s.update_intake(7, 42));
    assert_eq!(s.list_all().len(), 1);
}

#[test]
fn add_water_persists_and_derives() {
    let mut s = WaterStore::new();
    let w = add_water(&mut s, WaterPayload { water_intake: 500, target: 2000 })
        .expect("payload is valid");
    assert_eq!(w.percentage, 25);
    let row = s.get_by_id(1).expect("the entry was persisted");
    assert_eq!(row.date, w.date);
    assert_eq!(row.water_intake, 500);
    assert_eq!(row.target, 2000);
}

#[test]
fn add_water_rejects_bad_payloads() {
    let mut s = WaterStore::new();
    let r = add_water(&mut s, WaterPayload { water_intake: -1, target: 2000 });
    assert_eq!(r.err().expect("negative intake"), ValidationError::NegativeIntake);
    let r = add_water(&mut s, WaterPayload { water_intake: 500, target: 0 });
    assert_eq!(r.err().expect("zero target"), ValidationError::NonPositiveTarget);
    assert!(s.list_all().is_empty());
}

#[test]
fn row_is_rendered_exactly() {
    let s = store_with(&[(500, 2000)]);
    assert_eq!(
        get_water_by_id(&s, 1),
        "id = 1 date = 2024-01-01, water_intake = 500, target = 2000, percentage = 25\n"
    );
}

#[test]
fn negative_intake_after_update_still_renders() {
    let mut s = store_with(&[(100, 1000)]);
    update_water(&mut s, UpdateWater { water_intake: -150 }).expect("store is not empty");
    assert_eq!(
        get_water_by_id(&s, 1),
        "id = 1 date = 2024-01-01, water_intake = -50, target = 1000, percentage = -5\n"
    );
}

#[test]
fn missing_row_yields_not_found_notice() {
    let s = store_with(&[(500, 2000)]);
    assert_eq!(get_water_by_id(&s, 99), "Water with id 99 not found");
    assert_eq!(get_water_id(&s, ViewWaterById { id: -3 }), "Water with id -3 not found");
}

#[test]
fn view_water_concatenates_all_rows() {
    let s = store_with(&[(500, 2000), (300, 1200)]);
    assert_eq!(
        view_water(&s),
        "id = 1 date = 2024-01-01, water_intake = 500, target = 2000, percentage = 25\n\
         id = 2 date = 2024-01-01, water_intake = 300, target = 1200, percentage = 25\n"
    );
}

#[test]
fn view_water_on_empty_store_says_so() {
    let s = WaterStore::new();
    assert_eq!(view_water(&s), "There is no water");
}

#[test]
fn percentage_endpoint_reads_the_first_row() {
    let s = store_with(&[(500, 2000), (900, 1000)]);
    assert_eq!(get_percentage(&s), "25%");
}

#[test]
fn percentage_endpoint_on_empty_store_says_so() {
    let s = WaterStore::new();
    assert_eq!(get_percentage(&s), "There are no entries available");
}

#[test]
fn root_reports_liveness() {
    assert_eq!(root(), "Server is up and running!\n");
}

#[test]
fn add_then_update_then_view_scenario() {
    let mut s = WaterStore::new();
    let w = add_water(&mut s, WaterPayload { water_intake: 500, target: 2000 })
        .expect("payload is valid");
    assert_eq!(w.percentage, 25);
    let rep = update_water(&mut s, UpdateWater { water_intake: 250 }).expect("one row exists");
    assert_eq!(
        rep.previous,
        format!(
            "Latest entry (ID: 1): Date: {}, Current Water Intake: 500, Target: 2000",
            w.date
        )
    );
    assert_eq!(
        rep.updated,
        format!("Updated entry: Date: {}, Water Intake: 750, Target: 2000", w.date)
    );
    let row = s.get_by_id(1).expect("the entry exists");
    assert_eq!(row.water_intake, 750);
    assert_eq!(row.target, 2000);
}
