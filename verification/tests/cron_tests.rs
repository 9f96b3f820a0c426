use check_updates::clock::LocalTime;
use check_updates::cron::{calculate_last_period, parse_cron_spec, parse_field, schedule_decision, should_run, CronError};
use check_updates::{CronField, CronSpec};

fn at(year: i32, month: u32, day: u32, hour: u32, minute: u32, second: u32) -> LocalTime {
    LocalTime { year, month, day, hour, minute, second }
}

#[test]
fn daily_alias_expands_to_literal_spec() {
    let daily = parse_cron_spec("@daily").unwrap();
    let literal = parse_cron_spec("0 0 * *").unwrap();
    assert_eq!(daily, literal);
    assert_eq!(
        daily,
        CronSpec {
            minute: CronField::Value(0),
            hour: CronField::Value(0),
            day: CronField::Any,
            month: CronField::Any,
        }
    );
}

#[test]
fn midnight_alias_equals_daily() {
    assert_eq!(
        parse_cron_spec("@midnight").unwrap(),
        parse_cron_spec("@daily").unwrap()
    );
}

#[test]
fn hourly_monthly_yearly_aliases() {
    assert_eq!(
        parse_cron_spec("@hourly").unwrap(),
        CronSpec {
            minute: CronField::Value(0),
            hour: CronField::Any,
            day: CronField::Any,
            month: CronField::Any,
        }
    );
    assert_eq!(
        parse_cron_spec("@monthly").unwrap(),
        CronSpec {
            minute: CronField::Value(0),
            hour: CronField::Value(0),
            day: CronField::Value(1),
            month: CronField::Any,
        }
    );
    let yearly = parse_cron_spec("@yearly").unwrap();
    assert_eq!(yearly, parse_cron_spec("@annually").unwrap());
    assert_eq!(
        yearly,
        CronSpec {
            minute: CronField::Value(0),
            hour: CronField::Value(0),
            day: CronField::Value(1),
            month: CronField::Value(1),
        }
    );
}

#[test]
fn step_field_floors_to_multiple() {
    // Step 15 at minute 47 floors to 45.
    assert_eq!(CronField::Step(15).fix(47), 45);
    assert_eq!(CronField::Step(15).fix(45), 45);
    assert_eq!(CronField::Step(7).fix(13), 7);
    assert_eq!(CronField::Any.fix(23), 23);
    assert_eq!(CronField::Value(5).fix(23), 5);
}

#[test]
fn parse_rejects_wrong_field_count() {
    assert_eq!(parse_cron_spec("1 2 3"), Err(CronError::FieldCount));
    assert_eq!(parse_cron_spec(""), Err(CronError::FieldCount));
    assert_eq!(parse_cron_spec("* * * * *"), Err(CronError::FieldCount));
}

#[test]
fn parse_rejects_bad_fields() {
    assert_eq!(parse_cron_spec("60 0 * *"), Err(CronError::OutOfRange));
    assert_eq!(parse_cron_spec("0 24 * *"), Err(CronError::OutOfRange));
    assert_eq!(parse_cron_spec("0 0 0 *"), Err(CronError::OutOfRange));
    assert_eq!(parse_cron_spec("*/0 * * *"), Err(CronError::StepNotPositive));
    assert_eq!(parse_cron_spec("*/-3 * * *"), Err(CronError::StepNotPositive));
    assert_eq!(parse_cron_spec("*/x * * *"), Err(CronError::BadStep));
    assert_eq!(parse_cron_spec("x * * *"), Err(CronError::BadValue));
}

#[test]
fn parse_accepts_whitespace_separation() {
    let spec = parse_cron_spec("  */5\t12  1 6 ").unwrap();
    assert_eq!(
        spec,
        CronSpec {
            minute: CronField::Step(5),
            hour: CronField::Value(12),
            day: CronField::Value(1),
            month: CronField::Value(6),
        }
    );
}

#[test]
fn boundary_recorded_as_last_run_is_not_due_again() {
    // Once the period boundary is the last run, the same `now` is no
    // longer due, whatever the spec.
    for spec in ["*/15 * * *", "@daily", "0 */6 * *", "30 4 */2 *"] {
        let cron = parse_cron_spec(spec).unwrap();
        let now = at(2024, 5, 17, 13, 47, 21);
        let boundary = calculate_last_period(&cron, now);
        assert_eq!(should_run(spec, boundary, now), Ok(false));
    }
}

#[test]
fn daily_runs_when_last_run_was_epoch() {
    let epoch = at(1970, 1, 1, 0, 0, 0);
    let now = at(2024, 5, 17, 13, 47, 21);
    assert_eq!(should_run("@daily", epoch, now), Ok(true));
}

#[test]
fn step_floor_boundary_behaviour() {
    // At 13:47 with */15, the boundary is 13:45.
    let cron = parse_cron_spec("*/15 * * *").unwrap();
    let now = at(2024, 5, 17, 13, 47, 21);
    let boundary = calculate_last_period(&cron, now);
    assert_eq!(boundary, at(2024, 5, 17, 13, 45, 0));
    // A last run before the boundary is due, one at it is not.
    assert_eq!(should_run("*/15 * * *", at(2024, 5, 17, 13, 44, 59), now), Ok(true));
    assert_eq!(should_run("*/15 * * *", boundary, now), Ok(false));
}

#[test]
fn should_run_propagates_parse_errors() {
    let now = at(2024, 5, 17, 13, 47, 21);
    assert_eq!(should_run("nonsense", now, now), Err(CronError::FieldCount));
    assert_eq!(should_run("x * * *", now, now), Err(CronError::BadValue));
}

#[test]
fn gate_runs_when_no_last_run_is_recorded() {
    let now = at(2024, 5, 17, 13, 47, 21);
    assert_eq!(schedule_decision("@daily", None, now), Ok(true));
    assert_eq!(
        schedule_decision("@daily", Some(at(2024, 5, 17, 0, 0, 0)), now),
        Ok(false)
    );
    assert_eq!(
        schedule_decision("@daily", Some(at(2024, 5, 16, 23, 59, 59)), now),
        Ok(true)
    );
}

#[test]
fn parse_field_matches_spec_grammar() {
    assert_eq!(parse_field("*", 0, 59), Ok(CronField::Any));
    assert_eq!(parse_field("*/4", 0, 59), Ok(CronField::Step(4)));
    assert_eq!(parse_field("59", 0, 59), Ok(CronField::Value(59)));
    assert_eq!(parse_field("60", 0, 59), Err(CronError::OutOfRange));
    assert_eq!(parse_field("*/", 0, 59), Err(CronError::BadStep));
}

#[test]
fn boundary_assembles_all_floors_at_once() {
    // Fixed day and month with wildcards elsewhere: the candidate is
    // assembled in one step, keeping the zeroed seconds and the day.
    let cron = parse_cron_spec("* * 31 1").unwrap();
    let now = at(2023, 4, 10, 12, 30, 45);
    assert_eq!(calculate_last_period(&cron, now), at(2023, 1, 31, 12, 30, 0));
    assert_eq!(
        should_run("* * 31 1", at(2023, 1, 20, 0, 0, 0), now),
        Ok(true)
    );
}

#[test]
fn calendar_invalid_boundary_falls_back_to_now() {
    // Day 30 in February does not exist: the assembled candidate is
    // invalid and `now` itself stands in as the boundary.
    let cron = parse_cron_spec("0 0 30 2").unwrap();
    let now = at(2023, 4, 10, 12, 30, 45);
    assert_eq!(calculate_last_period(&cron, now), now);
    assert_eq!(should_run("0 0 30 2", at(2023, 1, 1, 0, 0, 0), now), Ok(true));
    assert_eq!(should_run("0 0 30 2", now, now), Ok(false));
}

#[test]
fn unicode_whitespace_separates_fields() {
    // A non-breaking space splits fields just as an ASCII space does.
    assert_eq!(
        parse_cron_spec("0\u{a0}0\u{2003}* *").unwrap(),
        parse_cron_spec("0 0 * *").unwrap()
    );
}
