use sentinel::clock::{get_current_time, time_of_day};
use sentinel::tool::{RuffCheck, RuffFormat};

#[test]
fn time_of_day_splits_seconds() {
    assert_eq!(time_of_day(0), (0, 0, 0));
    assert_eq!(time_of_day(3661), (1, 1, 1));
    assert_eq!(time_of_day(86399), (23, 59, 59));
    assert_eq!(time_of_day(86400), (0, 0, 0));
    assert_eq!(time_of_day(1_700_000_000), (22, 13, 20));
    assert_eq!(time_of_day(u64::MAX), (7, 0, 15));
}

#[test]
fn current_time_is_a_time_of_day() {
    let (h, m, s) = get_current_time();
    assert!(h < 24 && m < 60 && s < 60);
}

#[test]
fn ruff_tools_name_and_command() {
    assert_eq!(RuffFormat.name(), "ruff format");
    assert_eq!(RuffCheck.name(), "ruff check");
    let f = RuffFormat.command("/p/a b.py");
    assert_eq!(f.program, "ruff");
    assert_eq!(f.args, vec!["format".to_string(), "/p/a b.py".to_string()]);
    let c = RuffCheck.command("/p/x.py");
    assert_eq!(c.program, "ruff");
    assert_eq!(c.args, vec!["check".to_string(), "/p/x.py".to_string()]);
}
