use profugo::naming::{
    config_error_entry, dump_error_entry, format_datetime, join_path, log_file_name,
    output_file_name, unknown_engine_entry, write_error_entry,
};
use profugo::time::{now_timestamp, timestamp_from_clock, Timestamp};
use profugo::types::ProfugoContainersConfig;

fn sample_ts() -> Timestamp {
    Timestamp::new(2024, 1, 2, 3, 4, 5)
}

fn sample_cred() -> ProfugoContainersConfig {
    ProfugoContainersConfig {
        container_name: "pg1".to_string(),
        engine: "postgres".to_string(),
        db_name: "app".to_string(),
        user: "u".to_string(),
        password: "pw".to_string(),
    }
}

#[test]
fn datetime_is_zero_padded() {
    assert_eq!(format_datetime(&sample_ts()), "2024-01-02 03h 04m 05s");
}

#[test]
fn datetime_largest_fields() {
    let ts = Timestamp::new(9999, 12, 31, 23, 59, 59);
    assert_eq!(format_datetime(&ts), "9999-12-31 23h 59m 59s");
}

#[test]
fn datetime_smallest_fields() {
    let ts = Timestamp::new(0, 1, 1, 0, 0, 0);
    assert_eq!(format_datetime(&ts), "0000-01-01 00h 00m 00s");
}

#[test]
fn output_name_encodes_all_parts() {
    let name = output_file_name("postgres", &sample_ts(), "pg1", "app");
    assert_eq!(name, "dump__postgres__2024-01-02 03h 04m 05s__pg1__app.sql");
}

#[test]
fn output_name_is_reproducible() {
    let a = output_file_name("mysql", &sample_ts(), "c", "d");
    let b = output_file_name("mysql", &sample_ts(), "c", "d");
    assert_eq!(a, b);
}

#[test]
fn log_name_encodes_timestamp() {
    assert_eq!(log_file_name(&sample_ts()), "logs-2024-01-02 03h 04m 05s.txt");
}

#[test]
fn join_path_adds_one_separator() {
    assert_eq!(join_path("out", "f.sql"), "out/f.sql");
}

#[test]
fn unknown_engine_entry_names_the_engine() {
    let entry = unknown_engine_entry(&sample_ts(), "oracle");
    assert_eq!(
        entry,
        "[2024-01-02 03h 04m 05s | Profugo] Unknown database engine: oracle"
    );
    assert!(entry.contains("Unknown database engine: oracle"));
}

#[test]
fn dump_error_entry_names_container_db_and_error() {
    let entry = dump_error_entry(&sample_ts(), &sample_cred(), "spawn failed");
    assert_eq!(
        entry,
        "[2024-01-02 03h 04m 05s | Profugo, pg1 - app] Error running dump: spawn failed"
    );
}

#[test]
fn write_error_entry_names_path_and_error() {
    let entry = write_error_entry(&sample_ts(), &sample_cred(), "out/f.sql", "disk full");
    assert_eq!(
        entry,
        "[2024-01-02 03h 04m 05s | Profugo, pg1 - app] Error writing output to out/f.sql: disk full"
    );
}

#[test]
fn config_error_entry_names_the_error() {
    let entry = config_error_entry(&sample_ts(), "missing field");
    assert_eq!(
        entry,
        "[2024-01-02 03h 04m 05s | Profugo] Error parsing config.json: missing field"
    );
}

#[test]
fn clock_year_is_clamped() {
    let low = timestamp_from_clock(-44, 1, 1, 0, 0, 0);
    assert_eq!(low.year, 0);
    let high = timestamp_from_clock(123456, 1, 1, 0, 0, 0);
    assert_eq!(high.year, 9999);
    let mid = timestamp_from_clock(2024, 6, 15, 12, 30, 45);
    assert_eq!(mid.year, 2024);
    assert_eq!(mid.second, 45);
}

#[test]
fn clock_reading_is_well_formed() {
    let ts = now_timestamp();
    assert!(ts.year <= 9999);
    assert!((1..=12).contains(&ts.month));
    assert!((1..=31).contains(&ts.day));
    assert!(ts.hour <= 23);
    assert!(ts.minute <= 59);
    assert!(ts.second <= 59);
}
