use comelit_hub::logging::{log_files_to_remove, logs_to_delete, LogConfig, LogFile, RotationPeriod};
use comelit_hub::params::{logging_plan, LoggingPlan, Params};

#[test]
fn test_rotation_period_from_str() {
    assert_eq!(
        "daily".parse::<RotationPeriod>().unwrap(),
        RotationPeriod::Daily
    );
    assert_eq!(
        "hourly".parse::<RotationPeriod>().unwrap(),
        RotationPeriod::Hourly
    );
    assert_eq!(
        "minutely".parse::<RotationPeriod>().unwrap(),
        RotationPeriod::Minutely
    );
    assert_eq!(
        "never".parse::<RotationPeriod>().unwrap(),
        RotationPeriod::Never
    );
    assert!("invalid".parse::<RotationPeriod>().is_err());
}

#[test]
fn test_rotation_period_case_insensitive() {
    assert_eq!(
        "DAILY".parse::<RotationPeriod>().unwrap(),
        RotationPeriod::Daily
    );
    assert_eq!(
        "Daily".parse::<RotationPeriod>().unwrap(),
        RotationPeriod::Daily
    );
}

#[test]
fn test_log_config_default() {
    let config = LogConfig::default();
    assert_eq!(config.log_dir, ".");
    assert_eq!(config.log_prefix, "comelit-hub");
    assert_eq!(config.rotation, RotationPeriod::Daily);
    assert_eq!(config.max_log_files, 7);
}

#[test]
fn rotation_short_names_are_accepted() {
    assert_eq!(RotationPeriod::parse("minute"), Ok(RotationPeriod::Minutely));
    assert_eq!(RotationPeriod::parse("HOUR"), Ok(RotationPeriod::Hourly));
    assert_eq!(RotationPeriod::parse("day"), Ok(RotationPeriod::Daily));
    assert_eq!(RotationPeriod::parse("None"), Ok(RotationPeriod::Never));
}

#[test]
fn invalid_rotation_names_the_text() {
    assert_eq!(
        RotationPeriod::parse("weekly"),
        Err("Invalid rotation period 'weekly'. Valid options: minutely, hourly, daily, never".to_string())
    );
    assert!(RotationPeriod::parse("").is_err());
    assert!(RotationPeriod::parse("dailyy").is_err());
}

#[test]
fn rotation_default_is_daily() {
    assert_eq!(RotationPeriod::default(), RotationPeriod::Daily);
}

fn log_file(name: &str, modified_ns: i128) -> LogFile {
    LogFile { name: name.to_string(), modified_ns }
}

#[test]
fn cleanup_keeps_the_newest_files() {
    let files = vec![
        log_file("test-0.log", 10),
        log_file("test-1.log", 20),
        log_file("other.log", 5),
        log_file("test-2.log", 30),
        log_file("test-3.txt", 1),
        log_file("test-3.log", 40),
        log_file("test-4.log", 50),
    ];
    let mut removed = log_files_to_remove(&files, "test-", 2);
    removed.sort();
    // The three oldest matching files go; the others and the non-matching stay.
    assert_eq!(removed, vec![0, 1, 3]);
}

#[test]
fn cleanup_with_zero_limit_removes_every_log_file() {
    let files = vec![log_file("test-0.log", 10), log_file("notes.txt", 5), log_file("test-1.log", 20)];
    assert_eq!(log_files_to_remove(&files, "test-", 0), vec![2, 0]);
}

#[test]
fn cleanup_under_the_limit_removes_nothing() {
    let files = vec![log_file("test-0.log", 10), log_file("test-1.log", 20)];
    assert!(log_files_to_remove(&files, "test-", 2).is_empty());
}

#[test]
fn params_default_values() {
    let p = Params::default();
    assert_eq!(p.user, "admin");
    assert_eq!(p.password, "admin");
    assert_eq!(p.host, None);
    assert_eq!(p.port, Some(1883));
    assert_eq!(p.log_prefix, "comelit-hub");
    assert_eq!(p.log_rotation, "daily");
    assert_eq!(p.max_log_files, 7);
    assert!(!p.log_to_console);
}

#[test]
fn logging_without_directory_goes_to_console() {
    let p = Params::default();
    assert!(matches!(logging_plan(&p), Ok(LoggingPlan::Console)));
}

#[test]
fn logging_with_directory_goes_to_files() {
    let mut p = Params::default();
    p.log_dir = Some("/var/log/hub".to_string());
    p.log_rotation = "Hourly".to_string();
    p.max_log_files = 3;
    match logging_plan(&p) {
        Ok(LoggingPlan::File(c)) => {
            assert_eq!(c.log_dir, "/var/log/hub");
            assert_eq!(c.log_prefix, "comelit-hub");
            assert_eq!(c.rotation, RotationPeriod::Hourly);
            assert_eq!(c.max_log_files, 3);
        }
        _ => panic!("expected file logging"),
    }
    p.log_to_console = true;
    assert!(matches!(logging_plan(&p), Ok(LoggingPlan::Dual(_))));
}

#[test]
fn logging_with_bad_rotation_is_refused() {
    let mut p = Params::default();
    p.log_dir = Some("logs".to_string());
    p.log_rotation = "yearly".to_string();
    match logging_plan(&p) {
        Err(msg) => assert_eq!(msg, "Invalid rotation period 'yearly'. Valid options: minutely, hourly, daily, never"),
        _ => panic!("expected an error"),
    }
}

#[test]
fn zero_max_log_files_keeps_every_file() {
    let files = vec![log_file("comelit-hub.2024-01-01.log", 1), log_file("comelit-hub.2024-01-02.log", 2)];
    let mut config = LogConfig::default();
    config.max_log_files = 0;
    assert!(logs_to_delete(&files, &config).is_empty());
    config.max_log_files = 1;
    assert_eq!(logs_to_delete(&files, &config), vec![0]);
}
