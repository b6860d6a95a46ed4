use packurl::log::LogLevel;

#[test]
fn comparison() {
    assert!(LogLevel::Error < LogLevel::Info);
    let level1 = LogLevel::Warning;
    let level2 = LogLevel::Error;
    assert!(&level1 > &level2);
    assert!(&level1 == &LogLevel::Warning);
    assert!(level1 == LogLevel::Warning);
}

#[test]
fn log_runs_enabled_levels() {
    let mut ran = false;
    LogLevel::Error.log(|| ran = true);
    assert!(ran);
    let mut ran_debug = false;
    LogLevel::Debug.log(|| ran_debug = true);
    assert!(ran_debug);
}
