use diskomator::util::{Level, LevelFilter, MultiLogger};

#[test]
fn records_pass_up_to_the_filter() {
    let logger = MultiLogger;
    assert!(logger.enabled(Level::Error, LevelFilter::Info));
    assert!(logger.enabled(Level::Warn, LevelFilter::Info));
    assert!(logger.enabled(Level::Info, LevelFilter::Info));
    assert!(!logger.enabled(Level::Debug, LevelFilter::Info));
    assert!(!logger.enabled(Level::Trace, LevelFilter::Info));
    assert!(!logger.enabled(Level::Error, LevelFilter::Off));
    assert!(logger.enabled(Level::Trace, LevelFilter::Trace));
    assert!(logger.enabled(Level::Error, LevelFilter::Error));
    assert!(!logger.enabled(Level::Warn, LevelFilter::Error));
}

#[test]
fn line_names_level_and_target() {
    let logger = MultiLogger;
    assert_eq!(
        logger.log(Level::Info, LevelFilter::Info, "mcu::lights", "Neopixel task started"),
        Some("[INFO] mcu::lights: Neopixel task started".to_string())
    );
    assert_eq!(
        logger.log(Level::Error, LevelFilter::Trace, "", ""),
        Some("[ERROR] : ".to_string())
    );
    assert_eq!(logger.log(Level::Debug, LevelFilter::Info, "t", "m"), None);
    assert_eq!(Level::Warn.as_str(), "WARN");
    assert_eq!(Level::Debug.as_str(), "DEBUG");
    assert_eq!(Level::Trace.as_str(), "TRACE");
}
