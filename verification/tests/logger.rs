use durabletask::logger::{LogLevel, Logger};

#[test]
fn test_log_levels() {
    let mut logger = Logger::new();

    logger.debug("Debug message");
    logger.info("Info message");
    logger.warning("Warning message");
    logger.error("Error message");

    let output = logger.output();
    assert_eq!(output, "DEBUG: Debug message\nINFO: Info message\nWARNING: Warning message\nERROR: Error message\n");
}

#[test]
fn test_log_method() {
    let mut logger = Logger::new();

    logger.log(LogLevel::Debug, "Test debug");
    logger.log(LogLevel::Info, "Test info");
    logger.log(LogLevel::Warning, "Test warning");
    logger.log(LogLevel::Error, "Test error");

    let output = logger.output();
    assert_eq!(
        output,
        "DEBUG: Test debug\nINFO: Test info\nWARNING: Test warning\nERROR: Test error\n"
    );
}

#[test]
fn test_log_level_default() {
    assert_eq!(LogLevel::default(), LogLevel::Info);
}

#[test]
fn test_into_string() {
    let mut logger = Logger::new();

    logger.info(String::from("String message").as_str());
    logger.info("&str message");

    let output = logger.output();
    assert_eq!(output, "INFO: String message\nINFO: &str message\n");
}

#[test]
fn test_take_output_empties_buffer() {
    let mut logger = Logger::new();
    logger.info("once");
    let taken = logger.take_output();
    assert_eq!(taken, "INFO: once\n");
    assert_eq!(logger.output(), "");
}
