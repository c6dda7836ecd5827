use renderer::logger::{header, init, Level, Logger, Target, LEVEL_WIDTH, STAMP_PLACES, STAMP_WIDTH};

fn at_start(level: Level) -> Logger {
    Logger::new_at(true, level, 1_000)
}

fn line_by_format(elapsed_ns: u64, level: &str, message: &str) -> String {
    let seconds = elapsed_ns as f64 * 0.000000001;
    format!("[{:15.5}] {:7} {}\n", seconds, format!("({})", level), message)
}

const LEVELS: [(Level, &str); 5] = [
    (Level::Error, "ERROR"),
    (Level::Warn, "WARN"),
    (Level::Info, "INFO"),
    (Level::Debug, "DEBUG"),
    (Level::Trace, "TRACE"),
];

#[test]
fn the_fields_have_their_widths() {
    assert_eq!(STAMP_WIDTH, 15);
    assert_eq!(STAMP_PLACES, 5);
    assert_eq!(LEVEL_WIDTH, 7);
}

#[test]
fn the_header_names_the_program_and_its_version() {
    assert_eq!(header("0.1.0"), "A really awesome game 0.1.0\n");
    assert_eq!(header(""), "A really awesome game \n");
}

#[test]
fn a_logger_writes_where_it_was_told_to() {
    let logger = Logger::new_at(true, Level::Info, 77);
    assert_eq!(logger, Logger { target: Target::Configured, init_time: 77, level: Level::Info });
}

#[test]
fn a_logger_falls_back_to_standard_error() {
    let logger = Logger::new_at(false, Level::Debug, 5);
    assert_eq!(logger, Logger { target: Target::Stderr, init_time: 5, level: Level::Debug });
    assert_eq!(Logger::new(false, Level::Warn).target, Target::Stderr);
    assert_eq!(Logger::new(true, Level::Warn).target, Target::Configured);
    assert_eq!(Logger::new(true, Level::Warn).level, Level::Warn);
}

#[test]
fn the_logger_of_the_program_lets_everything_through() {
    let logger = init(true);
    assert_eq!(logger.level, Level::Trace);
    assert_eq!(logger.target, Target::Configured);
    for (level, _) in LEVELS {
        assert!(logger.enabled(level));
    }
    assert_eq!(init(false).target, Target::Stderr);
}

#[test]
fn levels_are_ordered_from_error_to_trace() {
    let numbers: Vec<u8> = LEVELS.iter().map(|(level, _)| level.number()).collect();
    assert_eq!(numbers, vec![1u8, 2, 3, 4, 5]);
}

#[test]
fn a_level_is_let_through_if_it_is_no_less_grave_than_the_limit() {
    for (limit, _) in LEVELS {
        let logger = at_start(limit);
        for (level, _) in LEVELS {
            assert_eq!(logger.enabled(level), level.number() <= limit.number());
        }
    }
    let logger = at_start(Level::Warn);
    assert!(logger.enabled(Level::Error));
    assert!(logger.enabled(Level::Warn));
    assert!(!logger.enabled(Level::Info));
    assert!(!logger.enabled(Level::Debug));
    assert!(!logger.enabled(Level::Trace));
}

#[test]
fn a_line_shows_seconds_level_and_message() {
    let logger = at_start(Level::Trace);
    assert_eq!(
        logger.log_at(Level::Info, "hello", 1_500_001_000).unwrap(),
        "[        1.50000] (INFO)  hello\n"
    );
    assert_eq!(
        logger.log_at(Level::Error, "Program failed: no device", 1_000).unwrap(),
        "[        0.00000] (ERROR) Program failed: no device\n"
    );
    assert_eq!(
        logger.log_at(Level::Debug, "", 123_456_790_000 + 1_000).unwrap(),
        "[      123.45679] (DEBUG) \n"
    );
}

#[test]
fn every_level_has_its_tag() {
    let logger = at_start(Level::Trace);
    let tags = ["(ERROR)", "(WARN) ", "(INFO) ", "(DEBUG)", "(TRACE)"];
    for ((level, _), tag) in LEVELS.iter().zip(tags) {
        let line = logger.log_at(*level, "m", 1_000).unwrap();
        assert_eq!(line, format!("[        0.00000] {} m\n", tag));
    }
}

#[test]
fn a_line_is_what_format_writes() {
    let logger = at_start(Level::Trace);
    let times = [
        0u64,
        1,
        4_999,
        5_000,
        15_625_000,
        999_994_999,
        999_995_000,
        1_000_000_000,
        59_999_999_999,
        3_600_000_000_000,
        99_999_999_999_994_999,
        99_999_999_999_995_001,
        u64::MAX - 1_000,
    ];
    for elapsed_ns in times {
        for (level, name) in LEVELS {
            assert_eq!(
                logger.log_at(level, "a message: 1 2 3", 1_000 + elapsed_ns).unwrap(),
                line_by_format(elapsed_ns, name, "a message: 1 2 3")
            );
        }
    }
}

#[test]
fn seconds_wider_than_their_field_are_shown_whole() {
    let logger = Logger::new_at(true, Level::Trace, 0);
    assert_eq!(
        logger.log_at(Level::Warn, "late", u64::MAX).unwrap(),
        "[18446744073.70955] (WARN)  late\n"
    );
    assert_eq!(
        logger.log_at(Level::Warn, "late", 999_999_999_999_990_000).unwrap(),
        "[999999999.99999] (WARN)  late\n"
    );
}

#[test]
fn a_message_is_taken_as_it_is() {
    let logger = at_start(Level::Trace);
    assert_eq!(
        logger.log_at(Level::Trace, "two\nlines [x] (y) é", 1_000).unwrap(),
        "[        0.00000] (TRACE) two\nlines [x] (y) é\n"
    );
}

#[test]
fn a_level_that_is_not_let_through_gives_no_line() {
    let logger = at_start(Level::Error);
    assert_eq!(logger.log_at(Level::Warn, "quiet", 2_000), None);
    assert_eq!(logger.log_at(Level::Trace, "quiet", 2_000), None);
    assert_eq!(logger.log(Level::Info, "quiet"), None);
    assert!(logger.log_at(Level::Error, "loud", 2_000).is_some());
}

#[test]
fn time_is_counted_from_the_making_of_the_logger() {
    let logger = Logger::new_at(true, Level::Trace, 5_000_000_000);
    assert_eq!(logger.elapsed(5_000_000_000), 0);
    assert_eq!(logger.elapsed(7_250_000_000), 2_250_000_000);
    assert_eq!(
        logger.log_at(Level::Info, "x", 7_250_000_000).unwrap(),
        "[        2.25000] (INFO)  x\n"
    );
}

#[test]
fn a_reading_from_before_the_start_counts_as_the_start() {
    let logger = Logger::new_at(true, Level::Trace, 5_000_000_000);
    assert_eq!(logger.elapsed(4_999_999_999), 0);
    assert_eq!(logger.elapsed(0), 0);
    assert_eq!(
        logger.log_at(Level::Info, "x", 1).unwrap(),
        "[        0.00000] (INFO)  x\n"
    );
}

#[test]
fn later_lines_never_show_an_earlier_time() {
    let logger = Logger::new_at(true, Level::Trace, 1_000_000);
    let mut last = String::new();
    let mut now: u64 = 0;
    while now < 40_000_000 {
        let line = logger.log_at(Level::Info, "", now).unwrap();
        let stamp = line[1..16].to_string();
        assert!(last <= stamp, "{} then {}", last, stamp);
        last = stamp;
        now += 1_234;
    }
}

#[test]
fn lines_written_one_after_the_other_are_in_order() {
    let logger = init(true);
    let mut last = 0.0f64;
    for _ in 0..1_000 {
        let line = logger.log(Level::Info, "tick").unwrap();
        assert!(line.starts_with('['));
        assert!(line.ends_with("] (INFO)  tick\n"));
        let seconds: f64 = line[1..16].trim().parse().unwrap();
        assert!(last <= seconds);
        last = seconds;
    }
}
