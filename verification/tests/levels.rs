use rust_logger::LogLevel;

const LEVELS: [LogLevel; 4] = [
    LogLevel::Nothing,
    LogLevel::Error,
    LogLevel::Warning,
    LogLevel::Message,
];

#[test]
fn ranks_follow_the_order_of_severities() {
    assert_eq!(LogLevel::Nothing.rank(), 0);
    assert_eq!(LogLevel::Error.rank(), 1);
    assert_eq!(LogLevel::Warning.rank(), 2);
    assert_eq!(LogLevel::Message.rank(), 3);
}

#[test]
fn ranks_tell_levels_apart() {
    for a in LEVELS {
        for b in LEVELS {
            assert_eq!(a.rank() == b.rank(), a == b);
        }
    }
}

#[test]
fn severity_compares_ranks() {
    for a in LEVELS {
        for b in LEVELS {
            assert_eq!(a.is_at_least_as_severe(b), a.rank() <= b.rank());
        }
    }
}

#[test]
fn error_is_more_severe_than_warning() {
    assert!(LogLevel::Error.is_at_least_as_severe(LogLevel::Warning));
    assert!(!LogLevel::Warning.is_at_least_as_severe(LogLevel::Error));
    assert!(LogLevel::Warning.is_at_least_as_severe(LogLevel::Warning));
    assert!(LogLevel::Nothing.is_at_least_as_severe(LogLevel::Error));
    assert!(!LogLevel::Message.is_at_least_as_severe(LogLevel::Warning));
}

#[test]
fn display_names_are_in_capitals() {
    assert_eq!(LogLevel::Nothing.display_name(), "NOTHING");
    assert_eq!(LogLevel::Error.display_name(), "ERROR");
    assert_eq!(LogLevel::Warning.display_name(), "WARNING");
    assert_eq!(LogLevel::Message.display_name(), "MESSAGE");
}

#[test]
fn symbols_are_the_declared_names() {
    assert_eq!(LogLevel::Nothing.to_string(), "Nothing");
    assert_eq!(LogLevel::Error.to_string(), "Error");
    assert_eq!(LogLevel::Warning.to_string(), "Warning");
    assert_eq!(LogLevel::Message.to_string(), "Message");
}

#[test]
fn display_name_is_the_symbol_uppercased() {
    for level in LEVELS {
        assert_eq!(level.display_name(), level.to_string().to_uppercase());
    }
}

#[test]
fn levels_are_copied_and_compared() {
    let a = LogLevel::Warning;
    let b = a;
    assert_eq!(a, b);
    assert_ne!(a, LogLevel::Error);
    assert_eq!(format!("{:?}", a), "Warning");
}
