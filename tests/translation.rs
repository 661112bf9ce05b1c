use log4rs::{
    extract, parse, Appender, BuiltinCreator, ConfigError, ConsoleAppenderCreator, CreateAppender,
    CreationError, Creator, Error, FileAppenderCreator, LevelFilter, Table, Value,
};

fn s(text: &str) -> Value {
    Value::String(text.to_string())
}

fn table(entries: Vec<(&str, Value)>) -> Table {
    let mut t = Table::new();
    for (k, v) in entries {
        t.insert(k.to_string(), v);
    }
    t
}

fn names(list: &[&str]) -> Value {
    Value::Array(list.iter().map(|n| s(n)).collect())
}

#[test]
fn console_round_trip() {
    let doc = table(vec![
        ("root", Value::Table(table(vec![("level", s("debug"))]))),
        (
            "appenders",
            Value::Table(table(vec![("stdout", Value::Table(table(vec![("kind", s("console"))])))])),
        ),
    ]);
    let t = match parse(doc, &Creator::default()) {
        Ok(t) => t,
        Err(_) => panic!("translation failed"),
    };
    assert_eq!(t.refresh_rate, None);
    assert_eq!(t.config.root().level, LevelFilter::Debug);
    assert!(t.config.root().appenders.is_empty());
    assert_eq!(t.config.appenders().len(), 1);
    assert_eq!(t.config.appenders()[0].0, "stdout");
    assert!(matches!(t.config.appenders()[0].1, Appender::Console { pattern: None }));
    assert!(t.config.loggers().is_empty());
}

#[test]
fn pattern_number_fails_creation() {
    let doc = table(vec![(
        "appenders",
        Value::Table(table(vec![
            ("stdout", Value::Table(table(vec![("kind", s("console"))]))),
            (
                "log_file",
                Value::Table(table(vec![("kind", s("file")), ("path", s("log/out.log")), ("pattern", Value::Integer(123))])),
            ),
            ("stderr", Value::Table(table(vec![("kind", s("console"))]))),
        ])),
    )]);
    match parse(doc, &Creator::default()) {
        Err(Error::Creation(e)) => {
            assert!(matches!(e, CreationError::PatternNotString));
            assert_eq!(e.message(), "`pattern` must be a string");
        }
        _ => panic!("expected a creation error"),
    }
}

#[test]
fn unregistered_kind_is_named() {
    let doc = table(vec![(
        "appenders",
        Value::Table(table(vec![("sock", Value::Table(table(vec![("kind", s("socket"))])))])),
    )]);
    match parse(doc, &Creator::default()) {
        Err(Error::Creation(e)) => {
            assert_eq!(e.message(), "No creator registered for appender kind \"socket\"");
            assert!(e.message().contains("socket"));
        }
        _ => panic!("expected a creation error"),
    }
    let empty: Creator<BuiltinCreator> = Creator::new();
    match empty.create_appender("console", &Table::new()) {
        Err(CreationError::UnknownKind(k)) => assert_eq!(k, "console"),
        _ => panic!("expected an unknown kind"),
    }
}

#[test]
fn file_path_missing_or_mistyped() {
    let creator = FileAppenderCreator;
    let missing = table(vec![("pattern", s("%m")), ("extra", Value::Boolean(true))]);
    match creator.create_appender(&missing) {
        Err(e) => assert_eq!(e.message(), "`path` is required"),
        Ok(_) => panic!("expected an error"),
    }
    let mistyped = table(vec![("path", Value::Integer(7)), ("pattern", s("%m"))]);
    match creator.create_appender(&mistyped) {
        Err(e) => assert_eq!(e.message(), "`path` must be a string"),
        Ok(_) => panic!("expected an error"),
    }
    let good = table(vec![("path", s("a.log")), ("pattern", s("%m")), ("unknown", Value::Integer(1))]);
    match creator.create_appender(&good) {
        Ok(Appender::File { path, pattern }) => {
            assert_eq!(path, "a.log");
            assert_eq!(pattern, Some("%m".to_string()));
        }
        _ => panic!("expected a file appender"),
    }
}

#[test]
fn console_pattern_rules() {
    let creator = ConsoleAppenderCreator;
    match creator.create_appender(&table(vec![("pattern", Value::Boolean(false))])) {
        Err(e) => assert_eq!(e.message(), "`pattern` must be a string"),
        Ok(_) => panic!("expected an error"),
    }
    match creator.create_appender(&table(vec![("pattern", s("%l %m"))])) {
        Ok(Appender::Console { pattern }) => assert_eq!(pattern, Some("%l %m".to_string())),
        _ => panic!("expected a console appender"),
    }
}

#[test]
fn logger_defaults_applied() {
    let doc = table(vec![
        (
            "appenders",
            Value::Table(table(vec![("stdout", Value::Table(table(vec![("kind", s("console"))])))])),
        ),
        (
            "loggers",
            Value::Array(vec![
                Value::Table(table(vec![("name", s("a::b")), ("level", s("WARN"))])),
                Value::Table(table(vec![
                    ("name", s("c")),
                    ("level", s("trace")),
                    ("appenders", names(&["stdout"])),
                    ("additive", Value::Boolean(false)),
                ])),
            ]),
        ),
    ]);
    let t = match parse(doc, &Creator::default()) {
        Ok(t) => t,
        Err(_) => panic!("translation failed"),
    };
    let loggers = t.config.loggers();
    assert_eq!(loggers.len(), 2);
    assert_eq!(loggers[0].name, "a::b");
    assert_eq!(loggers[0].level, LevelFilter::Warn);
    assert!(loggers[0].additive);
    assert!(loggers[0].appenders.is_empty());
    assert_eq!(loggers[1].level, LevelFilter::Trace);
    assert!(!loggers[1].additive);
    assert_eq!(loggers[1].appenders, vec!["stdout".to_string()]);
    assert_eq!(t.config.root().level, LevelFilter::Debug);
}

#[test]
fn later_registration_replaces_earlier() {
    let mut creator = Creator::default();
    creator.add_appender("console", BuiltinCreator::File(FileAppenderCreator));
    match creator.create_appender("console", &Table::new()) {
        Err(e) => assert_eq!(e.message(), "`path` is required"),
        Ok(_) => panic!("the file factory should have refused"),
    }
    match creator.create_appender("file", &table(vec![("path", s("x.log"))])) {
        Ok(Appender::File { path, pattern: None }) => assert_eq!(path, "x.log"),
        _ => panic!("expected a file appender"),
    }
}

#[test]
fn appenders_kept_in_order() {
    let doc = table(vec![(
        "appenders",
        Value::Table(table(vec![
            ("one", Value::Table(table(vec![("kind", s("console"))]))),
            ("two", Value::Table(table(vec![("kind", s("file")), ("path", s("two.log"))]))),
            ("three", Value::Table(table(vec![("kind", s("console")), ("pattern", s("%m"))]))),
        ])),
    )]);
    let t = match parse(doc, &Creator::default()) {
        Ok(t) => t,
        Err(_) => panic!("translation failed"),
    };
    let got: Vec<&str> = t.config.appenders().iter().map(|(n, _)| n.as_str()).collect();
    assert_eq!(got, vec!["one", "two", "three"]);
}

#[test]
fn fragment_config_drops_kind() {
    let doc = table(vec![(
        "appenders",
        Value::Table(table(vec![(
            "f",
            Value::Table(table(vec![("kind", s("file")), ("path", s("p.log"))])),
        )])),
    )]);
    let raw = match extract(doc) {
        Ok(raw) => raw,
        Err(_) => panic!("extraction failed"),
    };
    assert_eq!(raw.appenders.len(), 1);
    assert_eq!(raw.appenders[0].1.kind, "file");
    assert_eq!(raw.appenders[0].1.config.entries.len(), 1);
    assert_eq!(raw.appenders[0].1.config.entries[0].0, "path");
}

#[test]
fn parse_errors_collected() {
    let doc = table(vec![
        ("refresh_rate", s("soon")),
        ("root", Value::Table(table(vec![("level", s("loud"))]))),
        ("appenders", Value::Table(table(vec![("x", Value::Table(table(vec![("path", s("a"))])))]))),
    ]);
    match parse(doc, &Creator::default()) {
        Err(Error::Parse(msgs)) => assert_eq!(msgs.len(), 3),
        _ => panic!("expected parse errors"),
    }
}

#[test]
fn refresh_rate_and_level_case() {
    let doc = table(vec![
        ("refresh_rate", Value::Integer(30)),
        ("root", Value::Table(table(vec![("level", s("InFo")), ("appenders", names(&[]))]))),
    ]);
    let t = match parse(doc, &Creator::default()) {
        Ok(t) => t,
        Err(_) => panic!("translation failed"),
    };
    assert_eq!(t.refresh_rate, Some(30));
    assert_eq!(t.config.root().level, LevelFilter::Info);
    let negative = table(vec![("refresh_rate", Value::Integer(-1))]);
    assert!(matches!(parse(negative, &Creator::default()), Err(Error::Parse(_))));
}

#[test]
fn missing_root_defaults_to_debug() {
    let t = match parse(Table::new(), &Creator::default()) {
        Ok(t) => t,
        Err(_) => panic!("translation failed"),
    };
    assert_eq!(t.config.root().level, LevelFilter::Debug);
    assert!(t.config.appenders().is_empty());
}

#[test]
fn config_errors_reported() {
    let dangling = table(vec![("root", Value::Table(table(vec![("appenders", names(&["nowhere"]))])))]);
    match parse(dangling, &Creator::default()) {
        Err(Error::Config(ConfigError::NonexistentAppender(n))) => assert_eq!(n, "nowhere"),
        _ => panic!("expected a dangling reference"),
    }
    let twice = table(vec![(
        "appenders",
        Value::Table(table(vec![
            ("a", Value::Table(table(vec![("kind", s("console"))]))),
            ("a", Value::Table(table(vec![("kind", s("console"))]))),
        ])),
    )]);
    match parse(twice, &Creator::default()) {
        Err(Error::Config(ConfigError::DuplicateAppenderName(n))) => assert_eq!(n, "a"),
        _ => panic!("expected a duplicate appender"),
    }
    let loggers = table(vec![(
        "loggers",
        Value::Array(vec![
            Value::Table(table(vec![("name", s("m"))])),
            Value::Table(table(vec![("name", s("m"))])),
        ]),
    )]);
    match parse(loggers, &Creator::default()) {
        Err(Error::Config(ConfigError::DuplicateLoggerName(n))) => assert_eq!(n, "m"),
        _ => panic!("expected a duplicate logger"),
    }
}
