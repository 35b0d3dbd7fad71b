use clap::{Arg, ArgAction, Command};
use kafka_publish::args::{Args, Flag};

fn command(name: &'static str) -> Command {
    let mut command = Command::new(name);
    for flag in Flag::all() {
        command = command.arg(
            Arg::new(flag.long())
                .short(flag.short())
                .long(flag.long())
                .action(ArgAction::Set),
        );
    }
    command
}

fn parse_from(argv: &[&'static str]) -> Args {
    let matches = command(argv[0]).get_matches_from(argv);
    let mut args = Args::new();
    for flag in Flag::all() {
        args = args.with_value(flag, matches.get_one::<String>(flag.long()).cloned());
    }
    args
}

#[test]
fn test_args_parsing() {
    let args = parse_from(&[
        "prog",
        "-b", "localhost:9092",
        "-t", "test-topic",
        "-g", "test-group",
        "-z", "1000",
        "-s", "settings.json",
        "-H", "key1:val1,key2:val2",
        "-k", "test-key",
        "-f", "body.txt",
    ]);
    assert_eq!(args.bootstrap_servers.as_deref(), Some("localhost:9092"));
    assert_eq!(args.topic.as_deref(), Some("test-topic"));
    assert_eq!(args.group.as_deref(), Some("test-group"));
    assert_eq!(args.broker_timeout_milis.as_deref(), Some("1000"));
    assert_eq!(args.settings.as_deref(), Some("settings.json"));
    assert_eq!(args.headers.as_deref(), Some("key1:val1,key2:val2"));
    assert_eq!(args.key.as_deref(), Some("test-key"));
    assert_eq!(args.body_file.as_deref(), Some("body.txt"));
}

#[test]
fn long_flags_are_parsed_like_short_ones() {
    let args = parse_from(&[
        "prog",
        "--bootstrap", "broker:9092",
        "--topic", "events",
        "--group", "readers",
        "--timeout", "250",
        "--settings", "other.json",
        "--headers", "a:b",
        "--key", "k",
        "--body_file", "payload.txt",
    ]);
    assert_eq!(args.bootstrap_servers.as_deref(), Some("broker:9092"));
    assert_eq!(args.topic.as_deref(), Some("events"));
    assert_eq!(args.group.as_deref(), Some("readers"));
    assert_eq!(args.broker_timeout_milis.as_deref(), Some("250"));
    assert_eq!(args.settings.as_deref(), Some("other.json"));
    assert_eq!(args.headers.as_deref(), Some("a:b"));
    assert_eq!(args.key.as_deref(), Some("k"));
    assert_eq!(args.body_file.as_deref(), Some("payload.txt"));
}

#[test]
fn no_flag_gives_no_override() {
    let args = parse_from(&["prog"]);
    assert_eq!(args, Args::new());
    assert_eq!(args.bootstrap_servers, None);
    assert_eq!(args.settings, None);
    assert_eq!(args.body_file, None);
}

#[test]
fn flags_have_the_documented_letters_and_names() {
    let table: Vec<(char, &str)> = Flag::all().iter().map(|f| (f.short(), f.long())).collect();
    assert_eq!(
        table,
        vec![
            ('b', "bootstrap"),
            ('t', "topic"),
            ('g', "group"),
            ('z', "timeout"),
            ('s', "settings"),
            ('H', "headers"),
            ('k', "key"),
            ('f', "body_file"),
        ]
    );
}

#[test]
fn all_flags_are_listed_once_in_field_order() {
    assert_eq!(
        Flag::all(),
        vec![
            Flag::Bootstrap,
            Flag::Topic,
            Flag::Group,
            Flag::Timeout,
            Flag::Settings,
            Flag::Headers,
            Flag::Key,
            Flag::BodyFile,
        ]
    );
}

#[test]
fn with_value_sets_one_field_only() {
    let args = Args::new().with_value(Flag::Key, Some("k1".to_string()));
    assert_eq!(args.key.as_deref(), Some("k1"));
    let expected = Args {
        bootstrap_servers: None,
        topic: None,
        group: None,
        broker_timeout_milis: None,
        settings: None,
        headers: None,
        key: Some("k1".to_string()),
        body_file: None,
    };
    assert_eq!(args, expected);
    let cleared = args.with_value(Flag::Key, None);
    assert_eq!(cleared, Args::new());
}

#[test]
fn with_value_reaches_every_field() {
    let mut args = Args::new();
    for (i, flag) in Flag::all().into_iter().enumerate() {
        args = args.with_value(flag, Some(format!("v{}", i)));
    }
    assert_eq!(args.bootstrap_servers.as_deref(), Some("v0"));
    assert_eq!(args.topic.as_deref(), Some("v1"));
    assert_eq!(args.group.as_deref(), Some("v2"));
    assert_eq!(args.broker_timeout_milis.as_deref(), Some("v3"));
    assert_eq!(args.settings.as_deref(), Some("v4"));
    assert_eq!(args.headers.as_deref(), Some("v5"));
    assert_eq!(args.key.as_deref(), Some("v6"));
    assert_eq!(args.body_file.as_deref(), Some("v7"));
}

#[test]
fn settings_path_defaults_to_settings_json() {
    assert_eq!(Args::new().settings_path(), "settings.json");
}

#[test]
fn settings_path_takes_the_override() {
    let args = Args::new().with_value(Flag::Settings, Some("conf/prod.json".to_string()));
    assert_eq!(args.settings_path(), "conf/prod.json");
}
