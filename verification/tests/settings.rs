use kafka_publish::settings::{FieldValue, LoggingLevel, Security, Settings, SettingsError};

fn fields_of(json: &str) -> Vec<(String, FieldValue)> {
    let document: serde_json::Value = serde_json::from_str(json).unwrap();
    let mut fields = Vec::new();
    for (name, value) in document.as_object().unwrap() {
        let value = match value {
            serde_json::Value::Null => FieldValue::Null,
            serde_json::Value::Bool(flag) => FieldValue::Bool(*flag),
            serde_json::Value::String(text) => FieldValue::Text(text.clone()),
            serde_json::Value::Number(_) => FieldValue::Other,
            serde_json::Value::Array(_) => FieldValue::Other,
            serde_json::Value::Object(_) => FieldValue::Other,
        };
        fields.push((name.clone(), value));
    }
    fields
}

fn text(name: &str, value: &str) -> (String, FieldValue) {
    (name.to_string(), FieldValue::Text(value.to_string()))
}

fn complete() -> Vec<(String, FieldValue)> {
    vec![
        text("bootstrap_servers", "localhost:9092"),
        text("topic", "test-topic"),
        text("group", "test-group"),
        text("broker_timeout_milis", "1000"),
        text("headers", "key1:val1,key2:val2"),
        text("key", "test-key"),
        text("body_file", "body.txt"),
        text("logging_level", "DEBUG"),
        ("ssl_enabled".to_string(), FieldValue::Bool(false)),
        text("ssl_protocol", "TLSv1.2"),
        text("ssl_ca_file", "ca.pem"),
        text("ssl_client_cert_file", "client.pem"),
        text("ssl_private_key_location", "client.key"),
        text("ssl_key_password", "password"),
        text("sasl_mechanisms", "PLAIN"),
        text("sasl_username", "user"),
        text("sasl_password", "pass"),
    ]
}

fn without(name: &str) -> Vec<(String, FieldValue)> {
    complete().into_iter().filter(|(n, _)| n != name).collect()
}

fn replaced(name: &str, value: FieldValue) -> Vec<(String, FieldValue)> {
    complete()
        .into_iter()
        .map(|(n, v)| if n == name { (n, value.clone()) } else { (n, v) })
        .collect()
}

#[test]
fn test_settings_deserialize() {
    let json = r#"{
        "bootstrap_servers": "localhost:9092",
        "topic": "test-topic",
        "group": "test-group",
        "broker_timeout_milis": "1000",
        "headers": "key1:val1,key2:val2",
        "key": "test-key",
        "body_file": "body.txt",
        "logging_level": "DEBUG",
        "ssl_enabled": false,
        "ssl_protocol": "TLSv1.2",
        "ssl_ca_file": "ca.pem",
        "ssl_client_cert_file": "client.pem",
        "ssl_private_key_location": "client.key",
        "ssl_key_password": "password",
        "sasl_mechanisms": "PLAIN",
        "sasl_username": "user",
        "sasl_password": "pass"
    }"#;
    let settings: Settings = Settings::from_fields(&fields_of(json)).unwrap();
    assert_eq!(settings.bootstrap_servers, "localhost:9092");
    assert_eq!(settings.topic, "test-topic");
    assert_eq!(settings.group, "test-group");
    assert_eq!(settings.broker_timeout_milis, "1000");
    assert_eq!(settings.headers.as_deref(), Some("key1:val1,key2:val2"));
    assert_eq!(settings.key, "test-key");
    assert_eq!(settings.body_file, "body.txt");
}

#[test]
fn every_field_is_read_as_written() {
    let settings = Settings::from_fields(&complete()).unwrap();
    let expected = Settings {
        bootstrap_servers: "localhost:9092".to_string(),
        topic: "test-topic".to_string(),
        group: "test-group".to_string(),
        broker_timeout_milis: "1000".to_string(),
        headers: Some("key1:val1,key2:val2".to_string()),
        key: "test-key".to_string(),
        body_file: "body.txt".to_string(),
        logging_level: LoggingLevel::DEBUG,
        ssl_enabled: false,
        ssl_protocol: "TLSv1.2".to_string(),
        ssl_ca_file: "ca.pem".to_string(),
        ssl_client_cert_file: "client.pem".to_string(),
        ssl_private_key_location: "client.key".to_string(),
        ssl_key_password: "password".to_string(),
        sasl_mechanisms: "PLAIN".to_string(),
        sasl_username: "user".to_string(),
        sasl_password: "pass".to_string(),
    };
    assert_eq!(settings, expected);
}

#[test]
fn the_order_of_the_document_does_not_matter() {
    let mut fields = complete();
    fields.reverse();
    assert_eq!(Settings::from_fields(&fields), Settings::from_fields(&complete()));
}

#[test]
fn fields_of_other_names_are_passed_over() {
    let mut fields = complete();
    fields.insert(0, text("comment", "not a setting"));
    fields.push(("retries".to_string(), FieldValue::Other));
    assert_eq!(Settings::from_fields(&fields), Settings::from_fields(&complete()));
}

#[test]
fn each_required_field_must_be_there() {
    let required = [
        "bootstrap_servers",
        "topic",
        "group",
        "broker_timeout_milis",
        "key",
        "body_file",
        "logging_level",
        "ssl_enabled",
        "ssl_protocol",
        "ssl_ca_file",
        "ssl_client_cert_file",
        "ssl_private_key_location",
        "ssl_key_password",
        "sasl_mechanisms",
        "sasl_username",
        "sasl_password",
    ];
    for name in required {
        assert_eq!(
            Settings::from_fields(&without(name)),
            Err(SettingsError::MissingField(name.to_string()))
        );
    }
}

#[test]
fn a_document_without_fields_lacks_the_first_field() {
    assert_eq!(
        Settings::from_fields(&Vec::new()),
        Err(SettingsError::MissingField("bootstrap_servers".to_string()))
    );
}

#[test]
fn missing_field_fails_from_json_too() {
    let json = r#"{ "bootstrap_servers": "localhost:9092", "group": "test-group" }"#;
    assert_eq!(
        Settings::from_fields(&fields_of(json)),
        Err(SettingsError::MissingField("topic".to_string()))
    );
}

#[test]
fn headers_may_be_absent_or_null() {
    let absent = Settings::from_fields(&without("headers")).unwrap();
    assert_eq!(absent.headers, None);
    let null = Settings::from_fields(&replaced("headers", FieldValue::Null)).unwrap();
    assert_eq!(null.headers, None);
    assert_eq!(absent, null);
}

#[test]
fn headers_of_another_type_are_an_error() {
    assert_eq!(
        Settings::from_fields(&replaced("headers", FieldValue::Bool(true))),
        Err(SettingsError::WrongType("headers".to_string()))
    );
}

#[test]
fn a_required_string_cannot_be_null_or_of_another_type() {
    assert_eq!(
        Settings::from_fields(&replaced("topic", FieldValue::Null)),
        Err(SettingsError::WrongType("topic".to_string()))
    );
    assert_eq!(
        Settings::from_fields(&replaced("broker_timeout_milis", FieldValue::Other)),
        Err(SettingsError::WrongType("broker_timeout_milis".to_string()))
    );
    assert_eq!(
        Settings::from_fields(&replaced("key", FieldValue::Bool(false))),
        Err(SettingsError::WrongType("key".to_string()))
    );
}

#[test]
fn a_number_in_json_is_no_string() {
    let mut fields = without("broker_timeout_milis");
    fields.extend(fields_of(r#"{ "broker_timeout_milis": 1000 }"#));
    assert_eq!(
        Settings::from_fields(&fields),
        Err(SettingsError::WrongType("broker_timeout_milis".to_string()))
    );
}

#[test]
fn ssl_enabled_must_be_a_truth_value() {
    assert_eq!(
        Settings::from_fields(&replaced("ssl_enabled", FieldValue::Text("false".to_string()))),
        Err(SettingsError::WrongType("ssl_enabled".to_string()))
    );
    let on = Settings::from_fields(&replaced("ssl_enabled", FieldValue::Bool(true))).unwrap();
    assert!(on.ssl_enabled);
}

#[test]
fn a_field_that_occurs_twice_is_an_error() {
    let mut fields = complete();
    fields.push(text("topic", "other-topic"));
    assert_eq!(
        Settings::from_fields(&fields),
        Err(SettingsError::DuplicateField("topic".to_string()))
    );
    let mut same = complete();
    same.push(text("sasl_password", "pass"));
    assert_eq!(
        Settings::from_fields(&same),
        Err(SettingsError::DuplicateField("sasl_password".to_string()))
    );
}

#[test]
fn the_first_unreadable_field_gives_the_error() {
    let mut fields = without("sasl_username");
    fields.retain(|(name, _)| name != "group");
    assert_eq!(
        Settings::from_fields(&fields),
        Err(SettingsError::MissingField("group".to_string()))
    );
}

#[test]
fn only_three_logging_levels_are_known() {
    for (name, level) in [
        ("ERROR", LoggingLevel::ERROR),
        ("INFO", LoggingLevel::INFO),
        ("DEBUG", LoggingLevel::DEBUG),
    ] {
        let fields = replaced("logging_level", FieldValue::Text(name.to_string()));
        assert_eq!(Settings::from_fields(&fields).unwrap().logging_level, level);
    }
    for name in ["debug", "WARN", "TRACE", "", "DEBUG ", "Info"] {
        let fields = replaced("logging_level", FieldValue::Text(name.to_string()));
        assert_eq!(
            Settings::from_fields(&fields),
            Err(SettingsError::UnknownLoggingLevel(name.to_string()))
        );
    }
}

#[test]
fn logging_level_names_round_trip() {
    for level in [LoggingLevel::ERROR, LoggingLevel::INFO, LoggingLevel::DEBUG] {
        assert_eq!(LoggingLevel::parse(level.name()), Some(level));
    }
    assert_eq!(LoggingLevel::ERROR.name(), "ERROR");
    assert_eq!(LoggingLevel::INFO.name(), "INFO");
    assert_eq!(LoggingLevel::DEBUG.name(), "DEBUG");
    assert_eq!(LoggingLevel::parse("error"), None);
    assert_eq!(LoggingLevel::parse(""), None);
}

#[test]
fn errors_are_put_in_words() {
    assert_eq!(
        SettingsError::MissingField("topic".to_string()).message(),
        "missing field: topic"
    );
    assert_eq!(
        SettingsError::DuplicateField("key".to_string()).message(),
        "duplicate field: key"
    );
    assert_eq!(
        SettingsError::WrongType("ssl_enabled".to_string()).message(),
        "wrong type in field: ssl_enabled"
    );
    assert_eq!(
        SettingsError::UnknownLoggingLevel("WARN".to_string()).message(),
        "unknown logging level: WARN"
    );
}

#[test]
fn security_follows_the_protocol_selector() {
    let off = Settings::from_fields(&complete()).unwrap();
    assert_eq!(off.security(), Some(Security::Plaintext));

    let mut ssl = off.clone();
    ssl.ssl_enabled = true;
    ssl.ssl_protocol = "ssl".to_string();
    assert_eq!(ssl.security(), Some(Security::Ssl));

    let mut sasl = ssl.clone();
    sasl.ssl_protocol = "sasl_ssl".to_string();
    assert_eq!(sasl.security(), Some(Security::SaslSsl));
}

#[test]
fn an_unknown_protocol_selector_names_no_security() {
    let mut settings = Settings::from_fields(&complete()).unwrap();
    settings.ssl_enabled = true;
    for selector in ["TLSv1.2", "", "SSL", "ssl ", "sasl", "sasl_plaintext"] {
        settings.ssl_protocol = selector.to_string();
        assert_eq!(settings.security(), None);
    }
}

#[test]
fn the_protocol_selector_is_not_read_while_ssl_is_off() {
    let mut settings = Settings::from_fields(&complete()).unwrap();
    for selector in ["ssl", "sasl_ssl", "anything", ""] {
        settings.ssl_protocol = selector.to_string();
        assert_eq!(settings.security(), Some(Security::Plaintext));
    }
}
