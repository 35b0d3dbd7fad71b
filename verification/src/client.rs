//! The properties that the broker client is configured with.
//!
//! Six properties are always set: the servers, three timeouts that all hold
//! the broker timeout, no retries, and keep-alive on the socket. Where SSL is
//! on, the protocol selector adds those of its mode. The mode `ssl` names a
//! client certificate and a private key; the mode `sasl_ssl` names neither.

use crate::effective::{EffectiveConfig, EffectiveConfigView};
use crate::settings::{Security, Settings, SettingsView};
use crate::text::copy_text;
use vstd::prelude::*;

verus! {

/// How many seconds the publisher waits for the broker to acknowledge the
/// message.
pub const DELIVERY_WAIT_SECONDS: u64 = 5;

/// The properties that are set whatever the security.
pub open spec fn spec_base_properties(config: EffectiveConfigView) -> Seq<(Seq<char>, Seq<char>)> {
    seq![
        ("bootstrap.servers"@, config.bootstrap_servers),
        ("socket.timeout.ms"@, config.broker_timeout_milis),
        ("message.timeout.ms"@, config.broker_timeout_milis),
        ("request.timeout.ms"@, config.broker_timeout_milis),
        ("retries"@, "0"@),
        ("socket.keepalive.enable"@, "true"@),
    ]
}

/// The properties that the security of the settings adds.
pub open spec fn spec_security_properties(settings: SettingsView) -> Seq<(Seq<char>, Seq<char>)> {
    match settings.security() {
        Some(Security::Ssl) => seq![
            ("security.protocol"@, settings.ssl_protocol),
            ("ssl.ca.location"@, settings.ssl_ca_file),
            ("ssl.certificate.location"@, settings.ssl_client_cert_file),
            ("ssl.key.location"@, settings.ssl_private_key_location),
            ("ssl.key.password"@, settings.ssl_key_password),
        ],
        Some(Security::SaslSsl) => seq![
            ("security.protocol"@, settings.ssl_protocol),
            ("sasl.mechanisms"@, settings.sasl_mechanisms),
            ("sasl.username"@, settings.sasl_username),
            ("sasl.password"@, settings.sasl_password),
            ("ssl.ca.location"@, settings.ssl_ca_file),
        ],
        _ => Seq::empty(),
    }
}

/// The properties of the client, in the order in which they are set.
pub open spec fn spec_client_properties(
    config: EffectiveConfigView,
    settings: SettingsView,
) -> Seq<(Seq<char>, Seq<char>)> {
    spec_base_properties(config) + spec_security_properties(settings)
}

/// One property, with a name that is fixed and a value of the configuration.
fn property(name: &str, value: &String) -> (pair: (String, String))
    ensures
        pair.deep_view() == (name@, value@),
{
    (name.to_owned(), copy_text(value))
}

/// One property whose name and value are both fixed.
fn fixed_property(name: &str, value: &str) -> (pair: (String, String))
    ensures
        pair.deep_view() == (name@, value@),
{
    (name.to_owned(), value.to_owned())
}

/// The properties that are set whatever the security.
pub fn base_properties(config: &EffectiveConfig) -> (properties: Vec<(String, String)>)
    ensures
        properties.deep_view() == spec_base_properties(config@),
{
    let mut properties: Vec<(String, String)> = Vec::new();
    properties.push(property("bootstrap.servers", &config.bootstrap_servers));
    properties.push(property("socket.timeout.ms", &config.broker_timeout_milis));
    properties.push(property("message.timeout.ms", &config.broker_timeout_milis));
    properties.push(property("request.timeout.ms", &config.broker_timeout_milis));
    properties.push(fixed_property("retries", "0"));
    properties.push(fixed_property("socket.keepalive.enable", "true"));
    assert(properties.deep_view() =~= spec_base_properties(config@));
    properties
}

/// The properties that the security of the settings adds.
///
/// The settings must name a security: with SSL on, a protocol selector other
/// than `ssl` and `sasl_ssl` has no properties.
pub fn security_properties(settings: &Settings) -> (properties: Vec<(String, String)>)
    requires
        settings@.security() is Some,
    ensures
        properties.deep_view() == spec_security_properties(settings@),
{
    let mut properties: Vec<(String, String)> = Vec::new();
    match settings.security() {
        Some(Security::Ssl) => {
            properties.push(property("security.protocol", &settings.ssl_protocol));
            properties.push(property("ssl.ca.location", &settings.ssl_ca_file));
            properties.push(property("ssl.certificate.location", &settings.ssl_client_cert_file));
            properties.push(property("ssl.key.location", &settings.ssl_private_key_location));
            properties.push(property("ssl.key.password", &settings.ssl_key_password));
        },
        Some(Security::SaslSsl) => {
            properties.push(property("security.protocol", &settings.ssl_protocol));
            properties.push(property("sasl.mechanisms", &settings.sasl_mechanisms));
            properties.push(property("sasl.username", &settings.sasl_username));
            properties.push(property("sasl.password", &settings.sasl_password));
            properties.push(property("ssl.ca.location", &settings.ssl_ca_file));
        },
        _ => {},
    }
    assert(properties.deep_view() =~= spec_security_properties(settings@));
    properties
}

/// The properties of the client, in the order in which they are set.
///
/// The settings must name a security: with SSL on, a protocol selector other
/// than `ssl` and `sasl_ssl` has no client.
pub fn client_properties(config: &EffectiveConfig, settings: &Settings) -> (properties: Vec<
    (String, String),
>)
    requires
        settings@.security() is Some,
    ensures
        properties.deep_view() == spec_client_properties(config@, settings@),
{
    let mut properties = base_properties(config);
    let mut added = security_properties(settings);
    let ghost base = properties.deep_view();
    let ghost extra = added.deep_view();
    properties.append(&mut added);
    assert(properties.deep_view() =~= base + extra);
    properties
}

/// The properties that a configuration holds after `properties` were set on
/// an empty one in their order: for each name the value that was set last.
pub open spec fn entries_of(properties: Seq<(Seq<char>, Seq<char>)>) -> Map<Seq<char>, Seq<char>>
    decreases properties.len(),
{
    if properties.len() == 0 {
        Map::empty()
    } else {
        entries_of(properties.drop_last()).insert(properties.last().0, properties.last().1)
    }
}

/// Whether the property at position `i` has the name `name`.
pub open spec fn sets_name(properties: Seq<(Seq<char>, Seq<char>)>, i: int, name: Seq<char>) -> bool {
    0 <= i < properties.len() && properties[i].0 == name
}

/// A configuration holds a value for exactly the names that were set.
pub proof fn lemma_entries_of_names(properties: Seq<(Seq<char>, Seq<char>)>)
    ensures
        forall|name: Seq<char>|
            entries_of(properties).dom().contains(name) <==> exists|i: int|
                sets_name(properties, i, name),
    decreases properties.len(),
{
    if properties.len() > 0 {
        let before = properties.drop_last();
        lemma_entries_of_names(before);
        assert forall|name: Seq<char>|
            entries_of(properties).dom().contains(name) <==> exists|i: int|
                sets_name(properties, i, name) by {
            if entries_of(properties).dom().contains(name) {
                if name == properties.last().0 {
                    assert(sets_name(properties, properties.len() - 1, name));
                } else {
                    assert(entries_of(before).dom().contains(name));
                    let i = choose|i: int| sets_name(before, i, name);
                    assert(sets_name(properties, i, name));
                }
            }
            if exists|i: int| sets_name(properties, i, name) {
                let i = choose|i: int| sets_name(properties, i, name);
                if i < properties.len() - 1 {
                    assert(sets_name(before, i, name));
                    assert(entries_of(before).dom().contains(name));
                }
            }
        }
    }
}

/// A property whose name is not set again later keeps its value.
pub proof fn lemma_entries_of_value(properties: Seq<(Seq<char>, Seq<char>)>, i: int)
    requires
        0 <= i < properties.len(),
        forall|j: int| i < j < properties.len() ==> properties[j].0 != properties[i].0,
    ensures
        entries_of(properties).dom().contains(properties[i].0),
        entries_of(properties)[properties[i].0] == properties[i].1,
    decreases properties.len(),
{
    if i < properties.len() - 1 {
        lemma_entries_of_value(properties.drop_last(), i);
    }
}

/// The names of the properties that are always set.
pub open spec fn base_names() -> Set<Seq<char>> {
    set![
        "bootstrap.servers"@,
        "socket.timeout.ms"@,
        "message.timeout.ms"@,
        "request.timeout.ms"@,
        "retries"@,
        "socket.keepalive.enable"@,
    ]
}

/// The names of the properties that a security adds.
pub open spec fn security_names(security: Security) -> Set<Seq<char>> {
    match security {
        Security::Plaintext => Set::empty(),
        Security::Ssl => set![
            "security.protocol"@,
            "ssl.ca.location"@,
            "ssl.certificate.location"@,
            "ssl.key.location"@,
            "ssl.key.password"@,
        ],
        Security::SaslSsl => set![
            "security.protocol"@,
            "sasl.mechanisms"@,
            "sasl.username"@,
            "sasl.password"@,
            "ssl.ca.location"@,
        ],
    }
}

/// What tells the names of the properties apart: the length of each, and of
/// names of one length a character in which they differ.
proof fn lemma_names_differ()
    ensures
        "bootstrap.servers"@.len() == 17 && "bootstrap.servers"@[0] == 'b',
        "socket.timeout.ms"@.len() == 17 && "socket.timeout.ms"@[0] == 's'
            && "socket.timeout.ms"@[1] == 'o',
        "security.protocol"@.len() == 17 && "security.protocol"@[0] == 's'
            && "security.protocol"@[1] == 'e',
        "message.timeout.ms"@.len() == 18 && "message.timeout.ms"@[0] == 'm',
        "request.timeout.ms"@.len() == 18 && "request.timeout.ms"@[0] == 'r',
        "retries"@.len() == 7,
        "socket.keepalive.enable"@.len() == 23,
        "ssl.ca.location"@.len() == 15 && "ssl.ca.location"@[1] == 's',
        "sasl.mechanisms"@.len() == 15 && "sasl.mechanisms"@[1] == 'a',
        "ssl.certificate.location"@.len() == 24,
        "ssl.key.location"@.len() == 16 && "ssl.key.location"@[8] == 'l',
        "ssl.key.password"@.len() == 16 && "ssl.key.password"@[8] == 'p',
        "sasl.username"@.len() == 13 && "sasl.username"@[5] == 'u',
        "sasl.password"@.len() == 13 && "sasl.password"@[5] == 'p',
{
    reveal_strlit("bootstrap.servers");
    reveal_strlit("socket.timeout.ms");
    reveal_strlit("security.protocol");
    reveal_strlit("message.timeout.ms");
    reveal_strlit("request.timeout.ms");
    reveal_strlit("retries");
    reveal_strlit("socket.keepalive.enable");
    reveal_strlit("ssl.ca.location");
    reveal_strlit("sasl.mechanisms");
    reveal_strlit("ssl.certificate.location");
    reveal_strlit("ssl.key.location");
    reveal_strlit("ssl.key.password");
    reveal_strlit("sasl.username");
    reveal_strlit("sasl.password");
}

/// The two securities share the protocol and the CA file and nothing else,
/// and neither sets a name that is always set. With `sasl_ssl`, no client
/// certificate and no private key is named; with `ssl`, no SASL credential.
pub proof fn lemma_security_names()
    ensures
        security_names(Security::Ssl).intersect(security_names(Security::SaslSsl)) == set![
            "security.protocol"@,
            "ssl.ca.location"@,
        ],
        base_names().disjoint(security_names(Security::Ssl)),
        base_names().disjoint(security_names(Security::SaslSsl)),
        !security_names(Security::SaslSsl).contains("ssl.certificate.location"@),
        !security_names(Security::SaslSsl).contains("ssl.key.location"@),
        !security_names(Security::SaslSsl).contains("ssl.key.password"@),
        !security_names(Security::Ssl).contains("sasl.mechanisms"@),
        !security_names(Security::Ssl).contains("sasl.username"@),
        !security_names(Security::Ssl).contains("sasl.password"@),
{
    lemma_names_differ();
    assert(security_names(Security::Ssl).intersect(security_names(Security::SaslSsl)) =~= set![
        "security.protocol"@,
        "ssl.ca.location"@,
    ]);
}

/// The client configuration of a run holds the properties that are always
/// set and those of its security, no others, each with the value that the
/// configuration or the settings give.
pub proof fn lemma_client_entries(config: EffectiveConfigView, settings: SettingsView)
    requires
        settings.security() is Some,
    ensures
        ({
            let entries = entries_of(spec_client_properties(config, settings));
            &&& entries.dom() == base_names().union(security_names(settings.security()->0))
            &&& entries["bootstrap.servers"@] == config.bootstrap_servers
            &&& entries["socket.timeout.ms"@] == config.broker_timeout_milis
            &&& entries["message.timeout.ms"@] == config.broker_timeout_milis
            &&& entries["request.timeout.ms"@] == config.broker_timeout_milis
            &&& entries["retries"@] == "0"@
            &&& entries["socket.keepalive.enable"@] == "true"@
            &&& settings.security() == Some(Security::Ssl) ==> {
                &&& entries["security.protocol"@] == "ssl"@
                &&& entries["ssl.ca.location"@] == settings.ssl_ca_file
                &&& entries["ssl.certificate.location"@] == settings.ssl_client_cert_file
                &&& entries["ssl.key.location"@] == settings.ssl_private_key_location
                &&& entries["ssl.key.password"@] == settings.ssl_key_password
            }
            &&& settings.security() == Some(Security::SaslSsl) ==> {
                &&& entries["security.protocol"@] == "sasl_ssl"@
                &&& entries["sasl.mechanisms"@] == settings.sasl_mechanisms
                &&& entries["sasl.username"@] == settings.sasl_username
                &&& entries["sasl.password"@] == settings.sasl_password
                &&& entries["ssl.ca.location"@] == settings.ssl_ca_file
            }
        }),
{
    let properties = spec_client_properties(config, settings);
    let entries = entries_of(properties);
    lemma_names_differ();
    lemma_entries_of_names(properties);
    let names = base_names().union(security_names(settings.security()->0));
    assert forall|name: Seq<char>| entries.dom().contains(name) <==> names.contains(name) by {
        if entries.dom().contains(name) {
            let i = choose|i: int| sets_name(properties, i, name);
            assert(properties[i].0 == name);
        }
        if names.contains(name) {
            assert(sets_name(properties, 0, properties[0].0));
            assert(sets_name(properties, 1, properties[1].0));
            assert(sets_name(properties, 2, properties[2].0));
            assert(sets_name(properties, 3, properties[3].0));
            assert(sets_name(properties, 4, properties[4].0));
            assert(sets_name(properties, 5, properties[5].0));
            if settings.security() != Some(Security::Plaintext) {
                assert(sets_name(properties, 6, properties[6].0));
                assert(sets_name(properties, 7, properties[7].0));
                assert(sets_name(properties, 8, properties[8].0));
                assert(sets_name(properties, 9, properties[9].0));
                assert(sets_name(properties, 10, properties[10].0));
            }
        }
    }
    assert(entries.dom() =~= names);
    lemma_entries_of_value(properties, 0);
    lemma_entries_of_value(properties, 1);
    lemma_entries_of_value(properties, 2);
    lemma_entries_of_value(properties, 3);
    lemma_entries_of_value(properties, 4);
    lemma_entries_of_value(properties, 5);
    if settings.security() != Some(Security::Plaintext) {
        lemma_entries_of_value(properties, 6);
        lemma_entries_of_value(properties, 7);
        lemma_entries_of_value(properties, 8);
        lemma_entries_of_value(properties, 9);
        lemma_entries_of_value(properties, 10);
    }
}

} // verus!
