//! The values that the broker client library takes: its client configuration
//! and the headers of a message.
//!
//! Both are collections of the client library. What they hold is named by a
//! specification function, the few calls that fill them are declared with
//! what the library's source shows of them, and the loops that fill them are
//! verified against those declarations.

use crate::client::{client_properties, entries_of, spec_client_properties};
use crate::effective::EffectiveConfig;
use crate::settings::Settings;
use rdkafka::config::ClientConfig;
use rdkafka::message::{Header, OwnedHeaders};
use vstd::prelude::*;
use vstd::string::StringSliceAdditionalSpecFns;

verus! {

/// The client configuration of the client library, `rdkafka::ClientConfig`.
#[verifier::external_type_specification]
#[verifier::external_body]
pub struct ExClientConfig(ClientConfig);

/// The headers that the client library sends with a message,
/// `rdkafka::message::OwnedHeaders`.
#[verifier::external_type_specification]
#[verifier::external_body]
pub struct ExOwnedHeaders(OwnedHeaders);

/// The properties that a client configuration holds, by name.
pub uninterp spec fn client_config_entries(config: ClientConfig) -> Map<Seq<char>, Seq<char>>;

/// The headers that a header collection holds, in the order in which they
/// were inserted: each with its name and the bytes of its value.
pub uninterp spec fn owned_headers_entries(headers: OwnedHeaders) -> Seq<(Seq<char>, Seq<u8>)>;

/// `ClientConfig::new`: a configuration that holds no property.
#[verifier::external_body]
fn new_client_config() -> (config: ClientConfig)
    ensures
        client_config_entries(config) == (Map::<Seq<char>, Seq<char>>::empty()),
{
    ClientConfig::new()
}

/// `ClientConfig::set`: the property `name` holds `value` afterwards, in place
/// of what it held before, and every other property is as it was.
#[verifier::external_body]
fn set_property(config: &mut ClientConfig, name: &str, value: &str)
    ensures
        client_config_entries(*final(config)) == client_config_entries(*old(config)).insert(
            name@,
            value@,
        ),
{
    config.set(name, value);
}

/// `OwnedHeaders::new`: a collection that holds no header.
#[verifier::external_body]
fn new_owned_headers() -> (headers: OwnedHeaders)
    ensures
        owned_headers_entries(headers) == (Seq::<(Seq<char>, Seq<u8>)>::empty()),
{
    OwnedHeaders::new()
}

/// `OwnedHeaders::insert`: the header is added behind those that are there,
/// with the name as it is handed in and the UTF-8 bytes of `value` as its
/// value.
#[verifier::external_body]
fn insert_header(headers: OwnedHeaders, name: &str, value: &str) -> (extended: OwnedHeaders)
    ensures
        owned_headers_entries(extended) == owned_headers_entries(headers).push(
            (name@, value.spec_bytes()),
        ),
{
    headers.insert(Header { key: name, value: Some(value) })
}

/// A client configuration that holds the given properties, each set in its
/// turn.
pub fn client_config_from(properties: &Vec<(String, String)>) -> (config: ClientConfig)
    ensures
        client_config_entries(config) == entries_of(properties.deep_view()),
{
    let mut config = new_client_config();
    let ghost all = properties.deep_view();
    assert(all.take(0) =~= Seq::empty());
    for i in 0..properties.len()
        invariant
            all == properties.deep_view(),
            client_config_entries(config) == entries_of(all.take(i as int)),
    {
        proof {
            assert(all.take(i + 1).drop_last() =~= all.take(i as int));
            assert(all.take(i + 1).last() == properties[i as int].deep_view());
        }
        set_property(&mut config, properties[i].0.as_str(), properties[i].1.as_str());
    }
    assert(all.take(properties.len() as int) =~= all);
    config
}

/// The client configuration of a run: the properties of the effective
/// configuration and of the security that the settings name.
///
/// The settings must name a security: with SSL on, a protocol selector other
/// than `ssl` and `sasl_ssl` has no client.
pub fn client_config(config: &EffectiveConfig, settings: &Settings) -> (client: ClientConfig)
    requires
        settings@.security() is Some,
    ensures
        client_config_entries(client) == entries_of(spec_client_properties(config@, settings@)),
{
    let properties = client_properties(config, settings);
    client_config_from(&properties)
}

/// What a header collection holds after the given headers were inserted into
/// an empty one: the headers in their order, each value as its UTF-8 bytes.
pub open spec fn spec_owned_headers(headers: Seq<(Seq<char>, Seq<char>)>) -> Seq<
    (Seq<char>, Seq<u8>),
> {
    Seq::new(headers.len(), |i: int| (headers[i].0, vstd::utf8::encode_utf8(headers[i].1)))
}

/// The header collection of a message, with the given headers in their order.
pub fn owned_headers(headers: &Vec<(String, String)>) -> (owned: OwnedHeaders)
    ensures
        owned_headers_entries(owned) == spec_owned_headers(headers.deep_view()),
{
    let mut owned = new_owned_headers();
    let ghost all = headers.deep_view();
    assert(spec_owned_headers(all.take(0)) =~= Seq::empty());
    for i in 0..headers.len()
        invariant
            all == headers.deep_view(),
            owned_headers_entries(owned) == spec_owned_headers(all.take(i as int)),
    {
        proof {
            assert(all[i as int] == headers[i as int].deep_view());
            assert(spec_owned_headers(all.take(i + 1)) =~= spec_owned_headers(
                all.take(i as int),
            ).push((all[i as int].0, vstd::utf8::encode_utf8(all[i as int].1))));
        }
        owned = insert_header(owned, headers[i].0.as_str(), headers[i].1.as_str());
    }
    assert(all.take(headers.len() as int) =~= all);
    owned
}

} // verus!
