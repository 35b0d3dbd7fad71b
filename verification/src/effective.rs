//! The configuration that a run works with: for every field the override of
//! the command line where there is one, else what the settings hold.

use crate::args::{optional_view, Args, ArgsView};
use crate::headers::{parse_headers, parse_headers_spec};
use crate::settings::{Settings, SettingsView};
use vstd::prelude::*;

verus! {

/// The configuration of one run.
#[derive(Debug, Clone, PartialEq, Eq)]
pub struct EffectiveConfig {
    pub bootstrap_servers: String,
    pub topic: String,
    pub group: String,
    pub broker_timeout_milis: String,
    pub headers: Option<String>,
    pub key: String,
    pub body_file: String,
}

/// What an `EffectiveConfig` holds.
pub struct EffectiveConfigView {
    pub bootstrap_servers: Seq<char>,
    pub topic: Seq<char>,
    pub group: Seq<char>,
    pub broker_timeout_milis: Seq<char>,
    pub headers: Option<Seq<char>>,
    pub key: Seq<char>,
    pub body_file: Seq<char>,
}

impl View for EffectiveConfig {
    type V = EffectiveConfigView;

    open spec fn view(&self) -> EffectiveConfigView {
        EffectiveConfigView {
            bootstrap_servers: self.bootstrap_servers@,
            topic: self.topic@,
            group: self.group@,
            broker_timeout_milis: self.broker_timeout_milis@,
            headers: optional_view(self.headers),
            key: self.key@,
            body_file: self.body_file@,
        }
    }
}

/// The override where there is one, else the default.
pub open spec fn spec_prefer(preferred: Option<Seq<char>>, default: Seq<char>) -> Seq<char> {
    match preferred {
        Some(value) => value,
        None => default,
    }
}

/// The override where there is one, else the default, which may be absent too.
pub open spec fn spec_prefer_optional(
    preferred: Option<Seq<char>>,
    default: Option<Seq<char>>,
) -> Option<Seq<char>> {
    match preferred {
        Some(value) => Some(value),
        None => default,
    }
}

/// The configuration that overrides and settings give together.
pub open spec fn spec_resolve(args: ArgsView, settings: SettingsView) -> EffectiveConfigView {
    EffectiveConfigView {
        bootstrap_servers: spec_prefer(args.bootstrap_servers, settings.bootstrap_servers),
        topic: spec_prefer(args.topic, settings.topic),
        group: spec_prefer(args.group, settings.group),
        broker_timeout_milis: spec_prefer(args.broker_timeout_milis, settings.broker_timeout_milis),
        headers: spec_prefer_optional(args.headers, settings.headers),
        key: spec_prefer(args.key, settings.key),
        body_file: spec_prefer(args.body_file, settings.body_file),
    }
}

/// The override where there is one, else the default.
pub fn prefer(preferred: &Option<String>, default: &String) -> (value: String)
    ensures
        value@ == spec_prefer(optional_view(*preferred), default@),
{
    match preferred {
        Some(value) => value.clone(),
        None => default.clone(),
    }
}

/// The override where there is one, else the default, which may be absent too.
pub fn prefer_optional(preferred: &Option<String>, default: &Option<String>) -> (value: Option<
    String,
>)
    ensures
        optional_view(value) == spec_prefer_optional(
            optional_view(*preferred),
            optional_view(*default),
        ),
{
    match preferred {
        Some(value) => Some(value.clone()),
        None => match default {
            Some(value) => Some(value.clone()),
            None => None,
        },
    }
}

/// Merges the overrides of the command line into the settings.
///
/// Every field of the result is the override where `args` has one, and else
/// what `settings` holds. An override that is there wins as it is, the empty
/// string too. Nothing is validated.
pub fn resolve(args: &Args, settings: &Settings) -> (config: EffectiveConfig)
    ensures
        config@ == spec_resolve(args@, settings@),
{
    EffectiveConfig {
        bootstrap_servers: prefer(&args.bootstrap_servers, &settings.bootstrap_servers),
        topic: prefer(&args.topic, &settings.topic),
        group: prefer(&args.group, &settings.group),
        broker_timeout_milis: prefer(&args.broker_timeout_milis, &settings.broker_timeout_milis),
        headers: prefer_optional(&args.headers, &settings.headers),
        key: prefer(&args.key, &settings.key),
        body_file: prefer(&args.body_file, &settings.body_file),
    }
}

impl EffectiveConfigView {
    /// The headers of the message: those of the header string, and none
    /// where there is no header string.
    pub open spec fn header_pairs(self) -> Seq<(Seq<char>, Seq<char>)> {
        match self.headers {
            Some(headers) => parse_headers_spec(headers),
            None => Seq::empty(),
        }
    }
}

impl EffectiveConfig {
    /// The headers of the message: those of the header string, and none
    /// where there is no header string.
    pub fn header_pairs(&self) -> (pairs: Vec<(String, String)>)
        ensures
            pairs.deep_view() == self@.header_pairs(),
    {
        match &self.headers {
            Some(headers) => parse_headers(headers.as_str()),
            None => {
                let pairs: Vec<(String, String)> = Vec::new();
                assert(pairs.deep_view() =~= Seq::empty());
                pairs
            },
        }
    }
}

/// An override that is there is the effective value, whatever the settings
/// hold.
pub proof fn lemma_override_wins(args: ArgsView, settings: SettingsView)
    ensures
        args.bootstrap_servers matches Some(value) ==> spec_resolve(
            args,
            settings,
        ).bootstrap_servers == value,
        args.topic matches Some(value) ==> spec_resolve(args, settings).topic == value,
        args.group matches Some(value) ==> spec_resolve(args, settings).group == value,
        args.broker_timeout_milis matches Some(value) ==> spec_resolve(
            args,
            settings,
        ).broker_timeout_milis == value,
        args.headers matches Some(value) ==> spec_resolve(args, settings).headers == Some(value),
        args.key matches Some(value) ==> spec_resolve(args, settings).key == value,
        args.body_file matches Some(value) ==> spec_resolve(args, settings).body_file == value,
{
}

/// With every field overridden, the settings have no part in the result.
pub proof fn lemma_full_override_ignores_settings(
    args: ArgsView,
    first: SettingsView,
    second: SettingsView,
)
    requires
        args.bootstrap_servers is Some,
        args.topic is Some,
        args.group is Some,
        args.broker_timeout_milis is Some,
        args.headers is Some,
        args.key is Some,
        args.body_file is Some,
    ensures
        spec_resolve(args, first) == spec_resolve(args, second),
{
}

/// A field without an override has the value of the settings.
pub proof fn lemma_unset_defers(args: ArgsView, settings: SettingsView)
    ensures
        args.bootstrap_servers is None ==> spec_resolve(args, settings).bootstrap_servers
            == settings.bootstrap_servers,
        args.topic is None ==> spec_resolve(args, settings).topic == settings.topic,
        args.group is None ==> spec_resolve(args, settings).group == settings.group,
        args.broker_timeout_milis is None ==> spec_resolve(args, settings).broker_timeout_milis
            == settings.broker_timeout_milis,
        args.headers is None ==> spec_resolve(args, settings).headers == settings.headers,
        args.key is None ==> spec_resolve(args, settings).key == settings.key,
        args.body_file is None ==> spec_resolve(args, settings).body_file == settings.body_file,
{
}

} // verus!
