//! The overrides that the command line gives, and the flags that carry them.

use vstd::prelude::*;

verus! {

/// The overrides of one run. A field that is `None` defers to the settings.
#[derive(Debug, Clone, PartialEq, Eq)]
pub struct Args {
    pub bootstrap_servers: Option<String>,
    pub topic: Option<String>,
    pub group: Option<String>,
    pub broker_timeout_milis: Option<String>,
    pub settings: Option<String>,
    pub headers: Option<String>,
    pub key: Option<String>,
    pub body_file: Option<String>,
}

/// What an `Args` record holds.
pub struct ArgsView {
    pub bootstrap_servers: Option<Seq<char>>,
    pub topic: Option<Seq<char>>,
    pub group: Option<Seq<char>>,
    pub broker_timeout_milis: Option<Seq<char>>,
    pub settings: Option<Seq<char>>,
    pub headers: Option<Seq<char>>,
    pub key: Option<Seq<char>>,
    pub body_file: Option<Seq<char>>,
}

/// The characters of an optional string.
pub open spec fn optional_view(text: Option<String>) -> Option<Seq<char>> {
    match text {
        Some(t) => Some(t@),
        None => None,
    }
}

impl View for Args {
    type V = ArgsView;

    open spec fn view(&self) -> ArgsView {
        ArgsView {
            bootstrap_servers: optional_view(self.bootstrap_servers),
            topic: optional_view(self.topic),
            group: optional_view(self.group),
            broker_timeout_milis: optional_view(self.broker_timeout_milis),
            settings: optional_view(self.settings),
            headers: optional_view(self.headers),
            key: optional_view(self.key),
            body_file: optional_view(self.body_file),
        }
    }
}

/// The flags of the command line, one for each field of `Args`.
#[derive(Debug, Clone, Copy, PartialEq, Eq, Structural)]
pub enum Flag {
    Bootstrap,
    Topic,
    Group,
    Timeout,
    Settings,
    Headers,
    Key,
    BodyFile,
}

impl Flag {
    /// The letter of the flag, written after one hyphen.
    pub open spec fn spec_short(self) -> char {
        match self {
            Flag::Bootstrap => 'b',
            Flag::Topic => 't',
            Flag::Group => 'g',
            Flag::Timeout => 'z',
            Flag::Settings => 's',
            Flag::Headers => 'H',
            Flag::Key => 'k',
            Flag::BodyFile => 'f',
        }
    }

    /// The name of the flag, written after two hyphens.
    pub open spec fn spec_long(self) -> Seq<char> {
        match self {
            Flag::Bootstrap => "bootstrap"@,
            Flag::Topic => "topic"@,
            Flag::Group => "group"@,
            Flag::Timeout => "timeout"@,
            Flag::Settings => "settings"@,
            Flag::Headers => "headers"@,
            Flag::Key => "key"@,
            Flag::BodyFile => "body_file"@,
        }
    }

    /// The letter of the flag, written after one hyphen.
    pub fn short(&self) -> (letter: char)
        ensures
            letter == self.spec_short(),
    {
        match self {
            Flag::Bootstrap => 'b',
            Flag::Topic => 't',
            Flag::Group => 'g',
            Flag::Timeout => 'z',
            Flag::Settings => 's',
            Flag::Headers => 'H',
            Flag::Key => 'k',
            Flag::BodyFile => 'f',
        }
    }

    /// The name of the flag, written after two hyphens.
    pub fn long(&self) -> (name: &'static str)
        ensures
            name@ == self.spec_long(),
    {
        match self {
            Flag::Bootstrap => "bootstrap",
            Flag::Topic => "topic",
            Flag::Group => "group",
            Flag::Timeout => "timeout",
            Flag::Settings => "settings",
            Flag::Headers => "headers",
            Flag::Key => "key",
            Flag::BodyFile => "body_file",
        }
    }

    /// Every flag, once, in the order of the fields of `Args`.
    pub fn all() -> (flags: Vec<Flag>)
        ensures
            flags@ == seq![
                Flag::Bootstrap,
                Flag::Topic,
                Flag::Group,
                Flag::Timeout,
                Flag::Settings,
                Flag::Headers,
                Flag::Key,
                Flag::BodyFile,
            ],
    {
        let mut flags: Vec<Flag> = Vec::new();
        flags.push(Flag::Bootstrap);
        flags.push(Flag::Topic);
        flags.push(Flag::Group);
        flags.push(Flag::Timeout);
        flags.push(Flag::Settings);
        flags.push(Flag::Headers);
        flags.push(Flag::Key);
        flags.push(Flag::BodyFile);
        assert(flags@ =~= seq![
            Flag::Bootstrap,
            Flag::Topic,
            Flag::Group,
            Flag::Timeout,
            Flag::Settings,
            Flag::Headers,
            Flag::Key,
            Flag::BodyFile,
        ]);
        flags
    }
}

impl ArgsView {
    /// What the record holds for one flag.
    pub open spec fn value(self, flag: Flag) -> Option<Seq<char>> {
        match flag {
            Flag::Bootstrap => self.bootstrap_servers,
            Flag::Topic => self.topic,
            Flag::Group => self.group,
            Flag::Timeout => self.broker_timeout_milis,
            Flag::Settings => self.settings,
            Flag::Headers => self.headers,
            Flag::Key => self.key,
            Flag::BodyFile => self.body_file,
        }
    }

    /// The record with the value of one flag replaced.
    pub open spec fn with_value(self, flag: Flag, value: Option<Seq<char>>) -> ArgsView {
        match flag {
            Flag::Bootstrap => ArgsView { bootstrap_servers: value, ..self },
            Flag::Topic => ArgsView { topic: value, ..self },
            Flag::Group => ArgsView { group: value, ..self },
            Flag::Timeout => ArgsView { broker_timeout_milis: value, ..self },
            Flag::Settings => ArgsView { settings: value, ..self },
            Flag::Headers => ArgsView { headers: value, ..self },
            Flag::Key => ArgsView { key: value, ..self },
            Flag::BodyFile => ArgsView { body_file: value, ..self },
        }
    }

    /// The record without any override.
    pub open spec fn empty() -> ArgsView {
        ArgsView {
            bootstrap_servers: None,
            topic: None,
            group: None,
            broker_timeout_milis: None,
            settings: None,
            headers: None,
            key: None,
            body_file: None,
        }
    }

    /// The path of the settings file: the override, or `settings.json`.
    pub open spec fn settings_path(self) -> Seq<char> {
        match self.settings {
            Some(path) => path,
            None => "settings.json"@,
        }
    }
}

impl Args {
    /// The record without any override.
    pub fn new() -> (args: Args)
        ensures
            args@ == ArgsView::empty(),
    {
        Args {
            bootstrap_servers: None,
            topic: None,
            group: None,
            broker_timeout_milis: None,
            settings: None,
            headers: None,
            key: None,
            body_file: None,
        }
    }

    /// The record with the value of one flag replaced, and every other field
    /// as it was.
    pub fn with_value(self, flag: Flag, value: Option<String>) -> (args: Args)
        ensures
            args@ == self@.with_value(flag, optional_view(value)),
    {
        let mut args = self;
        match flag {
            Flag::Bootstrap => {
                args.bootstrap_servers = value;
            },
            Flag::Topic => {
                args.topic = value;
            },
            Flag::Group => {
                args.group = value;
            },
            Flag::Timeout => {
                args.broker_timeout_milis = value;
            },
            Flag::Settings => {
                args.settings = value;
            },
            Flag::Headers => {
                args.headers = value;
            },
            Flag::Key => {
                args.key = value;
            },
            Flag::BodyFile => {
                args.body_file = value;
            },
        }
        args
    }

    /// The path of the settings file: the override, or `settings.json`.
    pub fn settings_path(&self) -> (path: String)
        ensures
            path@ == self@.settings_path(),
    {
        match &self.settings {
            Some(path) => path.clone(),
            None => "settings.json".to_owned(),
        }
    }
}

/// A value that was set for a flag is the value that the record holds for it,
/// and the values of the other flags stay.
pub proof fn lemma_with_value(args: ArgsView, flag: Flag, value: Option<Seq<char>>, other: Flag)
    ensures
        args.with_value(flag, value).value(flag) == value,
        other != flag ==> args.with_value(flag, value).value(other) == args.value(other),
{
}

} // verus!
