//! The configuration document.
//!
//! The configuration is a YAML document, held by the `yaml_rust` crate. The
//! caller parses the text and hands the documents over; [`first_of`] picks
//! the configuration among them. The logic of this crate needs little of a
//! document: whether a value is a text, an integer or a mapping, and what a
//! mapping holds under a name. [`Node`] is that reading of a value, and the
//! accessors below are the only places where a `Yaml` value is looked into.
use vstd::prelude::*;
use yaml_rust::Yaml;

verus! {

/// The YAML value of `yaml_rust`, opaque to the proofs.
#[verifier::external_type_specification]
#[verifier::external_body]
pub struct ExYaml(yaml_rust::Yaml);

/// What the configuration logic reads of a YAML value.
pub enum Node {
    /// A string scalar.
    Text(Seq<char>),
    /// An integer scalar.
    Integer(i64),
    /// A mapping: its entries, key and value, in the order in which the
    /// mapping walks them. No two entries have the same text as their key.
    Mapping(Seq<(Node, Node)>),
    /// Any other value, the missing value included.
    Other,
}

impl Node {
    /// The text of a string scalar.
    pub open spec fn text(self) -> Option<Seq<char>> {
        match self {
            Node::Text(text) => Some(text),
            _ => None,
        }
    }

    /// The number of an integer scalar.
    pub open spec fn integer(self) -> Option<i64> {
        match self {
            Node::Integer(number) => Some(number),
            _ => None,
        }
    }

    /// The entries of a mapping.
    pub open spec fn entries(self) -> Option<Seq<(Node, Node)>> {
        match self {
            Node::Mapping(entries) => Some(entries),
            _ => None,
        }
    }

    /// The value that a mapping holds under the string key `name`. A value
    /// that is no mapping, or holds no such key, gives [`Node::Other`].
    pub open spec fn member(self, name: Seq<char>) -> Node {
        match self {
            Node::Mapping(entries) => value_under(entries, name),
            _ => Node::Other,
        }
    }
}

/// The value of the first of `entries` whose key is the text `name`.
pub open spec fn value_under(entries: Seq<(Node, Node)>, name: Seq<char>) -> Node
    decreases entries.len(),
{
    if entries.len() == 0 {
        Node::Other
    } else if entries[0].0 == Node::Text(name) {
        entries[0].1
    } else {
        value_under(entries.drop_first(), name)
    }
}

/// The reading of a YAML value.
pub uninterp spec fn yaml_node(value: Yaml) -> Node;

/// The readings of the entries of a mapping.
pub open spec fn entry_readings(entries: Seq<(&Yaml, &Yaml)>) -> Seq<(Node, Node)> {
    Seq::new(entries.len(), |i: int| (yaml_node(*entries[i].0), yaml_node(*entries[i].1)))
}

/// Calls `Yaml::as_str`. Trusted: it gives the text of a string scalar and
/// `None` for every other value.
#[verifier::external_body]
pub(crate) fn as_text<'a>(value: &'a Yaml) -> (text: Option<&'a str>)
    ensures
        match text {
            Some(found) => yaml_node(*value).text() == Some(found@),
            None => yaml_node(*value).text() is None,
        },
{
    value.as_str()
}

/// Calls `Yaml::as_i64`. Trusted: it gives the number of an integer scalar and
/// `None` for every other value.
#[verifier::external_body]
pub(crate) fn as_integer(value: &Yaml) -> (number: Option<i64>)
    ensures
        number == yaml_node(*value).integer(),
{
    value.as_i64()
}

/// Calls `Yaml::as_hash` and `LinkedHashMap::iter`. Trusted: a mapping gives
/// its entries, each once, in the order in which it walks them, and every
/// other value gives `None`.
#[verifier::external_body]
pub(crate) fn as_entries<'a>(value: &'a Yaml) -> (entries: Option<Vec<(&'a Yaml, &'a Yaml)>>)
    ensures
        match entries {
            Some(found) => yaml_node(*value).entries() == Some(entry_readings(found@)),
            None => yaml_node(*value).entries() is None,
        },
{
    let hash = value.as_hash()?;
    Some(hash.iter().collect())
}

/// Calls `Index<&str>` of `Yaml`. Trusted: a mapping gives the value that it
/// holds under the string key `name`; a mapping without that key, and a value
/// that is no mapping, give the bad value, whose reading is [`Node::Other`].
#[verifier::external_body]
pub(crate) fn member<'a>(value: &'a Yaml, name: &str) -> (found: &'a Yaml)
    ensures
        yaml_node(*found) == yaml_node(*value).member(name@),
{
    &value[name]
}

/// Why a configuration is refused. Every one of them is fatal at startup.
#[derive(Debug, Clone, PartialEq, Eq)]
pub enum ConfigError {
    /// The text is not well-formed YAML.
    Syntax,
    /// The text holds no document.
    NoDocument,
    /// There is no `channel` text.
    ChannelMissing,
    /// There is no `actions` mapping.
    ActionsMissing,
    /// The name of the action at this position is not a text, or is empty.
    ActionName(usize),
    /// The named action has no `key` text.
    KeyMissing(String),
    /// A piece of the `key` of the named action names no key.
    KeyUnresolved(String),
    /// There is no `control_keys.exit` text.
    ExitKeyMissing,
    /// The exit key names no key.
    ExitKeyUnresolved,
    /// There is no `control_keys.pause` text.
    PauseKeyMissing,
    /// The pause key names no key.
    PauseKeyUnresolved,
}

/// A [`ConfigError`] with its texts as sequences of characters.
pub enum ConfigFault {
    Syntax,
    NoDocument,
    ChannelMissing,
    ActionsMissing,
    ActionName(usize),
    KeyMissing(Seq<char>),
    KeyUnresolved(Seq<char>),
    ExitKeyMissing,
    ExitKeyUnresolved,
    PauseKeyMissing,
    PauseKeyUnresolved,
}

impl View for ConfigError {
    type V = ConfigFault;

    open spec fn view(&self) -> ConfigFault {
        match self {
            ConfigError::Syntax => ConfigFault::Syntax,
            ConfigError::NoDocument => ConfigFault::NoDocument,
            ConfigError::ChannelMissing => ConfigFault::ChannelMissing,
            ConfigError::ActionsMissing => ConfigFault::ActionsMissing,
            ConfigError::ActionName(entry) => ConfigFault::ActionName(*entry),
            ConfigError::KeyMissing(action) => ConfigFault::KeyMissing(action@),
            ConfigError::KeyUnresolved(action) => ConfigFault::KeyUnresolved(action@),
            ConfigError::ExitKeyMissing => ConfigFault::ExitKeyMissing,
            ConfigError::ExitKeyUnresolved => ConfigFault::ExitKeyUnresolved,
            ConfigError::PauseKeyMissing => ConfigFault::PauseKeyMissing,
            ConfigError::PauseKeyUnresolved => ConfigFault::PauseKeyUnresolved,
        }
    }
}

/// The configuration among the documents that the caller has parsed from its
/// text: the first of them. `None` stands for a text that is not well-formed
/// YAML.
pub fn first_of(documents: Option<Vec<Yaml>>) -> (first: Result<Yaml, ConfigError>)
    ensures
        first == (match documents {
            Some(found) => if found@.len() == 0 {
                Err::<Yaml, ConfigError>(ConfigError::NoDocument)
            } else {
                Ok::<Yaml, ConfigError>(found@[0])
            },
            None => Err::<Yaml, ConfigError>(ConfigError::Syntax),
        }),
{
    match documents {
        Some(found) => {
            let mut found = found;
            if found.len() == 0 {
                Err(ConfigError::NoDocument)
            } else {
                Ok(found.remove(0))
            }
        },
        None => Err(ConfigError::Syntax),
    }
}

/// The channel to join: the `channel` text of the configuration.
pub fn channel(config: &Yaml) -> (name: Result<String, ConfigError>)
    ensures
        match name {
            Ok(found) => yaml_node(*config).member("channel"@).text() == Some(found@),
            Err(error) => yaml_node(*config).member("channel"@).text() is None && error
                == ConfigError::ChannelMissing,
        },
{
    match as_text(member(config, "channel")) {
        Some(found) => Ok(found.to_owned()),
        None => Err(ConfigError::ChannelMissing),
    }
}

/// The level of logging: the `log_level` text of the configuration, or
/// `info` where there is none.
pub fn log_level(config: &Yaml) -> (level: String)
    ensures
        level@ == match yaml_node(*config).member("log_level"@).text() {
            Some(found) => found,
            None => "info"@,
        },
{
    match as_text(member(config, "log_level")) {
        Some(found) => found.to_owned(),
        None => "info".to_owned(),
    }
}

} // verus!
