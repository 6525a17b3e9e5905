//! The choices made at start-up from what the configuration holds.

use vstd::prelude::*;

verus! {

/// Where the configuration text comes from.
#[derive(Clone, Debug, PartialEq, Eq)]
pub enum ConfigSource {
    /// The text itself was given.
    Inline(String),
    /// The path of a file that holds the text was given.
    File(String),
    /// Both were given: there is no telling which is meant.
    Ambiguous,
    /// Neither was given.
    Missing,
}

/// Where the configuration text comes from, given the path of a file and
/// the text itself, each present or not. Exactly one of them must be there.
pub open spec fn source_of(config_path: Option<String>, config: Option<String>) -> ConfigSource {
    match (config_path, config) {
        (None, Some(text)) => ConfigSource::Inline(text),
        (Some(path), None) => ConfigSource::File(path),
        (Some(_), Some(_)) => ConfigSource::Ambiguous,
        (None, None) => ConfigSource::Missing,
    }
}

/// Decides where the configuration text comes from.
pub fn config_source(config_path: Option<String>, config: Option<String>) -> (source: ConfigSource)
    ensures
        source == source_of(config_path, config),
{
    match (config_path, config) {
        (None, Some(text)) => ConfigSource::Inline(text),
        (Some(path), None) => ConfigSource::File(path),
        (Some(_), Some(_)) => ConfigSource::Ambiguous,
        (None, None) => ConfigSource::Missing,
    }
}

/// Where the port to listen on comes from.
#[derive(Clone, Debug, PartialEq, Eq)]
pub enum PortSource {
    /// The configuration gives the port.
    Fixed(u16),
    /// The configuration names the environment variable that holds it.
    Variable(String),
    /// The configuration gives both or neither.
    Unsettled,
}

/// Where the port comes from, given the port and the name of a variable,
/// each present or not. Exactly one of them must be there.
pub open spec fn port_source_of(port: Option<u16>, port_env_var: Option<String>) -> PortSource {
    match (port, port_env_var) {
        (None, Some(name)) => PortSource::Variable(name),
        (Some(port), None) => PortSource::Fixed(port),
        _ => PortSource::Unsettled,
    }
}

/// Decides where the port to listen on comes from.
pub fn port_source(port: Option<u16>, port_env_var: Option<String>) -> (source: PortSource)
    ensures
        source == port_source_of(port, port_env_var),
{
    match (port, port_env_var) {
        (None, Some(name)) => PortSource::Variable(name),
        (Some(port), None) => PortSource::Fixed(port),
        _ => PortSource::Unsettled,
    }
}

} // verus!
