//! Runtime configuration: built-in empty defaults, overlaid by a file, overlaid
//! by explicit overrides.
use vstd::prelude::*;

verus! {

/// The process-wide settings of the relay.
#[derive(Debug)]
pub struct SPawConfig {
    pub key_file_path: String,
    pub team_id: String,
    pub key_id: String,
    pub topic: String,
}

/// Explicit overrides given at startup, and where to find the file.
#[derive(Debug)]
pub struct Cli {
    pub config: Option<String>,
    pub key_file_path: Option<String>,
    pub team_id: Option<String>,
    pub key_id: Option<String>,
    pub topic: Option<String>,
}

/// An override wins over the value beneath it.
pub open spec fn layered(over: Option<String>, below: Seq<char>) -> Seq<char> {
    match over {
        Some(v) => v@,
        None => below,
    }
}

/// A field of the file's settings, empty where there is no file.
pub open spec fn file_field(file: Option<SPawConfig>, field: spec_fn(SPawConfig) -> Seq<char>) -> Seq<char> {
    match file {
        Some(c) => field(c),
        None => Seq::empty(),
    }
}

impl SPawConfig {
    /// The built-in defaults: every field empty.
    pub fn empty() -> (r: SPawConfig)
        ensures
            r.key_file_path@ == Seq::<char>::empty(),
            r.team_id@ == Seq::<char>::empty(),
            r.key_id@ == Seq::<char>::empty(),
            r.topic@ == Seq::<char>::empty(),
    {
        SPawConfig { key_file_path: String::new(), team_id: String::new(), key_id: String::new(), topic: String::new() }
    }
}

fn overlay(over: &Option<String>, below: String) -> (r: String)
    ensures
        r@ == layered(*over, below@),
{
    match over {
        Some(v) => v.clone(),
        None => below,
    }
}

/// The file to read settings from: the one named, else `config.json`.
pub fn config_path(cli: &Cli) -> (r: String)
    ensures
        r@ == match cli.config {
            Some(p) => p@,
            None => "config.json"@,
        },
{
    match &cli.config {
        Some(p) => p.clone(),
        None => "config.json".to_owned(),
    }
}

/// Merges the settings read from the file, if it could be read, with the
/// overrides.
pub fn load_config(cli: &Cli, from_file: Option<SPawConfig>) -> (r: SPawConfig)
    ensures
        r.key_file_path@ == layered(cli.key_file_path, file_field(from_file, |c: SPawConfig| c.key_file_path@)),
        r.team_id@ == layered(cli.team_id, file_field(from_file, |c: SPawConfig| c.team_id@)),
        r.key_id@ == layered(cli.key_id, file_field(from_file, |c: SPawConfig| c.key_id@)),
        r.topic@ == layered(cli.topic, file_field(from_file, |c: SPawConfig| c.topic@)),
{
    let base = match from_file {
        Some(c) => c,
        None => SPawConfig::empty(),
    };
    SPawConfig {
        key_file_path: overlay(&cli.key_file_path, base.key_file_path),
        team_id: overlay(&cli.team_id, base.team_id),
        key_id: overlay(&cli.key_id, base.key_id),
        topic: overlay(&cli.topic, base.topic),
    }
}

} // verus!
