//! The settings record of the shell and the rules by which it is loaded and
//! saved.
//!
//! The shell reads and writes the file and turns its text into fields and
//! back; which fields a record has, what a missing field stands for and
//! what a failed load or save reports is decided here.

use vstd::prelude::*;

use crate::message::with_detail;

verus! {

/// The name of the settings file inside the resource directory.
pub const CONFIG_FILE_NAME: &'static str = "gui-config.json";

/// The settings of the shell.
#[derive(Debug, Clone, PartialEq, Eq)]
pub struct GuiConfig {
    pub host: String,
    pub port: u16,
    pub language: String,
    pub network: String,
}

/// A settings record with its texts taken as sequences of characters.
pub struct GuiConfigView {
    pub host: Seq<char>,
    pub port: u16,
    pub language: Seq<char>,
    pub network: Seq<char>,
}

impl View for GuiConfig {
    type V = GuiConfigView;

    open spec fn view(&self) -> GuiConfigView {
        GuiConfigView {
            host: self.host@,
            port: self.port,
            language: self.language@,
            network: self.network@,
        }
    }
}

/// The settings that hold where nothing else is specified.
pub open spec fn default_config() -> GuiConfigView {
    GuiConfigView {
        host: "localhost"@,
        port: 8081,
        language: Seq::empty(),
        network: "mainnet"@,
    }
}

/// The host that holds where none is specified.
pub fn default_host() -> (host: String)
    ensures
        host@ == default_config().host,
{
    String::from_str("localhost")
}

/// The port that holds where none is specified.
pub fn default_port() -> (port: u16)
    ensures
        port == default_config().port,
{
    8081
}

/// The network that holds where none is specified.
pub fn default_network() -> (network: String)
    ensures
        network@ == default_config().network,
{
    String::from_str("mainnet")
}

impl Default for GuiConfig {
    fn default() -> (config: GuiConfig)
        ensures
            config@ == default_config(),
    {
        GuiConfig {
            host: default_host(),
            port: default_port(),
            language: String::new(),
            network: default_network(),
        }
    }
}

/// The fields that a settings file specifies; a file may leave any of them
/// out.
#[derive(Debug, Clone, PartialEq, Eq)]
pub struct PartialConfig {
    pub host: Option<String>,
    pub port: Option<u16>,
    pub language: Option<String>,
    pub network: Option<String>,
}

/// The fields of a settings file with their texts taken as sequences of
/// characters.
pub struct PartialConfigView {
    pub host: Option<Seq<char>>,
    pub port: Option<u16>,
    pub language: Option<Seq<char>>,
    pub network: Option<Seq<char>>,
}

impl View for PartialConfig {
    type V = PartialConfigView;

    open spec fn view(&self) -> PartialConfigView {
        PartialConfigView {
            host: self.host.deep_view(),
            port: self.port,
            language: self.language.deep_view(),
            network: self.network.deep_view(),
        }
    }
}

/// The settings that `fields` stand for: each field that is specified, and
/// the default of each field that is not.
pub open spec fn resolved(fields: PartialConfigView) -> GuiConfigView {
    GuiConfigView {
        host: match fields.host {
            Some(host) => host,
            None => default_config().host,
        },
        port: match fields.port {
            Some(port) => port,
            None => default_config().port,
        },
        language: match fields.language {
            Some(language) => language,
            None => default_config().language,
        },
        network: match fields.network {
            Some(network) => network,
            None => default_config().network,
        },
    }
}

/// The fields that a save of `config` writes: every one of them.
pub open spec fn complete(config: GuiConfigView) -> PartialConfigView {
    PartialConfigView {
        host: Some(config.host),
        port: Some(config.port),
        language: Some(config.language),
        network: Some(config.network),
    }
}

impl PartialConfig {
    /// The settings that these fields stand for.
    pub fn resolve(self) -> (config: GuiConfig)
        ensures
            config@ == resolved(self@),
    {
        GuiConfig {
            host: match self.host {
                Some(host) => host,
                None => default_host(),
            },
            port: match self.port {
                Some(port) => port,
                None => default_port(),
            },
            language: match self.language {
                Some(language) => language,
                None => String::new(),
            },
            network: match self.network {
                Some(network) => network,
                None => default_network(),
            },
        }
    }

    /// The fields that a save of `config` writes. A save is wholesale: no
    /// field is left out.
    pub fn from_config(config: GuiConfig) -> (fields: PartialConfig)
        ensures
            fields@ == complete(config@),
    {
        PartialConfig {
            host: Some(config.host),
            port: Some(config.port),
            language: Some(config.language),
            network: Some(config.network),
        }
    }
}

/// What the shell found when it looked for the settings file.
#[derive(Debug)]
pub enum ConfigFile {
    /// The resource directory could not be resolved; the reason.
    NoResourceDir(String),
    /// No settings file exists.
    Missing,
    /// The file exists and could not be read; the reason.
    Unreadable(String),
    /// The file's content is not a settings record; the reason.
    Malformed(String),
    /// The fields that the file specifies.
    Parsed(PartialConfig),
}

/// What the shell found when it saved a settings record.
#[derive(Debug)]
pub enum WriteReport {
    /// The resource directory could not be resolved; the reason.
    NoResourceDir(String),
    /// The record could not be put into text; the reason.
    NotSerialized(String),
    /// The file could not be written; the reason.
    NotWritten(String),
    /// The file holds the record.
    Written,
}

/// A loaded record, or the error text, in their views.
pub open spec fn load_view(outcome: Result<GuiConfig, String>) -> Result<GuiConfigView, Seq<char>> {
    match outcome {
        Ok(config) => Ok(config@),
        Err(text) => Err(text@),
    }
}

/// The outcome of a save with its error text taken as a sequence of
/// characters.
pub open spec fn save_view(outcome: Result<(), String>) -> Result<(), Seq<char>> {
    match outcome {
        Ok(()) => Ok(()),
        Err(text) => Err(text@),
    }
}

/// The outcome of a load: the defaults where no file exists, the resolved
/// fields of a file that was read, and otherwise the failure.
pub open spec fn read_outcome(file: ConfigFile) -> Result<GuiConfigView, Seq<char>> {
    match file {
        ConfigFile::NoResourceDir(reason) => Err(reason@),
        ConfigFile::Missing => Ok(default_config()),
        ConfigFile::Unreadable(reason) => Err("Failed to read config: "@ + reason@),
        ConfigFile::Malformed(reason) => Err("Failed to parse config: "@ + reason@),
        ConfigFile::Parsed(fields) => Ok(resolved(fields@)),
    }
}

/// The outcome of a save.
pub open spec fn write_outcome(report: WriteReport) -> Result<(), Seq<char>> {
    match report {
        WriteReport::NoResourceDir(reason) => Err(reason@),
        WriteReport::NotSerialized(reason) => Err("Failed to serialize config: "@ + reason@),
        WriteReport::NotWritten(reason) => Err("Failed to write config: "@ + reason@),
        WriteReport::Written => Ok(()),
    }
}

/// Loads the settings from what the shell found at the settings file. A
/// file that does not exist is no error: the defaults hold. A field that a
/// file leaves out is no error either: its default holds.
pub fn read_config(file: ConfigFile) -> (outcome: Result<GuiConfig, String>)
    ensures
        load_view(outcome) == read_outcome(file),
{
    match file {
        ConfigFile::NoResourceDir(reason) => Err(reason),
        ConfigFile::Missing => Ok(GuiConfig::default()),
        ConfigFile::Unreadable(reason) => Err(
            with_detail("Failed to read config: ", reason.as_str()),
        ),
        ConfigFile::Malformed(reason) => Err(
            with_detail("Failed to parse config: ", reason.as_str()),
        ),
        ConfigFile::Parsed(fields) => Ok(fields.resolve()),
    }
}

/// Completes a save from what the shell found when it wrote the fields of
/// [`PartialConfig::from_config`] to the settings file.
pub fn write_config(report: WriteReport) -> (outcome: Result<(), String>)
    ensures
        save_view(outcome) == write_outcome(report),
{
    match report {
        WriteReport::NoResourceDir(reason) => Err(reason),
        WriteReport::NotSerialized(reason) => Err(
            with_detail("Failed to serialize config: ", reason.as_str()),
        ),
        WriteReport::NotWritten(reason) => Err(
            with_detail("Failed to write config: ", reason.as_str()),
        ),
        WriteReport::Written => Ok(()),
    }
}

/// A load never fails for want of a field: whatever fields a file
/// specifies, the load succeeds, a field that is missing has its default
/// and a field that is present has its value; and a load without a file
/// yields the defaults.
pub proof fn missing_fields_take_defaults(fields: PartialConfig)
    ensures
        read_outcome(ConfigFile::Missing) == Ok::<GuiConfigView, Seq<char>>(default_config()),
        read_outcome(ConfigFile::Parsed(fields)) is Ok,
        ({
            let config = read_outcome(ConfigFile::Parsed(fields))->Ok_0;
            &&& config.host == if fields.host is Some { fields.host->0@ } else { "localhost"@ }
            &&& config.port == if fields.port is Some { fields.port->0 } else { 8081u16 }
            &&& config.language == if fields.language is Some { fields.language->0@ } else { ""@ }
            &&& config.network == if fields.network is Some { fields.network->0@ } else { "mainnet"@ }
        }),
{
    reveal_strlit("");
    assert(""@ =~= Seq::<char>::empty());
}

/// A record that is saved and loaded again is the same record: a file that
/// specifies exactly the fields that a save of `config` writes loads as
/// `config`.
pub proof fn saved_config_loads_unchanged(config: GuiConfig, fields: PartialConfig)
    requires
        fields@ == complete(config@),
    ensures
        read_outcome(ConfigFile::Parsed(fields)) == Ok::<GuiConfigView, Seq<char>>(config@),
{
}

} // verus!
