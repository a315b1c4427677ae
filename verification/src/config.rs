//! The settings that the service starts with.

use vstd::prelude::*;

verus! {

/// The base path that is used where none is configured.
pub const DEFAULT_BASE_PATH: &'static str = "/dcr";

/// The address that the service listens on.
pub const LISTEN_HOST: &'static str = "127.0.0.1";

/// Why the service cannot start.
#[derive(Clone, Copy, Debug, PartialEq, Eq, Structural)]
pub enum ConfigError {
    /// No listen port was given.
    MissingPort,
    /// No deployment stamp was given.
    MissingStamp,
    /// No initial health answer was given.
    MissingHealth,
    /// No logger endpoint was given.
    MissingLogger,
    /// The base path is the debug path, so two routes would share one path.
    PathCollision,
}

/// What to tell the operator about an error.
pub open spec fn error_text(error: ConfigError) -> Seq<char> {
    match error {
        ConfigError::MissingPort => "DCR_PORT must be set"@,
        ConfigError::MissingStamp => "DCR_STAMP must be set"@,
        ConfigError::MissingHealth => "DCR_HEALTH must be set"@,
        ConfigError::MissingLogger => "DCR_LOGGER must be set"@,
        ConfigError::PathCollision => "the base path must not be the debug path"@,
    }
}

impl ConfigError {
    /// What to tell the operator about the error.
    pub fn message(&self) -> (text: &'static str)
        ensures
            text@ == error_text(*self),
    {
        match self {
            ConfigError::MissingPort => "DCR_PORT must be set",
            ConfigError::MissingStamp => "DCR_STAMP must be set",
            ConfigError::MissingHealth => "DCR_HEALTH must be set",
            ConfigError::MissingLogger => "DCR_LOGGER must be set",
            ConfigError::PathCollision => "the base path must not be the debug path",
        }
    }
}

/// The settings as plain text.
pub struct ConfigView {
    pub base_path: Seq<char>,
    pub port: Seq<char>,
    pub stamp: Seq<char>,
    pub health: Seq<char>,
    pub logger: Seq<char>,
}

/// The settings of one process, read once at startup.
#[derive(Clone, Debug)]
pub struct Config {
    /// The prefix under which the routes of the service are nested.
    pub base_path: String,
    /// The port to listen on.
    pub port: String,
    /// The deployment stamp.
    pub stamp: String,
    /// The configured initial health answer.
    pub health: String,
    /// The configured logger endpoint.
    pub logger: String,
}

impl View for Config {
    type V = ConfigView;

    open spec fn view(&self) -> ConfigView {
        ConfigView {
            base_path: self.base_path@,
            port: self.port@,
            stamp: self.stamp@,
            health: self.health@,
            logger: self.logger@,
        }
    }
}

/// The text of an optional setting.
pub open spec fn setting_text(setting: Option<String>) -> Option<Seq<char>> {
    match setting {
        Some(text) => Some(text@),
        None => None,
    }
}

/// The settings that the given values make, or the first of them that is
/// missing: port, stamp, health answer, logger endpoint, in this order. A
/// base path that is not given is the default one.
pub open spec fn settings_from(
    base_path: Option<Seq<char>>,
    port: Option<Seq<char>>,
    stamp: Option<Seq<char>>,
    health: Option<Seq<char>>,
    logger: Option<Seq<char>>,
) -> Result<ConfigView, ConfigError> {
    if port is None {
        Err(ConfigError::MissingPort)
    } else if stamp is None {
        Err(ConfigError::MissingStamp)
    } else if health is None {
        Err(ConfigError::MissingHealth)
    } else if logger is None {
        Err(ConfigError::MissingLogger)
    } else {
        Ok(
            ConfigView {
                base_path: match base_path {
                    Some(path) => path,
                    None => DEFAULT_BASE_PATH@,
                },
                port: port->0,
                stamp: stamp->0,
                health: health->0,
                logger: logger->0,
            },
        )
    }
}

/// The settings of a result as plain text.
pub open spec fn outcome_view(outcome: Result<Config, ConfigError>) -> Result<
    ConfigView,
    ConfigError,
> {
    match outcome {
        Ok(config) => Ok(config@),
        Err(error) => Err(error),
    }
}

/// The address to bind for a port.
pub open spec fn bind_address_text(port: Seq<char>) -> Seq<char> {
    LISTEN_HOST@ + ":"@ + port
}

impl Config {
    /// Checks that every required setting is there and puts them together.
    pub fn from_values(
        base_path: Option<String>,
        port: Option<String>,
        stamp: Option<String>,
        health: Option<String>,
        logger: Option<String>,
    ) -> (outcome: Result<Config, ConfigError>)
        ensures
            outcome_view(outcome) == settings_from(
                setting_text(base_path),
                setting_text(port),
                setting_text(stamp),
                setting_text(health),
                setting_text(logger),
            ),
    {
        let port = match port {
            Some(text) => text,
            None => { return Err(ConfigError::MissingPort); },
        };
        let stamp = match stamp {
            Some(text) => text,
            None => { return Err(ConfigError::MissingStamp); },
        };
        let health = match health {
            Some(text) => text,
            None => { return Err(ConfigError::MissingHealth); },
        };
        let logger = match logger {
            Some(text) => text,
            None => { return Err(ConfigError::MissingLogger); },
        };
        let base_path = match base_path {
            Some(path) => path,
            None => DEFAULT_BASE_PATH.to_owned(),
        };
        Ok(Config { base_path, port, stamp, health, logger })
    }

    /// The address to bind: the listen host, a colon, the port.
    pub fn bind_address(&self) -> (address: String)
        ensures
            address@ == bind_address_text(self.port@),
    {
        let mut address = LISTEN_HOST.to_owned();
        address.append(":");
        address.append(self.port.as_str());
        address
    }
}

} // verus!
