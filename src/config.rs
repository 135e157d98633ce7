use vstd::prelude::*;

use crate::error::{Error, Result};

verus! {

/// The service's configuration: the key sent to the upstream weather API.
#[derive(Debug, Clone)]
pub struct AppConfig {
    pub openweather_api_key: String,
}

/// A source of the service's configuration.
pub trait ConfigProvider {
    /// The configuration, or a `ConfigError` where none is available.
    fn get_config(&self) -> Result<AppConfig>;
}

/// A key, or the message of the failure that stands in its place.
pub type KeyOrMessage = core::result::Result<Seq<char>, Seq<char>>;

/// The configuration loaded once at start-up, and then only read.
pub struct RealConfigProvider {
    config: Option<AppConfig>,
}

impl View for RealConfigProvider {
    /// The loaded key, or `None` before a load has succeeded.
    type V = Option<Seq<char>>;

    closed spec fn view(&self) -> Option<Seq<char>> {
        match self.config {
            Some(c) => Some(c.openweather_api_key@),
            None => None,
        }
    }
}

/// What a load from the environment gave: the key, or the message of its failure.
pub open spec fn loaded_view(loaded: core::result::Result<AppConfig, String>) -> KeyOrMessage {
    match loaded {
        Ok(c) => Ok(c.openweather_api_key@),
        Err(m) => Err(m@),
    }
}

/// The message of the refusal of a load into a provider in `state`, or `None`
/// where the load is taken. A failed load is refused with its own message; a
/// successful one is refused where a configuration is already held.
pub open spec fn init_refusal(state: Option<Seq<char>>, loaded: KeyOrMessage) -> Option<
    Seq<char>,
> {
    match loaded {
        Err(m) => Some(m),
        Ok(_) => if state is Some {
            Some("Configuration already initialized"@)
        } else {
            None
        },
    }
}

/// The provider's state after a load: the loaded key where the load is taken,
/// else the state as it was.
pub open spec fn init_state(state: Option<Seq<char>>, loaded: KeyOrMessage) -> Option<
    Seq<char>,
> {
    match loaded {
        Ok(k) => if state is None {
            Some(k)
        } else {
            state
        },
        Err(_) => state,
    }
}

/// What reading a provider in `state` gives: its key, or the message of the
/// error for a provider that holds none.
pub open spec fn lookup_spec(state: Option<Seq<char>>) -> KeyOrMessage {
    match state {
        Some(k) => Ok(k),
        None => Err("Configuration not initialized"@),
    }
}

/// The key, or the error's message, that a configuration read returned.
pub open spec fn config_view(r: Result<AppConfig>) -> KeyOrMessage {
    match r {
        Ok(c) => Ok(c.openweather_api_key@),
        Err(e) => Err(e.message_view()),
    }
}

impl RealConfigProvider {
    /// A provider that holds no configuration yet.
    pub fn new() -> (p: Self)
        ensures
            p@ is None,
    {
        RealConfigProvider { config: None }
    }
}

impl ConfigProvider for RealConfigProvider {
    /// The loaded configuration, or a `ConfigError` "Configuration not
    /// initialized" before a load has succeeded.
    fn get_config(&self) -> (r: Result<AppConfig>)
        ensures
            config_view(r) == lookup_spec(self@),
            r matches Err(e) ==> e is ConfigError,
    {
        match &self.config {
            Some(c) => Ok(AppConfig { openweather_api_key: c.openweather_api_key.clone() }),
            None => Err(
                Error::ConfigError { message: String::from_str("Configuration not initialized") },
            ),
        }
    }
}

/// Takes the outcome of loading the configuration from the environment into
/// `provider`. A failed load is reported as a `ConfigError` with its message;
/// a successful one is stored, unless a configuration is already held, which
/// then stays and is reported as "Configuration already initialized".
pub fn init_config(
    provider: &mut RealConfigProvider,
    loaded: core::result::Result<AppConfig, String>,
) -> (r: Result<()>)
    ensures
        final(provider)@ == init_state(old(provider)@, loaded_view(loaded)),
        r is Ok <==> init_refusal(old(provider)@, loaded_view(loaded)) is None,
        r matches Err(e) ==> e is ConfigError && Some(e.message_view()) == init_refusal(
            old(provider)@,
            loaded_view(loaded),
        ),
{
    match loaded {
        Err(message) => Err(Error::ConfigError { message }),
        Ok(config) => {
            if provider.config.is_some() {
                Err(
                    Error::ConfigError {
                        message: String::from_str("Configuration already initialized"),
                    },
                )
            } else {
                provider.config = Some(config);
                Ok(())
            }
        },
    }
}

/// A second load into a provider that already holds a configuration is refused
/// with a `ConfigError`, and the first key stays readable.
pub proof fn lemma_second_init_refused(first: Seq<char>, second: KeyOrMessage)
    ensures
        init_refusal(None, Ok(first)) is None,
        init_refusal(init_state(None, Ok(first)), second) is Some,
        init_state(init_state(None, Ok(first)), second) == Some(first),
        lookup_spec(init_state(init_state(None, Ok(first)), second)) == KeyOrMessage::Ok(first),
{
}

/// A failed load is refused with its own message, whatever the provider holds,
/// and leaves the provider as it was.
pub proof fn lemma_failed_load_reported(state: Option<Seq<char>>, message: Seq<char>)
    ensures
        init_refusal(state, Err(message)) == Some(message),
        init_state(state, Err(message)) == state,
{
}

} // verus!
