//! What the bot needs before it can start: its credential and the address
//! of the chat service.

use vstd::prelude::*;

verus! {

/// The configuration the bot starts with.
#[derive(Clone, Debug, PartialEq, Eq)]
pub struct StartupConfig {
    /// The bot's authentication token.
    pub token: String,
    /// The base address of the chat service.
    pub api_url: String,
}

/// Why the bot cannot start.
#[derive(Clone, Copy, Debug, PartialEq, Eq, Structural)]
pub enum StartupError {
    /// No authentication token was configured.
    MissingToken,
}

/// The base address used when none is configured: a chat service that runs
/// beside the bot.
pub open spec fn default_api_url() -> Seq<char> {
    "http://telegram-api:8081/bot"@
}

/// Puts the startup configuration together from what the environment
/// holds. Without a token there is no configuration; without an address
/// the default one is used.
pub fn startup_config(token: Option<String>, api_url: Option<String>) -> (config: Result<
    StartupConfig,
    StartupError,
>)
    ensures
        token is None <==> config == Err::<StartupConfig, StartupError>(
            StartupError::MissingToken,
        ),
        token is Some <==> config is Ok,
        config matches Ok(config) ==> config.token@ == token.unwrap()@ && config.api_url@
            == match api_url {
            Some(url) => url@,
            None => default_api_url(),
        },
{
    match token {
        Some(token) => {
            let api_url = match api_url {
                Some(url) => url,
                None => String::from_str("http://telegram-api:8081/bot"),
            };
            Ok(StartupConfig { token, api_url })
        },
        None => Err(StartupError::MissingToken),
    }
}

} // verus!
