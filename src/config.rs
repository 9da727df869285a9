//! Configuration of the application.
use vstd::prelude::*;

verus! {

/// Configuration of the application.
#[derive(Debug, Clone, PartialEq, Eq)]
pub struct AppConfig {
    pub bot: BotConfig,
}

/// Configuration of the bot.
#[derive(Debug, Clone, PartialEq, Eq)]
pub struct BotConfig {
    pub connection: BotConnectionConfig,
}

/// How the bot connects to the chat platform.
#[derive(Debug, Clone, PartialEq, Eq)]
pub struct BotConnectionConfig {
    pub name: String,
    pub token: String,
}

} // verus!
