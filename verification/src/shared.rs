//! Data shared between the bot and the player process: track details and lyrics.
pub mod lyrics;
pub mod player_info;
