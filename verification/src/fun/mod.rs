//! Games and chat features of the bot.

pub mod meme;
pub mod moli;
pub mod num_bomb;
