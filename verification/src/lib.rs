//! Decision logic of an auction-house and bazaar trading bot.

pub mod actions;
pub mod announce;
pub mod claims;
pub mod client;
pub mod coins;
pub mod commands;
pub mod config;
pub mod dealings;
pub mod flips;
pub mod flows;
pub mod handling;
pub mod inventory;
pub mod items;
pub mod json;
pub mod letters;
pub mod listings;
pub mod messages;
pub mod processor;
pub mod routing;
pub mod scoreboard;
pub mod sessions;
pub mod startup;
pub mod text;
pub mod trader;
pub mod turns;
pub mod types;
pub mod web;
pub mod windows;
