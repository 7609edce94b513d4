//! Spoticord: the logic of a Discord bot that plays Spotify music in voice channels.
pub mod audio;
pub mod commands;
pub mod config;
pub mod database;
pub mod discord;
pub mod ipc;
pub mod player;
pub mod session;
pub mod shared;
pub mod spotify;
pub mod text;
pub mod utils;
