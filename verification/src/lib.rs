//! Command, chat and moderation logic of the CC discord bot.
pub mod text;
pub mod model;
pub mod clear;
pub mod ai_chat;
pub mod activity;
pub mod config;
pub mod music;
pub mod general;
pub mod prompt;
pub mod yt_dlp;
pub mod shared;
pub mod utils;
pub mod hub;
pub mod json;
