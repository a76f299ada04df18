//! Verified core of a modular chat aggregator: the events that chat sources
//! produce, how each source turns what it receives into events, how chat
//! commands are recognised, and how the console shows events.

pub mod text;
pub mod event;
pub mod commands;
pub mod config;
pub mod youtube;
pub mod twitch;
pub mod irc;
pub mod local;
pub mod console;
pub mod web;
