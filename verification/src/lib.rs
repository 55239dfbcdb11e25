//! A turn-based battle engine: coalitions of players fight a five-part
//! machine, one battle per guild, driven by a cooperative tick loop.

pub mod text;
pub mod seqs;
pub mod clock;
pub mod localization;
pub mod components;
pub mod dice;
pub mod game_helpers;
pub mod bundles;
pub mod events;
pub mod world;
pub mod registry;
pub mod battle_log;
pub mod dispatcher;
pub mod combat;
pub mod state_driver;
pub mod spawners;
pub mod timers;
pub mod delay;
pub mod render;
pub mod engine;
pub mod entities;
pub mod state;
pub mod bygone_03;
pub mod player_command;
pub mod cli;
pub mod command_parser;
pub mod discord_renderer;
pub mod controller;
pub mod discord_client;
