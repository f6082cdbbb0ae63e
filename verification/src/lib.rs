//! Terminal front-end logic for streaming internet radio: the playback
//! controller state machine, the JSON request/response correlation protocol
//! spoken to an external media player, station and song metadata handling,
//! and the integer-scaled audio-level model that feeds the visualizer.

pub mod app_model;
pub mod config;
pub mod input;
pub mod player;
pub mod supervisor;
pub mod protocol;
pub mod spectrum;
pub mod station;
pub mod text;
pub mod theme;
pub mod visualizer;
