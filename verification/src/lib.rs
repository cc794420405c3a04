//! State and decisions of a World of Warcraft addon manager.
pub mod addon;
pub mod catalog;
pub mod config;
pub mod flavor_map;
pub mod laws;
pub mod list;
pub mod message;
pub mod order;
pub mod perform;
pub mod search;
pub mod sort;
pub mod state;
pub mod task;
pub mod text;
pub mod update;
pub mod wow;
