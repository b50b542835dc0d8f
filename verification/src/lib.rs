//! The decisions of a desktop video player, apart from its windows and its media engine.

pub mod text;
pub mod clock;
pub mod path;
pub mod action;
pub mod media;
pub mod command;
pub mod selection;
pub mod menu;
pub mod model;
pub mod player;
pub mod update;
pub mod laws;
