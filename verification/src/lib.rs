//! Turn coordination between a human-facing interface and up to two search
//! engines for a two-player board game.

pub mod board;
pub mod player_setting;
pub mod session;
pub mod coordinator;
pub mod guarantees;
pub mod engine;
pub mod lifecycle;
pub mod link;
pub mod coloring;
pub mod labels;
pub mod positions;
pub mod screen;
pub mod selection;
