pub mod config;
pub mod formation;
pub mod game;
pub mod laws;
pub mod model;
pub mod pos;
