pub mod assoc;
pub mod cli;
pub mod command;
pub mod data;
pub mod duration;
pub mod event;
pub mod laws;
pub mod lemmas;
pub mod message;
pub mod order;
pub mod path;
pub mod screen;
pub mod span;
pub mod text;
pub mod update;
