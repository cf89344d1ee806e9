pub mod config;
pub mod context;
pub mod file_table;
pub mod files;
pub mod playlist;
pub mod state;
