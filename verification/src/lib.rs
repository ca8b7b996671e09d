pub mod app;
pub mod components;
pub mod config;
pub mod decimal;
pub mod dynamic_list;
pub mod events;
pub mod input;
pub mod models;
pub mod performance_queue;
pub mod process_list;
