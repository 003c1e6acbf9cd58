//! preflight: the verified core of a todo planner whose "doing today" list
//! is a per-day plan, with a terminal client and a remote-sync layer.

pub mod app;
pub mod bars;
pub mod commands;
pub mod config;
pub mod dates;
pub mod edit;
pub mod form;
pub mod gql;
pub mod input;
pub mod jobs;
pub mod keys;
pub mod lists;
pub mod msg;
pub mod nav;
pub mod overlay;
pub mod pick;
pub mod provider;
pub mod remote;
pub mod screen;
pub mod sidebar;
pub mod startup;
pub mod text;
pub mod theme;
pub mod views;
