//! A terminal podcast manager's core: keybindings, feed and duration
//! parsing, colour parsing, podcast and episode records, menus, panels
//! and popup windows, with their behaviour stated as contracts.

pub mod text;
pub mod config;
pub mod keymap;
pub mod feeds;
pub mod downloads;
pub mod main_controller;

pub mod opml;
pub mod store;
pub mod types;
pub mod ui;
