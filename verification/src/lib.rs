//! Core logic of an orthodox two-panel file manager: panels and selection,
//! directory caching, keyboard shortcuts, search filters, memory pools,
//! command processing and the helpers around them, together with what the
//! interface decides: what keys, mouse clicks, slash commands and menu
//! entries do to the application state, the colour themes, and the text
//! grid a windowed terminal draws.

pub mod text;
pub mod paths;
pub mod fs;
pub mod vfs;
pub mod cache;
pub mod git;
pub mod state;
pub mod config;
pub mod operations;
pub mod shortcuts;
pub mod memory;
pub mod palette;
pub mod commands;
pub mod search;
pub mod ai;
pub mod terminal;
pub mod theme;
pub mod special;
pub mod progress;
pub mod mouse;
pub mod events;
pub mod monitor;
pub mod menu;
pub mod actions;
pub mod cursor;
pub mod keyboard;
pub mod shell;
pub mod screen;
pub mod launch;
pub mod demo;
pub mod remote;
pub mod ssh;
pub mod glyph;
