//! State coordinator of a desktop shell that hosts a web view.
//!
//! The shell owns a menu bar, a tray icon with a popup window, a few named
//! content windows and a persisted record of settings. Menu clicks, tray
//! clicks and close requests all read and change that state. This crate
//! holds the decisions: every handler takes the state and an event, changes
//! a model of the state and returns the list of effects that the host has
//! to carry out on the real windows, menus and files.
//!
//! - [`conf`]: the settings record, its merge-patch and the store.
//! - [`action`]: the vocabulary of action identifiers.
//! - [`tree`] and [`menu`]: the menu tree and how it is built.
//! - [`effect`]: what a handler asks the host to do.
//! - [`window`]: the named windows and how they are opened.
//! - [`shell`]: the state as a whole and what each effect does to it.
//! - [`router`]: the handlers of menu and tray events.
//! - [`close`]: the handler of close requests.
//! - [`update`]: the list of downloaded files.

pub mod text;
pub mod conf;
pub mod action;
pub mod tree;
pub mod menu;
pub mod effect;
pub mod window;
pub mod shell;
pub mod router;
pub mod close;
pub mod update;
