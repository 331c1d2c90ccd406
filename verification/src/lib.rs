//! Verified core of a dual-pane FTP/SFTP/FTPS client: editor fields,
//! listings, the transfer queue, path guards, the UI state reducer, the
//! folder-transfer drain, what keys and mouse events ask for, saved sites
//! and colour themes.
pub mod text;
pub mod text_field;
pub mod model;
pub mod queue;
pub mod paths;
pub mod listing;
pub mod toast;
pub mod panes;
pub mod state;
pub mod actions;
pub mod reducer;
pub mod drain;
pub mod ui;
pub mod config;
pub mod theme;
pub mod keys;
pub mod worker;
pub mod mouse;
pub mod targets;
pub mod navigate;
pub mod batch;
pub mod events;
pub mod fs_ops;
