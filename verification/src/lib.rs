//! Interactive wallpaper-selection session engine for a Hyprland desktop.
//!
//! The library holds the verified core: monitor orientation, workspace
//! isolation, catalog paging and navigation, wallpaper-apply planning, and
//! the session state machine with its rollback-on-cancel guarantee. All
//! input/output (the compositor, the catalog HTTP API, the picker UI, the
//! file system) is performed by the surrounding application, which feeds
//! plain values into these functions and carries out the effects they
//! request.

pub mod apply;
pub mod config;
pub mod errors;
pub mod hyprland;
pub mod retry;
pub mod session;
pub mod state;
pub mod text;
pub mod ui;
pub mod wallhaven;
