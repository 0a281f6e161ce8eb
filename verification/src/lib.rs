//! Core logic of a multi-game party backend: the key vault that issues
//! two-word game keys, the page cache for game listings, and the
//! authentication / subject-resolution pipeline, with their supporting
//! data model. Everything here is stated in contracts and verified;
//! the process around it lives outside.

pub mod access;
pub mod auth;
pub mod cache;
pub mod config;
pub mod dash;
pub mod error;
pub mod game;
pub mod game_tip;
pub mod gs_client;
pub mod integration;
pub mod jsonval;
pub mod key_vault;
pub mod paging;
pub mod popup;
pub mod sessions;
pub mod system_log;
pub mod text;
pub mod user;
pub mod validation;
