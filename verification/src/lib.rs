//! Clipboard-history helpers: the system colour scheme cache that drives the
//! tray icon, and the GIF cache and paste flow.

pub mod theme_manager;
pub mod gif_manager;
