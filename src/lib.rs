//! A tray-resident desktop shell: a verified model of the primary window's
//! lifecycle, driven by close requests, tray-icon interactions and tray-menu
//! commands.
pub mod laws;
pub mod menu;
pub mod shell;
