//! The interactive installer for desktop Linux systems: its package catalogue,
//! the state it keeps of what is installed, and the decisions of its menus.
pub mod catalog;
pub mod catalog_laws;
pub mod distribution;
pub mod flatpak;
pub mod gnome;
pub mod helper;
pub mod hooks;
pub mod kde;
pub mod laws;
pub mod menu;
pub mod other;
pub mod package;
pub mod snap;
