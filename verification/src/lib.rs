//! Verified core of a collection of Linux desktop maintenance tools.
pub mod action;
pub mod backup_dbs;
pub mod backup_home;
pub mod image_resizer;
pub mod linux_setup;
pub mod name_set;
pub mod number;
pub mod overview;
pub mod package_installer;
pub mod sfs;
pub mod text;
pub mod website_setup;
