//! A small tweeting service with a character-cell screen.

pub mod strutil;
pub mod oid;
pub mod gpu;
pub mod tweeter;
pub mod menus;
