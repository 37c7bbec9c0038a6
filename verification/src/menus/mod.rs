//! The terminal interface: its screens, its lists, and what each choice
//! of a menu leads to.

pub mod screens;
pub mod lists;
pub mod flow;
