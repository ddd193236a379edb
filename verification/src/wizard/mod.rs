//! Decisions of the wizards of each platform.
pub mod linux;
pub mod name;
pub mod wine;
pub mod install;
pub mod compress;
