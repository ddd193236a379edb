//! Decisions of the common frames of the wizard.
pub mod creator;
pub mod desktop;
pub mod icon;
pub mod platform;
pub mod welcome;
pub mod finish;
pub mod name;
pub mod term;
