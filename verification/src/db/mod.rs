//! The JSON databases the backend keeps in the build directory, as the
//! library models them.
pub mod global;
pub mod env;
pub mod arg;
pub mod fetch;
pub mod project;
pub mod search;
