//! The backend (`gameimage-cli`): the requests the wizard sends and what
//! it makes of the answers.
pub mod request;
pub mod desktop;
pub mod init;
pub mod install;
pub mod package;
pub mod project;
pub mod select;
pub mod test;
pub mod gameimage;
pub mod fetch;
pub mod search;
