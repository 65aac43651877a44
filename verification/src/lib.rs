pub mod commands;
pub mod error;
pub mod login;
pub mod presence;
pub mod replies;
pub mod text;
pub mod urls;
