pub mod auth;
pub mod helpers;
