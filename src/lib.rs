pub mod config;
pub mod lifecycle;
pub mod mailer;
pub mod query;
