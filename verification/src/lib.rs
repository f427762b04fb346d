pub mod auth;
pub mod config;
pub mod db;
pub mod digest;
pub mod discord;
pub mod error;
pub mod json;
pub mod models;
pub mod pattern;
pub mod pipeline;
pub mod reddit;
pub mod rule;
pub mod scan;
pub mod sms;
pub mod text;
pub mod title;
