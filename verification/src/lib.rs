pub mod cache;
pub mod clock;
pub mod commands;
pub mod converter;
pub mod helpers;
pub mod sources;
pub mod text;
