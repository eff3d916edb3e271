//! Decisions, formats and records of the summarising bot.

pub mod bot;
pub mod clock;
pub mod db;
pub mod digest;
pub mod text;
