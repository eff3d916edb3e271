//! Records that the bot keeps in its graph database, the queries that read
//! them back, and the checks on what the queries return.

pub mod db;
pub mod digest;
pub mod message;
pub mod user;
