//! Verified core of a Telegram bot that stores group chat messages and answers
//! `/digest` commands with summaries of the discussion threads.

pub mod telegram;
