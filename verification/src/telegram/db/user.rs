//! Chat users as the database stores them.

use vstd::prelude::*;

verus! {

/// A Telegram user or bot.
pub struct User {
    /// Unique identifier for this user or bot.
    pub uid: String,
    /// User's or bot's first name.
    pub first_name: String,
    /// User's or bot's last name.
    pub last_name: Option<String>,
    /// User's or bot's username.
    pub username: Option<String>,
    /// True, if this user is a bot.
    pub is_bot: bool,
}

impl Default for User {
    fn default() -> (u: User)
        ensures
            u.uid@ == Seq::<char>::empty(),
            u.first_name@ == Seq::<char>::empty(),
            u.last_name is None,
            u.username is None,
            !u.is_bot,
    {
        User {
            uid: String::new(),
            first_name: String::new(),
            last_name: None,
            username: None,
            is_bot: false,
        }
    }
}

} // verus!
