//! The commands the service layer answers.
use vstd::prelude::*;

verus! {

/// A command of the bot.
pub enum Command {
    /// Display the list of commands.
    Help,
    /// Download the media attached to an X (Twitter) post.
    Twitter(String),
}

impl Command {
    /// How the command is written in a chat.
    pub open spec fn display_text(&self) -> Seq<char> {
        match self {
            Command::Help => "/help"@,
            Command::Twitter(arg) => "/twitter "@ + arg@,
        }
    }

    /// How the command is written in a chat (its `Display` text).
    pub fn to_string(&self) -> (res: String)
        ensures
            res@ == self.display_text(),
    {
        match self {
            Command::Help => String::from_str("/help"),
            Command::Twitter(arg) => String::from_str("/twitter ").concat(arg.as_str()),
        }
    }
}

} // verus!
