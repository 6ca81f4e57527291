//! The commands of the download bot.
use vstd::prelude::*;

verus! {

/// Where downloaded media are written.
pub const DOWNLOAD_DIR: &'static str = "./download";

/// A command of the download bot.
pub enum Command {
    /// Display the list of commands.
    Help,
    /// Download the media of an X (Twitter) link.
    Twitter(String),
}

impl Command {
    /// How the command is written.
    pub open spec fn display_text(&self) -> Seq<char> {
        match self {
            Command::Help => "help"@,
            Command::Twitter(arg) => "twitter "@ + arg@,
        }
    }

    /// How the command is written (its `Display` text).
    pub fn to_string(&self) -> (res: String)
        ensures
            res@ == self.display_text(),
    {
        match self {
            Command::Help => String::from_str("help"),
            Command::Twitter(arg) => String::from_str("twitter ").concat(arg.as_str()),
        }
    }
}

} // verus!
