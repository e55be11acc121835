//! The closed taxonomy of tools of the application suite.
use vstd::prelude::*;

use crate::text::{lower_of, lowercase, same_text};

verus! {

/// A tool of the suite that may report a failure; `Unknown` stands for every
/// identifier outside the taxonomy.
#[derive(Clone, Copy, Debug, PartialEq, Eq, Structural)]
pub enum AscendaraTool {
    GofileHelper,
    MainDownloader,
    GameHandler,
    TopLevel,
    LanguageTranslation,
    TorrentHandler,
    NotificationHelper,
    Unknown,
}

/// The tool named by an identifier that is already in lowercase.
pub open spec fn tool_of_key(key: Seq<char>) -> AscendaraTool {
    if key == "gofilehelper"@ {
        AscendaraTool::GofileHelper
    } else if key == "maindownloader"@ {
        AscendaraTool::MainDownloader
    } else if key == "gamehandler"@ {
        AscendaraTool::GameHandler
    } else if key == "toplevel"@ {
        AscendaraTool::TopLevel
    } else if key == "languagetranslation"@ {
        AscendaraTool::LanguageTranslation
    } else if key == "torrenthandler"@ {
        AscendaraTool::TorrentHandler
    } else if key == "notificationhelper"@ {
        AscendaraTool::NotificationHelper
    } else {
        AscendaraTool::Unknown
    }
}

/// The tool named by an identifier, matched without regard to case.
pub open spec fn tool_of_identifier(identifier: Seq<char>) -> AscendaraTool {
    tool_of_key(lower_of(identifier))
}

/// The display name of the tool that an identifier names.
pub open spec fn tool_name_of(identifier: Seq<char>) -> Seq<char> {
    tool_of_identifier(identifier).display_name_spec()
}

impl AscendaraTool {
    /// The name shown to the user for this tool.
    pub open spec fn display_name_spec(self) -> Seq<char> {
        match self {
            AscendaraTool::GofileHelper => "Ascendara GoFile Helper"@,
            AscendaraTool::MainDownloader => "Ascendara Downloader"@,
            AscendaraTool::GameHandler => "Ascendara Game Handler"@,
            AscendaraTool::TopLevel => "Ascendara"@,
            AscendaraTool::LanguageTranslation => "Ascendara Language Translation"@,
            AscendaraTool::TorrentHandler => "Ascendara Torrent Handler"@,
            AscendaraTool::NotificationHelper => "Ascendara Notification Helper"@,
            AscendaraTool::Unknown => "Unknown Ascendara Tool"@,
        }
    }

    /// The tool named by `key`, an identifier already in lowercase.
    pub fn from_key(key: &String) -> (r: AscendaraTool)
        ensures
            r == tool_of_key(key@),
    {
        if same_text(key, "gofilehelper") {
            AscendaraTool::GofileHelper
        } else if same_text(key, "maindownloader") {
            AscendaraTool::MainDownloader
        } else if same_text(key, "gamehandler") {
            AscendaraTool::GameHandler
        } else if same_text(key, "toplevel") {
            AscendaraTool::TopLevel
        } else if same_text(key, "languagetranslation") {
            AscendaraTool::LanguageTranslation
        } else if same_text(key, "torrenthandler") {
            AscendaraTool::TorrentHandler
        } else if same_text(key, "notificationhelper") {
            AscendaraTool::NotificationHelper
        } else {
            AscendaraTool::Unknown
        }
    }

    /// The tool named by `tool_id`, matched without regard to case; an
    /// identifier outside the taxonomy gives `Unknown`.
    pub fn from_identifier(tool_id: &str) -> (r: AscendaraTool)
        ensures
            r == tool_of_identifier(tool_id@),
    {
        let key = lowercase(tool_id);
        AscendaraTool::from_key(&key)
    }

    /// The name shown to the user for this tool.
    pub fn display_name(&self) -> (r: String)
        ensures
            r@ == self.display_name_spec(),
    {
        let name = match self {
            AscendaraTool::GofileHelper => "Ascendara GoFile Helper",
            AscendaraTool::MainDownloader => "Ascendara Downloader",
            AscendaraTool::GameHandler => "Ascendara Game Handler",
            AscendaraTool::TopLevel => "Ascendara",
            AscendaraTool::LanguageTranslation => "Ascendara Language Translation",
            AscendaraTool::TorrentHandler => "Ascendara Torrent Handler",
            AscendaraTool::NotificationHelper => "Ascendara Notification Helper",
            AscendaraTool::Unknown => "Unknown Ascendara Tool",
        };
        name.to_owned()
    }

    /// The display name of the tool that `tool_id` names, matched without
    /// regard to case; "Unknown Ascendara Tool" outside the taxonomy.
    pub fn get_tool_name(tool_id: &str) -> (r: String)
        ensures
            r@ == tool_name_of(tool_id@),
    {
        AscendaraTool::from_identifier(tool_id).display_name()
    }

    /// The display name of the tool that `key`, an identifier already in
    /// lowercase, names.
    pub fn tool_name_for_key(key: &String) -> (r: String)
        ensures
            r@ == tool_of_key(key@).display_name_spec(),
    {
        AscendaraTool::from_key(key).display_name()
    }
}

/// Whether `key` is one of the identifiers of the taxonomy, in lowercase.
pub open spec fn known_key(key: Seq<char>) -> bool {
    key == "gofilehelper"@ || key == "maindownloader"@ || key == "gamehandler"@ || key
        == "toplevel"@ || key == "languagetranslation"@ || key == "torrenthandler"@ || key
        == "notificationhelper"@
}

/// Every identifier resolves to a non-empty display name; one whose lowercase
/// form is not an identifier of the taxonomy resolves to the name of the
/// unknown tool.
pub proof fn tool_name_total(identifier: Seq<char>)
    ensures
        tool_name_of(identifier).len() > 0,
        !known_key(lower_of(identifier)) ==> tool_name_of(identifier)
            == "Unknown Ascendara Tool"@,
        known_key(lower_of(identifier)) ==> tool_name_of(identifier)
            != "Unknown Ascendara Tool"@,
{
    reveal_strlit("Ascendara GoFile Helper");
    reveal_strlit("Ascendara Downloader");
    reveal_strlit("Ascendara Game Handler");
    reveal_strlit("Ascendara");
    reveal_strlit("Ascendara Language Translation");
    reveal_strlit("Ascendara Torrent Handler");
    reveal_strlit("Ascendara Notification Helper");
    reveal_strlit("Unknown Ascendara Tool");
    assert("Unknown Ascendara Tool"@[0] == 'U');
    if known_key(lower_of(identifier)) {
        assert(tool_name_of(identifier)[0] == 'A');
    }
}

} // verus!
