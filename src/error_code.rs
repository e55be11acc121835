//! The range-partitioned taxonomy of error codes.
use vstd::prelude::*;

verus! {

/// Whether `code` is one of the codes that the taxonomy lists.
pub open spec fn listed_code(code: int) -> bool {
    (1000 <= code <= 1004) || (1100 <= code <= 1105) || (1200 <= code <= 1202) || (1300 <= code
        <= 1305) || (1400 <= code <= 1408) || (1500 <= code <= 1506) || (1600 <= code <= 1604)
}

/// The description shown for an error code.
pub open spec fn error_description(code: int) -> Seq<char> {
    if code == 1000 {
        "An unknown error occurred"@
    } else if code == 1001 {
        "An unhandled exception occurred"@
    } else if code == 1002 {
        "An unhandled rejection occurred"@
    } else if code == 1003 {
        "A network error occurred"@
    } else if code == 1004 {
        "Invalid data received"@
    } else if code == 1100 {
        "Game not found"@
    } else if code == 1101 {
        "Failed to launch game"@
    } else if code == 1102 {
        "Game configuration error"@
    } else if code == 1103 {
        "Game process error"@
    } else if code == 1104 {
        "Settings file error"@
    } else if code == 1105 {
        "Download directory error"@
    } else if code == 1200 {
        "Language Translation API error occurred"@
    } else if code == 1201 {
        "Language Translation rate limit exceeded"@
    } else if code == 1202 {
        "Error processing file for Language Translation operation"@
    } else if code == 1300 {
        "GoFile API error occurred"@
    } else if code == 1301 {
        "Failed to upload file to GoFile"@
    } else if code == 1302 {
        "Failed to download file from GoFile"@
    } else if code == 1303 {
        "GoFile authentication failed"@
    } else if code == 1304 {
        "GoFile rate limit exceeded"@
    } else if code == 1305 {
        "Error processing file for GoFile operation"@
    } else if code == 1400 {
        "Failed to initialize download"@
    } else if code == 1401 {
        "Error updating download progress"@
    } else if code == 1402 {
        "Failed to cancel download"@
    } else if code == 1403 {
        "Download verification failed"@
    } else if code == 1404 {
        "Failed to extract downloaded files"@
    } else if code == 1405 {
        "Error during cleanup"@
    } else if code == 1406 {
        "Error reading or writing settings file"@
    } else if code == 1407 {
        "Error reading or writing games file"@
    } else if code == 1408 {
        "Failed to launch helper process"@
    } else if code == 1500 {
        "Torrent API error occurred"@
    } else if code == 1501 {
        "Failed to add torrent"@
    } else if code == 1502 {
        "Failed to remove torrent"@
    } else if code == 1503 {
        "Failed to get torrent status"@
    } else if code == 1504 {
        "Torrent configuration error"@
    } else if code == 1505 {
        "Error processing torrent file"@
    } else if code == 1506 {
        "Failed to install torrent content"@
    } else if code == 1600 {
        "Failed to initialize notification"@
    } else if code == 1601 {
        "Failed to display notification"@
    } else if code == 1602 {
        "Invalid or unsupported theme"@
    } else if code == 1603 {
        "Failed to load notification resources"@
    } else if code == 1604 {
        "Error during notification animation"@
    } else {
        "Unrecognized error code"@
    }
}

/// The resolver of error codes.
pub struct ErrorCodes;

impl ErrorCodes {
    /// The description of `code`; "Unrecognized error code" for every code
    /// that the taxonomy does not list.
    pub fn get_error_description(code: i32) -> (r: String)
        ensures
            r@ == error_description(code as int),
    {
        let text = match code {
            1000 => "An unknown error occurred",
            1001 => "An unhandled exception occurred",
            1002 => "An unhandled rejection occurred",
            1003 => "A network error occurred",
            1004 => "Invalid data received",
            1100 => "Game not found",
            1101 => "Failed to launch game",
            1102 => "Game configuration error",
            1103 => "Game process error",
            1104 => "Settings file error",
            1105 => "Download directory error",
            1200 => "Language Translation API error occurred",
            1201 => "Language Translation rate limit exceeded",
            1202 => "Error processing file for Language Translation operation",
            1300 => "GoFile API error occurred",
            1301 => "Failed to upload file to GoFile",
            1302 => "Failed to download file from GoFile",
            1303 => "GoFile authentication failed",
            1304 => "GoFile rate limit exceeded",
            1305 => "Error processing file for GoFile operation",
            1400 => "Failed to initialize download",
            1401 => "Error updating download progress",
            1402 => "Failed to cancel download",
            1403 => "Download verification failed",
            1404 => "Failed to extract downloaded files",
            1405 => "Error during cleanup",
            1406 => "Error reading or writing settings file",
            1407 => "Error reading or writing games file",
            1408 => "Failed to launch helper process",
            1500 => "Torrent API error occurred",
            1501 => "Failed to add torrent",
            1502 => "Failed to remove torrent",
            1503 => "Failed to get torrent status",
            1504 => "Torrent configuration error",
            1505 => "Error processing torrent file",
            1506 => "Failed to install torrent content",
            1600 => "Failed to initialize notification",
            1601 => "Failed to display notification",
            1602 => "Invalid or unsupported theme",
            1603 => "Failed to load notification resources",
            1604 => "Error during notification animation",
            _ => "Unrecognized error code",
        };
        text.to_owned()
    }
}

/// Every code has a non-empty description, and the description of the
/// unrecognized code is given exactly to the codes that the taxonomy does not
/// list.
pub proof fn error_description_total(code: int)
    ensures
        error_description(code).len() > 0,
        !listed_code(code) <==> error_description(code) == "Unrecognized error code"@,
{
    reveal_strlit("An unknown error occurred");
    reveal_strlit("An unhandled exception occurred");
    reveal_strlit("An unhandled rejection occurred");
    reveal_strlit("A network error occurred");
    reveal_strlit("Invalid data received");
    reveal_strlit("Game not found");
    reveal_strlit("Failed to launch game");
    reveal_strlit("Game configuration error");
    reveal_strlit("Game process error");
    reveal_strlit("Settings file error");
    reveal_strlit("Download directory error");
    reveal_strlit("Language Translation API error occurred");
    reveal_strlit("Language Translation rate limit exceeded");
    reveal_strlit("Error processing file for Language Translation operation");
    reveal_strlit("GoFile API error occurred");
    reveal_strlit("Failed to upload file to GoFile");
    reveal_strlit("Failed to download file from GoFile");
    reveal_strlit("GoFile authentication failed");
    reveal_strlit("GoFile rate limit exceeded");
    reveal_strlit("Error processing file for GoFile operation");
    reveal_strlit("Failed to initialize download");
    reveal_strlit("Error updating download progress");
    reveal_strlit("Failed to cancel download");
    reveal_strlit("Download verification failed");
    reveal_strlit("Failed to extract downloaded files");
    reveal_strlit("Error during cleanup");
    reveal_strlit("Error reading or writing settings file");
    reveal_strlit("Error reading or writing games file");
    reveal_strlit("Failed to launch helper process");
    reveal_strlit("Torrent API error occurred");
    reveal_strlit("Failed to add torrent");
    reveal_strlit("Failed to remove torrent");
    reveal_strlit("Failed to get torrent status");
    reveal_strlit("Torrent configuration error");
    reveal_strlit("Error processing torrent file");
    reveal_strlit("Failed to install torrent content");
    reveal_strlit("Failed to initialize notification");
    reveal_strlit("Failed to display notification");
    reveal_strlit("Invalid or unsupported theme");
    reveal_strlit("Failed to load notification resources");
    reveal_strlit("Error during notification animation");
    reveal_strlit("Unrecognized error code");
    assert("Unrecognized error code"@[0] == 'U');
    if listed_code(code) {
        assert(error_description(code)[0] != 'U');
    }
}

} // verus!
