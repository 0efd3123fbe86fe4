use vstd::prelude::*;

verus! {

/// A text shown in the header's status line.
pub enum StatusMessage {
    /// A refresh was asked for while another one runs.
    ScanInProgress,
    /// A refresh with a Wi-Fi scan has started.
    Scanning,
    /// The status line is emptied once the networks are listed.
    Cleared,
    /// The Wi-Fi scan failed, with the reason given.
    ScanFailed(String),
    /// The networks (or the Wi-Fi state) could not be read.
    FetchFailed(String),
    /// Wi-Fi could not be switched on or off.
    WifiSwitchFailed(String),
    /// Wi-Fi was switched on but did not become ready.
    WifiNotReady,
    /// NetworkManager could not be reached at start-up.
    InitFailed(String),
}

impl View for StatusMessage {
    type V = Seq<char>;

    /// The text shown.
    open spec fn view(&self) -> Seq<char> {
        match self {
            StatusMessage::ScanInProgress => "Scan already in progress"@,
            StatusMessage::Scanning => "Scanning..."@,
            StatusMessage::Cleared => ""@,
            StatusMessage::ScanFailed(e) => "Scan failed: "@ + e@,
            StatusMessage::FetchFailed(e) => "Error fetching networks: "@ + e@,
            StatusMessage::WifiSwitchFailed(e) => "Error setting Wi-Fi: "@ + e@,
            StatusMessage::WifiNotReady => "Wi-Fi failed to initialize"@,
            StatusMessage::InitFailed(e) => "Failed to initialize: "@ + e@,
        }
    }
}

fn prefixed(prefix: &str, detail: &String) -> (s: String)
    ensures
        s@ == prefix@ + detail@,
{
    let mut s = String::from_str(prefix);
    s.append(detail.as_str());
    s
}

impl StatusMessage {
    /// The text shown.
    pub fn text(&self) -> (s: String)
        ensures
            s@ == self@,
    {
        match self {
            StatusMessage::ScanInProgress => String::from_str("Scan already in progress"),
            StatusMessage::Scanning => String::from_str("Scanning..."),
            StatusMessage::Cleared => String::from_str(""),
            StatusMessage::ScanFailed(e) => prefixed("Scan failed: ", e),
            StatusMessage::FetchFailed(e) => prefixed("Error fetching networks: ", e),
            StatusMessage::WifiSwitchFailed(e) => prefixed("Error setting Wi-Fi: ", e),
            StatusMessage::WifiNotReady => String::from_str("Wi-Fi failed to initialize"),
            StatusMessage::InitFailed(e) => prefixed("Failed to initialize: ", e),
        }
    }
}

/// What each status reads: fixed texts for a scan in progress, a scan
/// starting, an emptied line and Wi-Fi not becoming ready; the reason given,
/// after a fixed prefix, for a failed scan, a failed reading of the
/// networks, a failed Wi-Fi switch and a failed start-up.
pub proof fn status_texts(detail: String)
    ensures
        StatusMessage::ScanInProgress@ == "Scan already in progress"@,
        StatusMessage::Scanning@ == "Scanning..."@,
        StatusMessage::Cleared@.len() == 0,
        StatusMessage::WifiNotReady@ == "Wi-Fi failed to initialize"@,
        StatusMessage::ScanFailed(detail)@ == "Scan failed: "@ + detail@,
        StatusMessage::FetchFailed(detail)@ == "Error fetching networks: "@ + detail@,
        StatusMessage::WifiSwitchFailed(detail)@ == "Error setting Wi-Fi: "@ + detail@,
        StatusMessage::InitFailed(detail)@ == "Failed to initialize: "@ + detail@,
{
    reveal_strlit("");
}

} // verus!
