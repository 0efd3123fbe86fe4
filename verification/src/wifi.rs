use vstd::prelude::*;

use crate::status::StatusMessage;

verus! {

/// What the header does once it knows whether Wi-Fi is on.
pub struct WifiStartup {
    /// The position the Wi-Fi switch is put in, when known.
    pub switch_on: Option<bool>,
    /// Whether to refresh the network list (with a scan).
    pub refresh: bool,
    /// The status line to show, if any.
    pub status: Option<StatusMessage>,
}

/// With Wi-Fi's state read, the switch follows it and the list is
/// refreshed when Wi-Fi is on; when it could not be read, the status line
/// says so.
pub fn wifi_state_loaded(r: Result<bool, String>) -> (s: WifiStartup)
    ensures
        match r {
            Ok(on) => s.switch_on == Some(on) && s.refresh == on && s.status is None,
            Err(e) => s.switch_on is None && !s.refresh && (s.status matches Some(m) && m@
                == "Error fetching networks: "@ + e@),
        },
{
    match r {
        Ok(on) => WifiStartup { switch_on: Some(on), refresh: on, status: None },
        Err(e) => WifiStartup {
            switch_on: None,
            refresh: false,
            status: Some(StatusMessage::FetchFailed(e)),
        },
    }
}

/// What the header does next after the Wi-Fi switch was moved.
pub enum WifiNext {
    /// Nothing more.
    Done,
    /// Show this status and stop.
    ShowStatus(StatusMessage),
    /// Wait until Wi-Fi is ready.
    WaitUntilReady,
    /// Refresh the network list (with a scan).
    Refresh,
}

/// Wi-Fi was switched on (`active`) or off, with result `r`: a failure is
/// shown; switched on, it waits for Wi-Fi to be ready; switched off,
/// nothing more happens.
pub fn wifi_switched(active: bool, r: Result<(), String>) -> (n: WifiNext)
    ensures
        match r {
            Ok(_) => if active {
                n is WaitUntilReady
            } else {
                n is Done
            },
            Err(e) => n matches WifiNext::ShowStatus(m) && m@ == "Error setting Wi-Fi: "@ + e@,
        },
{
    match r {
        Ok(_) => if active {
            WifiNext::WaitUntilReady
        } else {
            WifiNext::Done
        },
        Err(e) => WifiNext::ShowStatus(StatusMessage::WifiSwitchFailed(e)),
    }
}

/// Wi-Fi, switched on, became ready (or not): the list is refreshed, or
/// the status line says Wi-Fi failed to initialize.
pub fn wifi_ready(ready: bool) -> (n: WifiNext)
    ensures
        ready ==> n is Refresh,
        !ready ==> (n matches WifiNext::ShowStatus(m) && m@ == "Wi-Fi failed to initialize"@),
{
    if ready {
        WifiNext::Refresh
    } else {
        WifiNext::ShowStatus(StatusMessage::WifiNotReady)
    }
}

} // verus!
