use vstd::prelude::*;

verus! {

/// Which sections of the window are shown.
#[derive(Clone, Copy, Debug, PartialEq, Eq, Structural)]
pub struct UiPrefs {
    pub show_wifi: bool,
    pub show_bluetooth: bool,
}

/// Both sections shown.
pub open spec fn default_prefs() -> UiPrefs {
    UiPrefs { show_wifi: true, show_bluetooth: true }
}

/// The preferences in force: those stored at start-up, or both sections
/// shown when none were stored.
pub fn ui_prefs(stored: Option<UiPrefs>) -> (p: UiPrefs)
    ensures
        p == (match stored {
            Some(s) => s,
            None => default_prefs(),
        }),
        stored is None ==> p.show_wifi && p.show_bluetooth,
        stored matches Some(s) ==> p == s,
{
    match stored {
        Some(s) => s,
        None => UiPrefs { show_wifi: true, show_bluetooth: true },
    }
}

/// Why the program refuses to start.
#[derive(Clone, Copy, Debug, PartialEq, Eq, Structural)]
pub enum StartupError {
    /// `--wifi-only` and `--bluetooth-only` were both given.
    ExclusiveFlags,
}

impl StartupError {
    pub open spec fn message_view(self) -> Seq<char> {
        match self {
            StartupError::ExclusiveFlags => "--wifi-only and --bluetooth-only are mutually exclusive"@,
        }
    }

    /// The error message.
    pub fn message(&self) -> (m: String)
        ensures
            m@ == self.message_view(),
            m@ == "--wifi-only and --bluetooth-only are mutually exclusive"@,
    {
        match self {
            StartupError::ExclusiveFlags => String::from_str(
                "--wifi-only and --bluetooth-only are mutually exclusive",
            ),
        }
    }
}

/// What the program does with its command-line flags.
#[derive(Clone, Copy, Debug, PartialEq, Eq, Structural)]
pub enum Startup {
    /// Print the version line and exit.
    PrintVersion,
    /// Open the window with these preferences.
    Launch(UiPrefs),
}

/// `--version` wins over everything; otherwise `--wifi-only` and
/// `--bluetooth-only` exclude each other, each hides the other section,
/// and without either both sections are shown.
pub open spec fn startup_of(version: bool, wifi_only: bool, bluetooth_only: bool) -> Result<Startup, StartupError> {
    if version {
        Ok(Startup::PrintVersion)
    } else if wifi_only && bluetooth_only {
        Err(StartupError::ExclusiveFlags)
    } else if wifi_only {
        Ok(Startup::Launch(UiPrefs { show_wifi: true, show_bluetooth: false }))
    } else if bluetooth_only {
        Ok(Startup::Launch(UiPrefs { show_wifi: false, show_bluetooth: true }))
    } else {
        Ok(Startup::Launch(default_prefs()))
    }
}

/// Decides what to do with the flags `--version`, `--wifi-only` and
/// `--bluetooth-only`.
pub fn startup(version: bool, wifi_only: bool, bluetooth_only: bool) -> (r: Result<Startup, StartupError>)
    ensures
        r == startup_of(version, wifi_only, bluetooth_only),
        version ==> r == Ok::<Startup, StartupError>(Startup::PrintVersion),
        !version && wifi_only && bluetooth_only ==> r == Err::<Startup, StartupError>(
            StartupError::ExclusiveFlags,
        ),
        !version && !(wifi_only && bluetooth_only) ==> r == Ok::<Startup, StartupError>(
            Startup::Launch(UiPrefs { show_wifi: !bluetooth_only, show_bluetooth: !wifi_only }),
        ),
{
    if version {
        Ok(Startup::PrintVersion)
    } else if wifi_only && bluetooth_only {
        Err(StartupError::ExclusiveFlags)
    } else if wifi_only {
        Ok(Startup::Launch(UiPrefs { show_wifi: true, show_bluetooth: false }))
    } else if bluetooth_only {
        Ok(Startup::Launch(UiPrefs { show_wifi: false, show_bluetooth: true }))
    } else {
        Ok(Startup::Launch(UiPrefs { show_wifi: true, show_bluetooth: true }))
    }
}

/// The line `--version` prints: "nmrs <version>-beta (<commit>)".
pub fn version_line(pkg_version: &str, git_hash: &str) -> (s: String)
    ensures
        s@ == "nmrs "@ + pkg_version@ + "-beta ("@ + git_hash@ + ")"@,
{
    let mut s = String::from_str("nmrs ");
    s.append(pkg_version);
    s.append("-beta (");
    s.append(git_hash);
    s.append(")");
    s
}

/// Whatever the flags, a window that opens shows at least one section,
/// and a section is hidden only when the flag for the other one was given.
pub proof fn launch_shows_a_section(version: bool, wifi_only: bool, bluetooth_only: bool)
    ensures
        startup_of(version, wifi_only, bluetooth_only) matches Ok(Startup::Launch(p)) ==> {
            &&& p.show_wifi || p.show_bluetooth
            &&& !p.show_wifi ==> bluetooth_only
            &&& !p.show_bluetooth ==> wifi_only
        },
{
}

/// `--version` prints the version whatever else is given; without it,
/// giving both section flags is refused, and otherwise each section is
/// shown unless the flag for the other one was given.
pub proof fn version_flag_wins(version: bool, wifi_only: bool, bluetooth_only: bool)
    ensures
        version ==> startup_of(version, wifi_only, bluetooth_only) == Ok::<Startup, StartupError>(
            Startup::PrintVersion,
        ),
        !version && wifi_only && bluetooth_only ==> startup_of(version, wifi_only, bluetooth_only)
            == Err::<Startup, StartupError>(StartupError::ExclusiveFlags),
        !version && !(wifi_only && bluetooth_only) ==> startup_of(version, wifi_only, bluetooth_only)
            == Ok::<Startup, StartupError>(
            Startup::Launch(UiPrefs { show_wifi: !bluetooth_only, show_bluetooth: !wifi_only }),
        ),
{
}

} // verus!
