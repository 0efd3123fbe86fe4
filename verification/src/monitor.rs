use vstd::prelude::*;

verus! {

/// Seconds before a monitor whose stream of changes broke is started again.
pub const MONITOR_RESTART_SECONDS: u32 = 5;

/// The two streams of changes the window follows.
#[derive(Clone, Copy, Debug, PartialEq, Eq, Structural)]
pub enum MonitorKind {
    /// Devices appearing, disappearing or changing state.
    Devices,
    /// Access points appearing or disappearing.
    Networks,
}

impl MonitorKind {
    pub open spec fn settle_seconds_of(self) -> u32 {
        match self {
            MonitorKind::Devices => 3,
            MonitorKind::Networks => 8,
        }
    }

    /// Seconds a burst of changes is given to settle before the list is
    /// refreshed: 3 for devices, 8 for access points.
    pub fn settle_seconds(&self) -> (s: u32)
        ensures
            s == self.settle_seconds_of(),
            *self == MonitorKind::Devices ==> s == 3,
            *self == MonitorKind::Networks ==> s == 8,
    {
        match self {
            MonitorKind::Devices => 3,
            MonitorKind::Networks => 8,
        }
    }
}

/// Whether the page shown is the network list.
pub open spec fn on_networks_page(visible_page: Option<Seq<char>>) -> bool {
    visible_page == Some("networks"@)
}

/// Whether the page shown, by name, is the network list.
pub fn is_networks_page(visible_page: Option<&str>) -> (on: bool)
    ensures
        on == on_networks_page(
            match visible_page {
                Some(p) => Some(p@),
                None => None,
            },
        ),
        on <==> (visible_page matches Some(p) && p@ == "networks"@),
{
    match visible_page {
        Some(p) => {
            let page = String::from_str(p);
            let networks = String::from_str("networks");
            page == networks
        },
        None => false,
    }
}

/// Turns a burst of change notices into one live update: the first notice
/// starts a settle timer, later ones are absorbed until it fires.
pub struct Debounce {
    /// A settle timer runs.
    pub pending: bool,
}

/// Whether a change notice starts a settle timer.
pub open spec fn change_starts_timer(pending: bool) -> bool {
    !pending
}

/// Whether a timer runs after a change notice.
pub open spec fn pending_after_change(pending: bool) -> bool {
    true
}

impl Debounce {
    /// No timer runs.
    pub fn new() -> (d: Debounce)
        ensures
            !d.pending,
    {
        Debounce { pending: false }
    }

    /// A change notice: returns whether to start the settle timer.
    pub fn on_change(&mut self) -> (start_timer: bool)
        ensures
            start_timer == change_starts_timer(old(self).pending),
            final(self).pending == pending_after_change(old(self).pending),
            start_timer == !old(self).pending,
            final(self).pending,
    {
        if self.pending {
            false
        } else {
            self.pending = true;
            true
        }
    }

    /// The settle timer fired: returns whether to refresh the list live,
    /// which it does only when no refresh runs and the network list is the
    /// page shown.
    pub fn on_settled(&mut self, is_scanning: bool, visible_page: Option<&str>) -> (refresh: bool)
        ensures
            !final(self).pending,
            refresh <==> !is_scanning && (visible_page matches Some(p) && p@ == "networks"@),
            refresh == (!is_scanning && on_networks_page(
                match visible_page {
                    Some(p) => Some(p@),
                    None => None,
                },
            )),
    {
        self.pending = false;
        !is_scanning && is_networks_page(visible_page)
    }
}

/// However many change notices arrive before the settle timer fires, only
/// the first starts a timer.
pub proof fn burst_starts_one_timer(pending: bool)
    ensures
        !change_starts_timer(pending_after_change(pending)),
        change_starts_timer(pending) <==> !pending,
{
}

} // verus!
