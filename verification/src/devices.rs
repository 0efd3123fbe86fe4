use vstd::prelude::*;

verus! {

/// The state NetworkManager reports for a device.
#[derive(Clone, Copy, Debug, PartialEq, Eq, Structural)]
pub enum DeviceState {
    Unmanaged,
    Unavailable,
    Disconnected,
    Prepare,
    Config,
    NeedAuth,
    IpConfig,
    IpCheck,
    Secondaries,
    Activated,
    Deactivating,
    Failed,
    Other(u32),
}

/// The two ways the network list is refreshed: after a fresh Wi-Fi scan
/// (the refresh button, start-up, Wi-Fi switched on), or as a live update
/// without a scan when a device or access point changes.
#[derive(Clone, Copy, Debug, PartialEq, Eq, Structural)]
pub enum RefreshKind {
    Scan,
    Live,
}

/// Whether a wired device in `state` is listed. Both kinds of refresh list
/// activated, disconnected, preparing and configuring devices; a live
/// update also lists unmanaged ones.
pub open spec fn wired_device_shown(state: DeviceState, kind: RefreshKind) -> bool {
    match state {
        DeviceState::Activated | DeviceState::Disconnected | DeviceState::Prepare
        | DeviceState::Config => true,
        DeviceState::Unmanaged => kind == RefreshKind::Live,
        _ => false,
    }
}

/// Whether a wired device in `state` is listed.
pub fn is_wired_device_shown(state: DeviceState, kind: RefreshKind) -> (shown: bool)
    ensures
        shown == wired_device_shown(state, kind),
{
    match state {
        DeviceState::Activated | DeviceState::Disconnected | DeviceState::Prepare
        | DeviceState::Config => true,
        DeviceState::Unmanaged => match kind {
            RefreshKind::Live => true,
            RefreshKind::Scan => false,
        },
        _ => false,
    }
}

/// `shown` holds, in increasing order, exactly the indices of the devices
/// of `states` that are listed.
pub open spec fn is_shown_selection(states: Seq<DeviceState>, kind: RefreshKind, shown: Seq<usize>) -> bool {
    &&& forall|a: int, b: int| 0 <= a < b < shown.len() ==> #[trigger] shown[a] < #[trigger] shown[b]
    &&& forall|a: int|
        0 <= a < shown.len() ==> #[trigger] shown[a] < states.len() && wired_device_shown(
            states[shown[a] as int],
            kind,
        )
    &&& forall|i: int|
        0 <= i < states.len() && wired_device_shown(#[trigger] states[i], kind) ==> shown.contains(
            i as usize,
        )
}

/// The wired devices that are listed, as indices into `states`, in the
/// order they were reported.
pub fn visible_wired_devices(states: &Vec<DeviceState>, kind: RefreshKind) -> (shown: Vec<usize>)
    ensures
        is_shown_selection(states@, kind, shown@),
{
    let mut shown: Vec<usize> = Vec::new();
    let mut i: usize = 0;
    while i < states.len()
        invariant
            i <= states.len(),
            forall|a: int, b: int| 0 <= a < b < shown.len() ==> #[trigger] shown[a] < #[trigger] shown[b],
            forall|a: int|
                0 <= a < shown.len() ==> #[trigger] shown[a] < i && wired_device_shown(
                    states[shown[a] as int],
                    kind,
                ),
            forall|j: int|
                0 <= j < i && wired_device_shown(#[trigger] states[j], kind) ==> shown@.contains(
                    j as usize,
                ),
        decreases states.len() - i,
    {
        if is_wired_device_shown(states[i], kind) {
            let ghost old_shown = shown@;
            shown.push(i);
            proof {
                assert forall|j: int|
                    0 <= j < i + 1 && wired_device_shown(#[trigger] states[j], kind) implies shown@.contains(
                        j as usize,
                    ) by {
                    if j == i {
                        assert(shown[shown.len() - 1] == j as usize);
                    } else {
                        let k: int = choose|k: int| 0 <= k < old_shown.len() && old_shown[k] == j as usize;
                        assert(shown[k] == j as usize);
                    }
                }
            }
        }
        i = i + 1;
    }
    shown
}

/// A live update lists every wired device a scan refresh lists, and
/// besides those only unmanaged devices.
pub proof fn live_update_lists_more_devices(state: DeviceState)
    ensures
        wired_device_shown(state, RefreshKind::Scan) ==> wired_device_shown(state, RefreshKind::Live),
        wired_device_shown(state, RefreshKind::Live) && !wired_device_shown(state, RefreshKind::Scan)
            <==> state == DeviceState::Unmanaged,
{
}

/// Two increasing index lists with the same indices are the same list.
proof fn lemma_increasing_same_indices(s1: Seq<usize>, s2: Seq<usize>)
    requires
        forall|a: int, b: int| 0 <= a < b < s1.len() ==> #[trigger] s1[a] < #[trigger] s1[b],
        forall|a: int, b: int| 0 <= a < b < s2.len() ==> #[trigger] s2[a] < #[trigger] s2[b],
        forall|x: usize| s1.contains(x) <==> s2.contains(x),
    ensures
        s1 == s2,
    decreases s1.len(),
{
    if s1.len() == 0 {
        if s2.len() > 0 {
            assert(s2.contains(s2[0]));
        }
        assert(s1 =~= s2);
    } else {
        assert(s1.contains(s1[0]));
        assert(s2.contains(s2[0]));
        let c: int = choose|c: int| 0 <= c < s2.len() && s2[c] == s1[0];
        let d: int = choose|d: int| 0 <= d < s1.len() && s1[d] == s2[0];
        if c > 0 {
            assert(s2[0] < s2[c]);
        }
        if d > 0 {
            assert(s1[0] < s1[d]);
        }
        assert(s1[0] == s2[0]);
        let t1 = s1.drop_first();
        let t2 = s2.drop_first();
        assert forall|x: usize| t1.contains(x) implies t2.contains(x) by {
            let k: int = choose|k: int| 0 <= k < t1.len() && t1[k] == x;
            assert(s1[k + 1] == x && s1[0] < s1[k + 1]);
            assert(s2.contains(x));
            let m: int = choose|m: int| 0 <= m < s2.len() && s2[m] == x;
            assert(t2[m - 1] == x);
        }
        assert forall|x: usize| t2.contains(x) implies t1.contains(x) by {
            let k: int = choose|k: int| 0 <= k < t2.len() && t2[k] == x;
            assert(s2[k + 1] == x && s2[0] < s2[k + 1]);
            assert(s1.contains(x));
            let m: int = choose|m: int| 0 <= m < s1.len() && s1[m] == x;
            assert(t1[m - 1] == x);
        }
        assert forall|a: int, b: int| 0 <= a < b < t1.len() implies #[trigger] t1[a] < #[trigger] t1[b] by {
            assert(t1[a] == s1[a + 1] && t1[b] == s1[b + 1]);
        }
        assert forall|a: int, b: int| 0 <= a < b < t2.len() implies #[trigger] t2[a] < #[trigger] t2[b] by {
            assert(t2[a] == s2[a + 1] && t2[b] == s2[b + 1]);
        }
        lemma_increasing_same_indices(t1, t2);
        assert(s1 =~= seq![s1[0]] + t1);
        assert(s2 =~= seq![s2[0]] + t2);
    }
}

/// The contract of `visible_wired_devices` fixes the list: two lists that
/// both meet it are the same.
pub proof fn shown_selection_is_unique(states: Seq<DeviceState>, kind: RefreshKind, s1: Seq<usize>, s2: Seq<usize>)
    requires
        states.len() <= usize::MAX,
        is_shown_selection(states, kind, s1),
        is_shown_selection(states, kind, s2),
    ensures
        s1 == s2,
{
    assert forall|x: usize| s1.contains(x) <==> s2.contains(x) by {
        if s1.contains(x) {
            let a: int = choose|a: int| 0 <= a < s1.len() && s1[a] == x;
            assert(wired_device_shown(states[x as int], kind));
        }
        if s2.contains(x) {
            let a: int = choose|a: int| 0 <= a < s2.len() && s2[a] == x;
            assert(wired_device_shown(states[x as int], kind));
        }
    }
    lemma_increasing_same_indices(s1, s2);
}

} // verus!
