use vstd::prelude::*;

use crate::band::{band_of, frequency_band, Band};
use crate::bluetooth::BluetoothDeviceInfo;
use crate::devices::{is_shown_selection, visible_wired_devices, wired_device_shown, DeviceState, RefreshKind};
use crate::networks::{frequency_band_of, is_display_order, network_display_order, NetworkEntry};
use crate::status::StatusMessage;

verus! {

/// How many times the network list is read while a scan settles.
pub const SETTLE_ROUNDS: u32 = 5;

/// Seconds between two readings while a scan settles.
pub const SETTLE_PAUSE_SECONDS: u32 = 1;

/// Where a refresh of the network list stands: what it waits for.
pub enum Phase {
    /// Waiting for the list of wired devices.
    AwaitWired,
    /// Waiting for the list of Bluetooth devices.
    AwaitBluetooth,
    /// Waiting for the Wi-Fi scan to finish.
    AwaitScan,
    /// Waiting for the count of networks in reading `round` of the settle
    /// loop; `last_len` is the count of the reading before.
    AwaitCount { round: u32, last_len: usize },
    /// Waiting for the pause after reading `round`.
    AwaitPause { round: u32, last_len: usize },
    /// Waiting for the list of networks.
    AwaitNetworks,
    /// Waiting for the current connection; `rows` are the networks to show.
    AwaitConnection { rows: Vec<usize> },
    /// The refresh is over.
    Finished,
}

pub enum PhaseView {
    AwaitWired,
    AwaitBluetooth,
    AwaitScan,
    AwaitCount { round: int, last_len: int },
    AwaitPause { round: int, last_len: int },
    AwaitNetworks,
    AwaitConnection { rows: Seq<usize> },
    Finished,
}

impl View for Phase {
    type V = PhaseView;

    open spec fn view(&self) -> PhaseView {
        match self {
            Phase::AwaitWired => PhaseView::AwaitWired,
            Phase::AwaitBluetooth => PhaseView::AwaitBluetooth,
            Phase::AwaitScan => PhaseView::AwaitScan,
            Phase::AwaitCount { round, last_len } => PhaseView::AwaitCount {
                round: *round as int,
                last_len: *last_len as int,
            },
            Phase::AwaitPause { round, last_len } => PhaseView::AwaitPause {
                round: *round as int,
                last_len: *last_len as int,
            },
            Phase::AwaitNetworks => PhaseView::AwaitNetworks,
            Phase::AwaitConnection { rows } => PhaseView::AwaitConnection { rows: rows@ },
            Phase::Finished => PhaseView::Finished,
        }
    }
}

/// What the outside world answered to the last request.
pub enum Event {
    WiredListed(Result<Vec<DeviceState>, String>),
    BluetoothListed(Result<Vec<BluetoothDeviceInfo>, String>),
    ScanFinished(Result<(), String>),
    /// The number of networks a reading found (a failed reading counts 0).
    NetworksCounted(usize),
    Paused,
    NetworksListed(Result<Vec<NetworkEntry>, String>),
    /// SSID and frequency of the active Wi-Fi connection, if any.
    ConnectionFound(Option<(String, Option<u32>)>),
}

pub enum EventView {
    WiredListed(Result<Seq<DeviceState>, Seq<char>>),
    BluetoothListed(Result<Seq<BluetoothDeviceInfo>, Seq<char>>),
    ScanFinished(Result<(), Seq<char>>),
    NetworksCounted(int),
    Paused,
    NetworksListed(Result<Seq<NetworkEntry>, Seq<char>>),
    ConnectionFound(Option<(Seq<char>, Option<u32>)>),
}

impl View for Event {
    type V = EventView;

    open spec fn view(&self) -> EventView {
        match self {
            Event::WiredListed(r) => EventView::WiredListed(
                match r {
                    Ok(v) => Ok(v@),
                    Err(e) => Err(e@),
                },
            ),
            Event::BluetoothListed(r) => EventView::BluetoothListed(
                match r {
                    Ok(v) => Ok(v@),
                    Err(e) => Err(e@),
                },
            ),
            Event::ScanFinished(r) => EventView::ScanFinished(
                match r {
                    Ok(_) => Ok(()),
                    Err(e) => Err(e@),
                },
            ),
            Event::NetworksCounted(n) => EventView::NetworksCounted(*n as int),
            Event::Paused => EventView::Paused,
            Event::NetworksListed(r) => EventView::NetworksListed(
                match r {
                    Ok(v) => Ok(v@),
                    Err(e) => Err(e@),
                },
            ),
            Event::ConnectionFound(c) => EventView::ConnectionFound(
                match c {
                    Some((ssid, freq)) => Some((ssid@, *freq)),
                    None => None,
                },
            ),
        }
    }
}

/// What the outside world is asked to show or do.
pub enum Effect {
    /// Set the flag that says a refresh runs.
    SetScanning(bool),
    /// Empty the list.
    ClearList,
    SetStatus(StatusMessage),
    /// Report on the error stream that the wired devices could not be listed.
    LogWiredFailure(String),
    /// Report on the error stream that the Bluetooth devices could not be listed.
    LogBluetoothFailure(String),
    /// Show the "Wired" section with these devices (indices into the list).
    ShowWired(Vec<usize>),
    /// Show the "Bluetooth" section with these devices.
    ShowBluetooth(Vec<BluetoothDeviceInfo>),
    /// Show the "Wireless" heading.
    ShowWirelessHeader,
    /// Show the networks (indices into the list), marking the current one.
    ShowNetworks { rows: Vec<usize>, current_ssid: Option<String>, current_band: Option<Band> },
    /// Switch the window to the network list.
    ShowNetworksPage,
}

pub enum EffectView {
    SetScanning(bool),
    ClearList,
    SetStatus(Seq<char>),
    LogWiredFailure(Seq<char>),
    LogBluetoothFailure(Seq<char>),
    ShowWired(Seq<usize>),
    ShowBluetooth(Seq<BluetoothDeviceInfo>),
    ShowWirelessHeader,
    ShowNetworks { rows: Seq<usize>, current_ssid: Option<Seq<char>>, current_band: Option<Band> },
    ShowNetworksPage,
}

impl View for Effect {
    type V = EffectView;

    open spec fn view(&self) -> EffectView {
        match self {
            Effect::SetScanning(b) => EffectView::SetScanning(*b),
            Effect::ClearList => EffectView::ClearList,
            Effect::SetStatus(m) => EffectView::SetStatus(m@),
            Effect::LogWiredFailure(e) => EffectView::LogWiredFailure(e@),
            Effect::LogBluetoothFailure(e) => EffectView::LogBluetoothFailure(e@),
            Effect::ShowWired(v) => EffectView::ShowWired(v@),
            Effect::ShowBluetooth(v) => EffectView::ShowBluetooth(v@),
            Effect::ShowWirelessHeader => EffectView::ShowWirelessHeader,
            Effect::ShowNetworks { rows, current_ssid, current_band } => EffectView::ShowNetworks {
                rows: rows@,
                current_ssid: match current_ssid {
                    Some(s) => Some(s@),
                    None => None,
                },
                current_band: *current_band,
            },
            Effect::ShowNetworksPage => EffectView::ShowNetworksPage,
        }
    }
}

pub open spec fn effects_view(fx: Seq<Effect>) -> Seq<EffectView> {
    fx.map_values(|e: Effect| e@)
}

/// What the refresh asks of the outside world next.
#[derive(Clone, Copy, Debug, PartialEq, Eq, Structural)]
pub enum Request {
    ListWired,
    ListBluetooth,
    Scan,
    CountNetworks,
    /// Wait this many seconds.
    Pause(u32),
    ListNetworks,
    CurrentConnection,
    /// Nothing more: the refresh is over.
    Done,
}

/// The request a refresh in phase `p` has made.
pub open spec fn awaits(p: PhaseView) -> Request {
    match p {
        PhaseView::AwaitWired => Request::ListWired,
        PhaseView::AwaitBluetooth => Request::ListBluetooth,
        PhaseView::AwaitScan => Request::Scan,
        PhaseView::AwaitCount { .. } => Request::CountNetworks,
        PhaseView::AwaitPause { .. } => Request::Pause(SETTLE_PAUSE_SECONDS),
        PhaseView::AwaitNetworks => Request::ListNetworks,
        PhaseView::AwaitConnection { .. } => Request::CurrentConnection,
        PhaseView::Finished => Request::Done,
    }
}

/// How a refresh begins. One asked for while another refresh runs does
/// nothing but, for a scan, say so in the status line. Otherwise it raises
/// the running flag, empties the list, says "Scanning..." for a scan, and
/// asks for the wired devices.
pub open spec fn refresh_begins(kind: RefreshKind, already_scanning: bool, q: PhaseView, fx: Seq<EffectView>) -> bool {
    if already_scanning {
        &&& q == PhaseView::Finished
        &&& fx == (if kind == RefreshKind::Scan {
            seq![EffectView::SetStatus("Scan already in progress"@)]
        } else {
            Seq::<EffectView>::empty()
        })
    } else {
        &&& q == PhaseView::AwaitWired
        &&& fx == seq![EffectView::SetScanning(true), EffectView::ClearList] + (if kind == RefreshKind::Scan {
            seq![EffectView::SetStatus("Scanning..."@)]
        } else {
            Seq::<EffectView>::empty()
        })
    }
}

/// The wired section shows the listed devices, and only when there is one.
pub open spec fn shows_wired_section(kind: RefreshKind, states: Seq<DeviceState>, fx: Seq<EffectView>) -> bool {
    if exists|i: int| 0 <= i < states.len() && wired_device_shown(#[trigger] states[i], kind) {
        &&& fx.len() == 1
        &&& fx[0] matches EffectView::ShowWired(sel)
        &&& is_shown_selection(states, kind, sel)
    } else {
        fx == Seq::<EffectView>::empty()
    }
}

/// Only a refresh with a scan reports failures on the error stream.
pub open spec fn logged(kind: RefreshKind, e: EffectView) -> Seq<EffectView> {
    if kind == RefreshKind::Scan {
        seq![e]
    } else {
        Seq::<EffectView>::empty()
    }
}

/// The band of the current connection, from its frequency.
pub open spec fn connection_band(freq: Option<u32>) -> Option<Band> {
    match freq {
        Some(f) => band_of(f),
        None => None,
    }
}

/// The effects once the current connection is known: for a scan the
/// status line is emptied; the networks are shown with the current one
/// marked, the window switches to them, and the running flag is lowered.
pub open spec fn connection_effects(
    kind: RefreshKind,
    rows: Seq<usize>,
    c: Option<(Seq<char>, Option<u32>)>,
) -> Seq<EffectView> {
    let shown = EffectView::ShowNetworks {
        rows: rows,
        current_ssid: match c {
            Some((s, _)) => Some(s),
            None => None,
        },
        current_band: match c {
            Some((_, f)) => connection_band(f),
            None => None,
        },
    };
    (if kind == RefreshKind::Scan {
        seq![EffectView::SetStatus(""@)]
    } else {
        Seq::<EffectView>::empty()
    }) + seq![shown, EffectView::ShowNetworksPage, EffectView::SetScanning(false)]
}

/// One step of a refresh of kind `kind`: in phase `p`, on answer `e`, it
/// moves to phase `q` and asks for the effects `fx`. An answer that does
/// not fit the phase changes nothing.
pub open spec fn refresh_transition(
    kind: RefreshKind,
    p: PhaseView,
    e: EventView,
    q: PhaseView,
    fx: Seq<EffectView>,
) -> bool {
    let unchanged = q == p && fx == Seq::<EffectView>::empty();
    match p {
        PhaseView::AwaitWired => match e {
            EventView::WiredListed(r) => {
                &&& q == PhaseView::AwaitBluetooth
                &&& match r {
                    Ok(states) => shows_wired_section(kind, states, fx),
                    Err(msg) => fx == logged(kind, EffectView::LogWiredFailure(msg)),
                }
            },
            _ => unchanged,
        },
        PhaseView::AwaitBluetooth => match e {
            EventView::BluetoothListed(r) => {
                &&& q == (if kind == RefreshKind::Scan {
                    PhaseView::AwaitScan
                } else {
                    PhaseView::AwaitNetworks
                })
                &&& fx == (match r {
                    Ok(devs) => if devs.len() > 0 {
                        seq![EffectView::ShowBluetooth(devs)]
                    } else {
                        Seq::<EffectView>::empty()
                    },
                    Err(msg) => logged(kind, EffectView::LogBluetoothFailure(msg)),
                }) + seq![EffectView::ShowWirelessHeader]
            },
            _ => unchanged,
        },
        PhaseView::AwaitScan => match e {
            EventView::ScanFinished(r) => match r {
                Ok(_) => q == (PhaseView::AwaitCount { round: 0, last_len: 0 }) && fx == Seq::<EffectView>::empty(),
                Err(msg) => {
                    &&& q == PhaseView::Finished
                    &&& fx == seq![EffectView::SetStatus("Scan failed: "@ + msg), EffectView::SetScanning(false)]
                },
            },
            _ => unchanged,
        },
        PhaseView::AwaitCount { round, last_len } => match e {
            EventView::NetworksCounted(n) => {
                &&& fx == Seq::<EffectView>::empty()
                &&& q == (if n == last_len && last_len > 0 {
                    PhaseView::AwaitNetworks
                } else {
                    PhaseView::AwaitPause { round, last_len: n }
                })
            },
            _ => unchanged,
        },
        PhaseView::AwaitPause { round, last_len } => match e {
            EventView::Paused => {
                &&& fx == Seq::<EffectView>::empty()
                &&& q == (if round + 1 >= SETTLE_ROUNDS {
                    PhaseView::AwaitNetworks
                } else {
                    PhaseView::AwaitCount { round: round + 1, last_len }
                })
            },
            _ => unchanged,
        },
        PhaseView::AwaitNetworks => match e {
            EventView::NetworksListed(r) => match r {
                Ok(nets) => {
                    &&& fx == Seq::<EffectView>::empty()
                    &&& q matches PhaseView::AwaitConnection { rows }
                    &&& is_display_order(nets, rows)
                },
                Err(msg) => {
                    &&& q == PhaseView::Finished
                    &&& fx == seq![
                        EffectView::SetStatus("Error fetching networks: "@ + msg),
                        EffectView::SetScanning(false),
                    ]
                },
            },
            _ => unchanged,
        },
        PhaseView::AwaitConnection { rows } => match e {
            EventView::ConnectionFound(c) => q == PhaseView::Finished && fx == connection_effects(kind, rows, c),
            _ => unchanged,
        },
        PhaseView::Finished => unchanged,
    }
}

/// What a step asks for: effects to perform, then the next request.
pub struct Step {
    pub effects: Vec<Effect>,
    pub request: Request,
}

/// A refresh of the network list, run one answer at a time.
pub struct Refresh {
    pub kind: RefreshKind,
    pub phase: Phase,
}

impl Refresh {
    /// Begins a refresh of kind `kind`; `already_scanning` is whether
    /// another refresh runs.
    pub fn start(kind: RefreshKind, already_scanning: bool) -> (r: (Refresh, Step))
        ensures
            r.0.kind == kind,
            refresh_begins(kind, already_scanning, r.0.phase@, effects_view(r.1.effects@)),
            r.1.request == awaits(r.0.phase@),
    {
        let mut effects: Vec<Effect> = Vec::new();
        let is_scan = match kind {
            RefreshKind::Scan => true,
            RefreshKind::Live => false,
        };
        if already_scanning {
            if is_scan {
                effects.push(Effect::SetStatus(StatusMessage::ScanInProgress));
            }
            let ghost v = effects_view(effects@);
            assert(v =~= (if kind == RefreshKind::Scan {
                seq![EffectView::SetStatus("Scan already in progress"@)]
            } else {
                Seq::<EffectView>::empty()
            }));
            (Refresh { kind, phase: Phase::Finished }, Step { effects, request: Request::Done })
        } else {
            effects.push(Effect::SetScanning(true));
            effects.push(Effect::ClearList);
            if is_scan {
                effects.push(Effect::SetStatus(StatusMessage::Scanning));
            }
            let ghost v = effects_view(effects@);
            assert(v =~= seq![EffectView::SetScanning(true), EffectView::ClearList] + (if kind
                == RefreshKind::Scan {
                seq![EffectView::SetStatus("Scanning..."@)]
            } else {
                Seq::<EffectView>::empty()
            }));
            (Refresh { kind, phase: Phase::AwaitWired }, Step { effects, request: Request::ListWired })
        }
    }
}

fn wired_section(kind: RefreshKind, states: Vec<DeviceState>) -> (fx: Vec<Effect>)
    ensures
        shows_wired_section(kind, states@, effects_view(fx@)),
{
    let sel = visible_wired_devices(&states, kind);
    let mut fx: Vec<Effect> = Vec::new();
    if sel.len() > 0 {
        proof {
            let i: int = sel@[0] as int;
            assert(wired_device_shown(states@[i], kind));
        }
        fx.push(Effect::ShowWired(sel));
        assert(effects_view(fx@)[0] == EffectView::ShowWired(sel@));
    } else {
        proof {
            if exists|i: int| 0 <= i < states@.len() && wired_device_shown(#[trigger] states@[i], kind) {
                let i: int = choose|i: int| 0 <= i < states@.len() && wired_device_shown(#[trigger] states@[i], kind);
                assert(sel@.contains(i as usize));
            }
        }
        assert(effects_view(fx@) =~= Seq::<EffectView>::empty());
    }
    fx
}

impl Refresh {
    /// Advances the refresh with the answer `event` to its last request.
    pub fn step(self, event: Event) -> (r: (Refresh, Step))
        ensures
            r.0.kind == self.kind,
            refresh_transition(self.kind, self.phase@, event@, r.0.phase@, effects_view(r.1.effects@)),
            r.1.request == awaits(r.0.phase@),
    {
        let kind = self.kind;
        let is_scan = match kind {
            RefreshKind::Scan => true,
            RefreshKind::Live => false,
        };
        let ghost p = self.phase@;
        let ghost e = event@;
        match (self.phase, event) {
            (Phase::AwaitWired, Event::WiredListed(r)) => {
                let effects = match r {
                    Ok(states) => wired_section(kind, states),
                    Err(msg) => {
                        let mut fx: Vec<Effect> = Vec::new();
                        if is_scan {
                            fx.push(Effect::LogWiredFailure(msg));
                        }
                        assert(effects_view(fx@) =~= logged(kind, EffectView::LogWiredFailure(msg@)));
                        fx
                    },
                };
                (Refresh { kind, phase: Phase::AwaitBluetooth }, Step { effects, request: Request::ListBluetooth })
            },
            (Phase::AwaitBluetooth, Event::BluetoothListed(r)) => {
                let mut fx: Vec<Effect> = Vec::new();
                let ghost part: Seq<EffectView>;
                match r {
                    Ok(devs) => {
                        let ghost dv = devs@;
                        if devs.len() > 0 {
                            fx.push(Effect::ShowBluetooth(devs));
                            proof { part = seq![EffectView::ShowBluetooth(dv)]; }
                        } else {
                            proof { part = Seq::<EffectView>::empty(); }
                        }
                    },
                    Err(msg) => {
                        let ghost mv = msg@;
                        if is_scan {
                            fx.push(Effect::LogBluetoothFailure(msg));
                        }
                        proof { part = logged(kind, EffectView::LogBluetoothFailure(mv)); }
                    },
                }
                assert(effects_view(fx@) =~= part);
                fx.push(Effect::ShowWirelessHeader);
                assert(effects_view(fx@) =~= part + seq![EffectView::ShowWirelessHeader]);
                if is_scan {
                    (Refresh { kind, phase: Phase::AwaitScan }, Step { effects: fx, request: Request::Scan })
                } else {
                    (Refresh { kind, phase: Phase::AwaitNetworks }, Step { effects: fx, request: Request::ListNetworks })
                }
            },
            (Phase::AwaitScan, Event::ScanFinished(r)) => {
                match r {
                    Ok(_) => {
                        let fx: Vec<Effect> = Vec::new();
                        assert(effects_view(fx@) =~= Seq::<EffectView>::empty());
                        (
                            Refresh { kind, phase: Phase::AwaitCount { round: 0, last_len: 0 } },
                            Step { effects: fx, request: Request::CountNetworks },
                        )
                    },
                    Err(msg) => {
                        let mut fx: Vec<Effect> = Vec::new();
                        fx.push(Effect::SetStatus(StatusMessage::ScanFailed(msg)));
                        fx.push(Effect::SetScanning(false));
                        assert(effects_view(fx@) =~= seq![
                            EffectView::SetStatus("Scan failed: "@ + msg@),
                            EffectView::SetScanning(false),
                        ]);
                        (Refresh { kind, phase: Phase::Finished }, Step { effects: fx, request: Request::Done })
                    },
                }
            },
            (Phase::AwaitCount { round, last_len }, Event::NetworksCounted(n)) => {
                let fx: Vec<Effect> = Vec::new();
                assert(effects_view(fx@) =~= Seq::<EffectView>::empty());
                if n == last_len && last_len > 0 {
                    (Refresh { kind, phase: Phase::AwaitNetworks }, Step { effects: fx, request: Request::ListNetworks })
                } else {
                    (
                        Refresh { kind, phase: Phase::AwaitPause { round, last_len: n } },
                        Step { effects: fx, request: Request::Pause(SETTLE_PAUSE_SECONDS) },
                    )
                }
            },
            (Phase::AwaitPause { round, last_len }, Event::Paused) => {
                let fx: Vec<Effect> = Vec::new();
                assert(effects_view(fx@) =~= Seq::<EffectView>::empty());
                if round >= SETTLE_ROUNDS - 1 {
                    (Refresh { kind, phase: Phase::AwaitNetworks }, Step { effects: fx, request: Request::ListNetworks })
                } else {
                    (
                        Refresh { kind, phase: Phase::AwaitCount { round: round + 1, last_len } },
                        Step { effects: fx, request: Request::CountNetworks },
                    )
                }
            },
            (Phase::AwaitNetworks, Event::NetworksListed(r)) => {
                match r {
                    Ok(nets) => {
                        let rows = network_display_order(&nets);
                        let fx: Vec<Effect> = Vec::new();
                        assert(effects_view(fx@) =~= Seq::<EffectView>::empty());
                        (
                            Refresh { kind, phase: Phase::AwaitConnection { rows } },
                            Step { effects: fx, request: Request::CurrentConnection },
                        )
                    },
                    Err(msg) => {
                        let mut fx: Vec<Effect> = Vec::new();
                        fx.push(Effect::SetStatus(StatusMessage::FetchFailed(msg)));
                        fx.push(Effect::SetScanning(false));
                        assert(effects_view(fx@) =~= seq![
                            EffectView::SetStatus("Error fetching networks: "@ + msg@),
                            EffectView::SetScanning(false),
                        ]);
                        (Refresh { kind, phase: Phase::Finished }, Step { effects: fx, request: Request::Done })
                    },
                }
            },
            (Phase::AwaitConnection { rows }, Event::ConnectionFound(c)) => {
                let mut fx: Vec<Effect> = Vec::new();
                if is_scan {
                    fx.push(Effect::SetStatus(StatusMessage::Cleared));
                }
                let ghost first = effects_view(fx@);
                let ghost rv = rows@;
                let (current_ssid, current_band) = match c {
                    Some((ssid, freq)) => {
                        let band = match freq {
                            Some(f) => frequency_band(f),
                            None => None,
                        };
                        (Some(ssid), band)
                    },
                    None => (None, None),
                };
                let ghost shown = EffectView::ShowNetworks {
                    rows: rv,
                    current_ssid: match &current_ssid {
                        Some(s) => Some(s@),
                        None => None,
                    },
                    current_band,
                };
                fx.push(Effect::ShowNetworks { rows, current_ssid, current_band });
                fx.push(Effect::ShowNetworksPage);
                fx.push(Effect::SetScanning(false));
                assert(effects_view(fx@) =~= first + seq![
                    shown,
                    EffectView::ShowNetworksPage,
                    EffectView::SetScanning(false),
                ]);
                proof {
                    if let EventView::ConnectionFound(cv) = e {
                        assert(effects_view(fx@) == connection_effects(kind, rv, cv));
                    }
                }
                (Refresh { kind, phase: Phase::Finished }, Step { effects: fx, request: Request::Done })
            },
            (phase, _) => {
                let fx: Vec<Effect> = Vec::new();
                assert(effects_view(fx@) =~= Seq::<EffectView>::empty());
                let request = match &phase {
                    Phase::AwaitWired => Request::ListWired,
                    Phase::AwaitBluetooth => Request::ListBluetooth,
                    Phase::AwaitScan => Request::Scan,
                    Phase::AwaitCount { .. } => Request::CountNetworks,
                    Phase::AwaitPause { .. } => Request::Pause(SETTLE_PAUSE_SECONDS),
                    Phase::AwaitNetworks => Request::ListNetworks,
                    Phase::AwaitConnection { .. } => Request::CurrentConnection,
                    Phase::Finished => Request::Done,
                };
                (Refresh { kind, phase }, Step { effects: fx, request })
            },
        }
    }
}

/// A phase a refresh can be in: the settle loop counts its readings
/// from 0 up to `SETTLE_ROUNDS - 1`.
pub open spec fn phase_well_formed(p: PhaseView) -> bool {
    match p {
        PhaseView::AwaitCount { round, .. } => 0 <= round < SETTLE_ROUNDS,
        PhaseView::AwaitPause { round, .. } => 0 <= round < SETTLE_ROUNDS,
        _ => true,
    }
}

/// An upper bound on the answers a refresh in phase `p` still takes.
pub open spec fn answers_left(p: PhaseView) -> int {
    match p {
        PhaseView::AwaitWired => 15,
        PhaseView::AwaitBluetooth => 14,
        PhaseView::AwaitScan => 13,
        PhaseView::AwaitCount { round, .. } => 4 + 2 * (SETTLE_ROUNDS - 1 - round),
        PhaseView::AwaitPause { round, .. } => 3 + 2 * (SETTLE_ROUNDS - 1 - round),
        PhaseView::AwaitNetworks => 2,
        PhaseView::AwaitConnection { .. } => 1,
        PhaseView::Finished => 0,
    }
}

/// A refresh ends: every answer that fits its phase brings it strictly
/// closer to the end, so however the answers come (the settle loop reads
/// the networks at most `SETTLE_ROUNDS` times) it is over after at most
/// `answers_left` of them.
pub proof fn refresh_always_ends(kind: RefreshKind, p: PhaseView, e: EventView, q: PhaseView, fx: Seq<EffectView>)
    requires
        phase_well_formed(p),
        refresh_transition(kind, p, e, q, fx),
    ensures
        phase_well_formed(q),
        q == p || answers_left(q) < answers_left(p),
        answers_left(q) >= 0,
        answers_left(q) == 0 <==> q == PhaseView::Finished,
{
}

/// A refresh that begins is in a phase a refresh can be in.
pub proof fn refresh_begins_well_formed(kind: RefreshKind, already_scanning: bool, q: PhaseView, fx: Seq<EffectView>)
    requires
        refresh_begins(kind, already_scanning, q, fx),
    ensures
        phase_well_formed(q),
        answers_left(q) <= answers_left(PhaseView::AwaitWired),
{
}

/// The running flag: a refresh raises it when it begins, unless another
/// refresh runs, in which case it touches nothing of the flag and is over
/// at once; after that no step raises it, and the step that ends the
/// refresh lowers it, as its last effect, while no other step does.
pub proof fn running_flag_held_until_the_end(
    kind: RefreshKind,
    already_scanning: bool,
    q0: PhaseView,
    fx0: Seq<EffectView>,
    p: PhaseView,
    e: EventView,
    q: PhaseView,
    fx: Seq<EffectView>,
)
    requires
        refresh_begins(kind, already_scanning, q0, fx0),
        refresh_transition(kind, p, e, q, fx),
    ensures
        fx0.contains(EffectView::SetScanning(true)) <==> !already_scanning,
        !fx0.contains(EffectView::SetScanning(false)),
        already_scanning ==> q0 == PhaseView::Finished,
        !fx.contains(EffectView::SetScanning(true)),
        fx.contains(EffectView::SetScanning(false)) <==> (p != PhaseView::Finished && q == PhaseView::Finished),
        fx.contains(EffectView::SetScanning(false)) ==> fx.last() == EffectView::SetScanning(false),
{
    if already_scanning {
        if kind == RefreshKind::Scan {
            assert(fx0[0] == EffectView::SetStatus("Scan already in progress"@));
        }
    } else {
        assert(fx0[0] == EffectView::SetScanning(true));
        if kind == RefreshKind::Scan {
            assert(fx0[2] == EffectView::SetStatus("Scanning..."@));
        }
    }
    assert(!fx0.contains(EffectView::SetScanning(false)));
    assert(!fx.contains(EffectView::SetScanning(true)));
    assert(fx.contains(EffectView::SetScanning(false)) <==> (p != PhaseView::Finished && q
        == PhaseView::Finished));
}

/// A live update never asks for a Wi-Fi scan, and one asked for while a
/// refresh runs does nothing at all.
pub proof fn live_update_never_scans(
    already_scanning: bool,
    q0: PhaseView,
    fx0: Seq<EffectView>,
    p: PhaseView,
    e: EventView,
    q: PhaseView,
    fx: Seq<EffectView>,
)
    requires
        refresh_begins(RefreshKind::Live, already_scanning, q0, fx0),
        p != PhaseView::AwaitScan,
        refresh_transition(RefreshKind::Live, p, e, q, fx),
    ensures
        awaits(q0) != Request::Scan,
        already_scanning ==> fx0 == Seq::<EffectView>::empty(),
        q != PhaseView::AwaitScan,
        awaits(q) != Request::Scan,
{
}

/// Whether it scans or not, a refresh shows the Bluetooth section with
/// exactly the devices listed, and only when there is one, right before
/// the "Wireless" heading; a failed listing is logged by a scan refresh
/// only. A scan refresh then scans; a live update goes on to the networks.
pub proof fn bluetooth_section_in_both_kinds(
    kind: RefreshKind,
    r: Result<Seq<BluetoothDeviceInfo>, Seq<char>>,
    q: PhaseView,
    fx: Seq<EffectView>,
)
    requires
        refresh_transition(kind, PhaseView::AwaitBluetooth, EventView::BluetoothListed(r), q, fx),
    ensures
        r is Ok && r->Ok_0.len() > 0 ==> fx == seq![
            EffectView::ShowBluetooth(r->Ok_0),
            EffectView::ShowWirelessHeader,
        ],
        r is Ok && r->Ok_0.len() == 0 ==> fx == seq![EffectView::ShowWirelessHeader],
        r is Err && kind == RefreshKind::Scan ==> fx == seq![
            EffectView::LogBluetoothFailure(r->Err_0),
            EffectView::ShowWirelessHeader,
        ],
        r is Err && kind == RefreshKind::Live ==> fx == seq![EffectView::ShowWirelessHeader],
        kind == RefreshKind::Scan ==> q == PhaseView::AwaitScan,
        kind == RefreshKind::Live ==> q == PhaseView::AwaitNetworks,
{
    match r {
        Ok(devs) => {
            if devs.len() > 0 {
                assert(fx =~= seq![EffectView::ShowBluetooth(devs), EffectView::ShowWirelessHeader]);
            } else {
                assert(fx =~= seq![EffectView::ShowWirelessHeader]);
            }
        },
        Err(msg) => {
            if kind == RefreshKind::Scan {
                assert(fx =~= seq![EffectView::LogBluetoothFailure(msg), EffectView::ShowWirelessHeader]);
            } else {
                assert(fx =~= seq![EffectView::ShowWirelessHeader]);
            }
        },
    }
}

/// Whether it scans or not, a refresh shows the "Wired" section with the
/// listed wired devices that are activated, disconnected, preparing or
/// configuring (a live update also with the unmanaged ones), in the order
/// listed, and shows no section when there is none.
pub proof fn wired_section_in_both_kinds(
    kind: RefreshKind,
    states: Seq<DeviceState>,
    q: PhaseView,
    fx: Seq<EffectView>,
)
    requires
        states.len() <= usize::MAX,
        refresh_transition(kind, PhaseView::AwaitWired, EventView::WiredListed(Ok(states)), q, fx),
    ensures
        q == PhaseView::AwaitBluetooth,
        fx.len() <= 1,
        fx.len() == 1 ==> (fx[0] matches EffectView::ShowWired(sel) && (forall|i: int|
            0 <= i < states.len() ==> (sel.contains(i as usize) <==> (states[i] == DeviceState::Activated
                || states[i] == DeviceState::Disconnected || states[i] == DeviceState::Prepare
                || states[i] == DeviceState::Config || (kind == RefreshKind::Live && states[i]
                == DeviceState::Unmanaged))))),
        fx.len() == 0 <==> forall|i: int|
            0 <= i < states.len() ==> !(states[i] == DeviceState::Activated || states[i]
                == DeviceState::Disconnected || states[i] == DeviceState::Prepare || states[i]
                == DeviceState::Config || (kind == RefreshKind::Live && states[i] == DeviceState::Unmanaged)),
{
    if fx.len() == 1 {
        if let EffectView::ShowWired(sel) = fx[0] {
            assert forall|i: int| 0 <= i < states.len() implies (sel.contains(i as usize) <==> (states[i]
                == DeviceState::Activated || states[i] == DeviceState::Disconnected || states[i]
                == DeviceState::Prepare || states[i] == DeviceState::Config || (kind == RefreshKind::Live
                && states[i] == DeviceState::Unmanaged))) by {
                if sel.contains(i as usize) {
                    let a: int = choose|a: int| 0 <= a < sel.len() && sel[a] == i as usize;
                    assert(wired_device_shown(states[sel[a] as int], kind));
                } else {
                    assert(!wired_device_shown(states[i], kind));
                }
            }
        }
        let i: int = choose|i: int| 0 <= i < states.len() && wired_device_shown(#[trigger] states[i], kind);
        assert(wired_device_shown(states[i], kind));
    } else {
        assert forall|i: int| 0 <= i < states.len() implies !(states[i] == DeviceState::Activated
            || states[i] == DeviceState::Disconnected || states[i] == DeviceState::Prepare || states[i]
            == DeviceState::Config || (kind == RefreshKind::Live && states[i] == DeviceState::Unmanaged)) by {
            assert(!wired_device_shown(states[i], kind));
        }
    }
}

/// A scan refresh asked for while another refresh runs only says "Scan
/// already in progress"; a live update then does nothing. Otherwise a
/// refresh raises the running flag, empties the list and, when it scans,
/// says "Scanning...", and goes on to the wired devices.
pub proof fn how_a_refresh_begins(kind: RefreshKind, already_scanning: bool, q: PhaseView, fx: Seq<EffectView>)
    requires
        refresh_begins(kind, already_scanning, q, fx),
    ensures
        already_scanning ==> q == PhaseView::Finished,
        already_scanning && kind == RefreshKind::Scan ==> fx == seq![
            EffectView::SetStatus("Scan already in progress"@),
        ],
        already_scanning && kind == RefreshKind::Live ==> fx.len() == 0,
        !already_scanning ==> q == PhaseView::AwaitWired && fx[0] == EffectView::SetScanning(true)
            && fx[1] == EffectView::ClearList,
        !already_scanning && kind == RefreshKind::Scan ==> fx.len() == 3 && fx[2]
            == EffectView::SetStatus("Scanning..."@),
        !already_scanning && kind == RefreshKind::Live ==> fx.len() == 2,
{
}

/// After the scan, the network list is read until two readings in a row
/// give the same number of networks, not zero, or five readings were
/// taken, with a one-second pause after each reading that does not end the
/// loop. A failed scan ends the refresh with "Scan failed: <reason>" and
/// the running flag lowered.
pub proof fn scan_settles_before_listing(
    kind: RefreshKind,
    p: PhaseView,
    e: EventView,
    q: PhaseView,
    fx: Seq<EffectView>,
)
    requires
        refresh_transition(kind, p, e, q, fx),
    ensures
        match p {
            PhaseView::AwaitScan => match e {
                EventView::ScanFinished(Ok(_)) => fx.len() == 0 && q == (PhaseView::AwaitCount {
                    round: 0,
                    last_len: 0,
                }),
                EventView::ScanFinished(Err(msg)) => q == PhaseView::Finished && fx == seq![
                    EffectView::SetStatus("Scan failed: "@ + msg),
                    EffectView::SetScanning(false),
                ],
                _ => true,
            },
            PhaseView::AwaitCount { round, last_len } => match e {
                EventView::NetworksCounted(n) => fx.len() == 0 && (if n == last_len && last_len > 0 {
                    q == PhaseView::AwaitNetworks
                } else {
                    q == (PhaseView::AwaitPause { round, last_len: n })
                }),
                _ => true,
            },
            PhaseView::AwaitPause { round, last_len } => match e {
                EventView::Paused => fx.len() == 0 && (if round + 1 >= 5 {
                    q == PhaseView::AwaitNetworks
                } else {
                    q == (PhaseView::AwaitCount { round: round + 1, last_len })
                }),
                _ => true,
            },
            _ => true,
        },
        awaits(PhaseView::AwaitPause { round: 0, last_len: 0 }) == Request::Pause(1),
{
}

/// Reading the networks fails with "Error fetching networks: <reason>" and
/// the running flag lowered, for either kind; read, they are ranked and
/// the current connection is asked for. Once it is known, a scan refresh
/// empties the status line; both kinds then show the ranked networks with
/// the current one marked by its SSID and the band of its frequency, show
/// the list, and lower the running flag.
pub proof fn networks_shown_with_current_connection(
    kind: RefreshKind,
    p: PhaseView,
    e: EventView,
    q: PhaseView,
    fx: Seq<EffectView>,
)
    requires
        refresh_transition(kind, p, e, q, fx),
    ensures
        match p {
            PhaseView::AwaitNetworks => match e {
                EventView::NetworksListed(Err(msg)) => q == PhaseView::Finished && fx == seq![
                    EffectView::SetStatus("Error fetching networks: "@ + msg),
                    EffectView::SetScanning(false),
                ],
                EventView::NetworksListed(Ok(nets)) => fx.len() == 0 && (q matches PhaseView::AwaitConnection {
                    rows,
                } && is_display_order(nets, rows)),
                _ => true,
            },
            _ => true,
        },
        p matches PhaseView::AwaitConnection { rows } ==> (e matches EventView::ConnectionFound(c) ==> {
            let tail = if kind == RefreshKind::Scan {
                fx.drop_first()
            } else {
                fx
            };
            &&& q == PhaseView::Finished
            &&& kind == RefreshKind::Scan ==> fx.len() == 4 && fx[0] == EffectView::SetStatus(""@)
            &&& kind == RefreshKind::Live ==> fx.len() == 3
            &&& tail[0] == EffectView::ShowNetworks {
                rows,
                current_ssid: match c {
                    Some((s, _)) => Some(s),
                    None => None,
                },
                current_band: match c {
                    Some((_, f)) => frequency_band_of(f),
                    None => None,
                },
            }
            &&& tail[1] == EffectView::ShowNetworksPage
            &&& tail[2] == EffectView::SetScanning(false)
        }),
{
    if let PhaseView::AwaitConnection { rows } = p {
        if let EventView::ConnectionFound(c) = e {
            if let Some((_, Some(f))) = c {
                crate::band::bands_are_whole_ranges(f);
            }
        }
    }
}

} // verus!
