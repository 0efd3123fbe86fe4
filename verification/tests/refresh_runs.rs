use nmrs_gui::{
    Band, BluetoothDeviceInfo, DeviceState, Effect, Event, NetworkEntry, Phase, Refresh,
    RefreshKind, Request, SETTLE_ROUNDS,
};

fn status_of(e: &Effect) -> Option<String> {
    match e {
        Effect::SetStatus(m) => Some(m.text()),
        _ => None,
    }
}

fn net(ssid: &str, strength: u8, freq: u32) -> NetworkEntry {
    NetworkEntry { ssid: ssid.to_string(), strength: Some(strength), frequency: Some(freq) }
}

#[test]
fn refused_while_scanning() {
    let (r, s) = Refresh::start(RefreshKind::Scan, true);
    assert!(matches!(r.phase, Phase::Finished));
    assert_eq!(s.request, Request::Done);
    assert_eq!(s.effects.len(), 1);
    assert_eq!(status_of(&s.effects[0]).unwrap(), "Scan already in progress");

    let (r, s) = Refresh::start(RefreshKind::Live, true);
    assert!(matches!(r.phase, Phase::Finished));
    assert!(s.effects.is_empty());
}

#[test]
fn full_scan_refresh() {
    let (r, s) = Refresh::start(RefreshKind::Scan, false);
    assert_eq!(s.request, Request::ListWired);
    assert!(matches!(s.effects[0], Effect::SetScanning(true)));
    assert!(matches!(s.effects[1], Effect::ClearList));
    assert_eq!(status_of(&s.effects[2]).unwrap(), "Scanning...");

    let (r, s) = r.step(Event::WiredListed(Ok(vec![DeviceState::Unavailable, DeviceState::Activated])));
    assert_eq!(s.request, Request::ListBluetooth);
    match &s.effects[..] {
        [Effect::ShowWired(sel)] => assert_eq!(sel, &vec![1]),
        _ => panic!("expected the wired section"),
    }

    let (r, s) = r.step(Event::BluetoothListed(Ok(vec![BluetoothDeviceInfo {
        bdaddr: "AA".to_string(),
        name: None,
        alias: None,
        state: DeviceState::Disconnected,
    }])));
    assert_eq!(s.request, Request::Scan);
    assert!(matches!(s.effects[0], Effect::ShowBluetooth(ref d) if d.len() == 1));
    assert!(matches!(s.effects[1], Effect::ShowWirelessHeader));

    let (r, s) = r.step(Event::ScanFinished(Ok(())));
    assert_eq!(s.request, Request::CountNetworks);
    // first reading: 3 networks, then the same count again settles the scan
    let (r, s) = r.step(Event::NetworksCounted(3));
    assert_eq!(s.request, Request::Pause(1));
    let (r, s) = r.step(Event::Paused);
    assert_eq!(s.request, Request::CountNetworks);
    let (r, s) = r.step(Event::NetworksCounted(3));
    assert_eq!(s.request, Request::ListNetworks);
    assert!(s.effects.is_empty());

    let nets = vec![net("a", 20, 2412), net("b", 90, 5180), net("a", 50, 2437)];
    let (r, s) = r.step(Event::NetworksListed(Ok(nets)));
    assert_eq!(s.request, Request::CurrentConnection);
    let (r, s) = r.step(Event::ConnectionFound(Some(("b".to_string(), Some(5180)))));
    assert!(matches!(r.phase, Phase::Finished));
    assert_eq!(s.request, Request::Done);
    assert_eq!(status_of(&s.effects[0]).unwrap(), "");
    match &s.effects[1] {
        Effect::ShowNetworks { rows, current_ssid, current_band } => {
            assert_eq!(rows, &vec![1, 2]);
            assert_eq!(current_ssid.as_deref(), Some("b"));
            assert_eq!(*current_band, Some(Band::Ghz5));
        }
        _ => panic!("expected the networks"),
    }
    assert!(matches!(s.effects[2], Effect::ShowNetworksPage));
    assert!(matches!(s.effects[3], Effect::SetScanning(false)));
    assert_eq!(s.effects.len(), 4);
}

#[test]
fn settle_loop_reads_at_most_five_times() {
    let (r, _) = Refresh::start(RefreshKind::Scan, false);
    let (r, _) = r.step(Event::WiredListed(Ok(vec![])));
    let (r, _) = r.step(Event::BluetoothListed(Ok(vec![])));
    let (mut r, mut s) = r.step(Event::ScanFinished(Ok(())));
    let mut readings: u32 = 0;
    while s.request != Request::ListNetworks {
        match s.request {
            Request::CountNetworks => {
                readings += 1;
                let (r2, s2) = r.step(Event::NetworksCounted(readings as usize));
                r = r2;
                s = s2;
            }
            Request::Pause(1) => {
                let (r2, s2) = r.step(Event::Paused);
                r = r2;
                s = s2;
            }
            _ => panic!("unexpected request"),
        }
    }
    assert_eq!(readings, SETTLE_ROUNDS);
}

#[test]
fn settle_loop_needs_a_nonzero_repeat() {
    let (r, _) = Refresh::start(RefreshKind::Scan, false);
    let (r, _) = r.step(Event::WiredListed(Ok(vec![])));
    let (r, _) = r.step(Event::BluetoothListed(Ok(vec![])));
    let (r, _) = r.step(Event::ScanFinished(Ok(())));
    let (r, s) = r.step(Event::NetworksCounted(0));
    assert_eq!(s.request, Request::Pause(1));
    let (r, _) = r.step(Event::Paused);
    let (_, s) = r.step(Event::NetworksCounted(0));
    assert_eq!(s.request, Request::Pause(1));
}

#[test]
fn scan_failure_ends_refresh() {
    let (r, _) = Refresh::start(RefreshKind::Scan, false);
    let (r, s) = r.step(Event::WiredListed(Err("dbus".to_string())));
    match &s.effects[..] {
        [Effect::LogWiredFailure(m)] => assert_eq!(m, "dbus"),
        _ => panic!("expected a log line"),
    }
    let (r, s) = r.step(Event::BluetoothListed(Err("bluez".to_string())));
    assert!(matches!(s.effects[0], Effect::LogBluetoothFailure(ref m) if m == "bluez"));
    let (r, s) = r.step(Event::ScanFinished(Err("busy".to_string())));
    assert!(matches!(r.phase, Phase::Finished));
    assert_eq!(s.request, Request::Done);
    assert_eq!(status_of(&s.effects[0]).unwrap(), "Scan failed: busy");
    assert!(matches!(s.effects[1], Effect::SetScanning(false)));
}

#[test]
fn live_update_skips_the_scan() {
    let (r, s) = Refresh::start(RefreshKind::Live, false);
    assert_eq!(s.effects.len(), 2);
    let (r, s) = r.step(Event::WiredListed(Err("dbus".to_string())));
    assert!(s.effects.is_empty());
    let (r, s) = r.step(Event::BluetoothListed(Ok(vec![])));
    assert_eq!(s.request, Request::ListNetworks);
    assert_eq!(s.effects.len(), 1);
    let (r, s) = r.step(Event::NetworksListed(Err("gone".to_string())));
    assert!(matches!(r.phase, Phase::Finished));
    assert_eq!(status_of(&s.effects[0]).unwrap(), "Error fetching networks: gone");
    assert!(matches!(s.effects[1], Effect::SetScanning(false)));
}

#[test]
fn live_update_shows_networks_without_status() {
    let (r, _) = Refresh::start(RefreshKind::Live, false);
    let (r, _) = r.step(Event::WiredListed(Ok(vec![DeviceState::Unmanaged])));
    let (r, _) = r.step(Event::BluetoothListed(Ok(vec![])));
    let (r, _) = r.step(Event::NetworksListed(Ok(vec![net("x", 10, 2412)])));
    let (_, s) = r.step(Event::ConnectionFound(None));
    assert_eq!(s.effects.len(), 3);
    match &s.effects[0] {
        Effect::ShowNetworks { rows, current_ssid, current_band } => {
            assert_eq!(rows, &vec![0]);
            assert!(current_ssid.is_none());
            assert!(current_band.is_none());
        }
        _ => panic!("expected the networks"),
    }
}

#[test]
fn answer_out_of_turn_changes_nothing() {
    let (r, _) = Refresh::start(RefreshKind::Scan, false);
    let (r, s) = r.step(Event::Paused);
    assert!(matches!(r.phase, Phase::AwaitWired));
    assert!(s.effects.is_empty());
    assert_eq!(s.request, Request::ListWired);
}
