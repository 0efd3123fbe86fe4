use nmrs_gui::{
    bluetooth_devices_view, device_display_name, startup, state_class, state_text, ui_prefs,
    version_line, visible_wired_devices, BluetoothDeviceInfo, DeviceState, RefreshKind, Startup,
    StartupError, UiPrefs,
};

fn bt(addr: &str, name: Option<&str>, alias: Option<&str>, state: DeviceState) -> BluetoothDeviceInfo {
    BluetoothDeviceInfo {
        bdaddr: addr.to_string(),
        name: name.map(|s| s.to_string()),
        alias: alias.map(|s| s.to_string()),
        state,
    }
}

#[test]
fn scan_refresh_lists_usable_wired_devices() {
    let states = vec![
        DeviceState::Unmanaged,
        DeviceState::Activated,
        DeviceState::Unavailable,
        DeviceState::Disconnected,
        DeviceState::Prepare,
        DeviceState::Config,
        DeviceState::Failed,
        DeviceState::Other(42),
    ];
    assert_eq!(visible_wired_devices(&states, RefreshKind::Scan), vec![1, 3, 4, 5]);
}

#[test]
fn live_update_also_lists_unmanaged_devices() {
    let states = vec![
        DeviceState::Unmanaged,
        DeviceState::Activated,
        DeviceState::Unavailable,
        DeviceState::NeedAuth,
    ];
    assert_eq!(visible_wired_devices(&states, RefreshKind::Live), vec![0, 1]);
    assert_eq!(visible_wired_devices(&states, RefreshKind::Scan), vec![1]);
}

#[test]
fn bluetooth_name_prefers_alias_then_name() {
    let with_alias = bt("AA:BB", Some("Phone"), Some("My phone"), DeviceState::Activated);
    let with_name = bt("AA:BB", Some("Phone"), None, DeviceState::Activated);
    let nameless = bt("AA:BB", None, None, DeviceState::Activated);
    assert_eq!(device_display_name(&with_alias), "My phone (AA:BB)");
    assert_eq!(device_display_name(&with_name), "Phone (AA:BB)");
    assert_eq!(device_display_name(&nameless), "Unknown device (AA:BB)");
}

#[test]
fn bluetooth_state_labels() {
    assert_eq!(state_text(DeviceState::Activated), Some("Connected"));
    assert_eq!(state_text(DeviceState::Disconnected), Some("Disconnected"));
    assert_eq!(state_text(DeviceState::Unavailable), Some("Unavailable"));
    assert_eq!(state_text(DeviceState::Failed), Some("Failed"));
    assert_eq!(state_text(DeviceState::Prepare), None);
    assert_eq!(state_class(DeviceState::Activated), "network-good");
    assert_eq!(state_class(DeviceState::Failed), "network-poor");
    assert_eq!(state_class(DeviceState::Unavailable), "network-poor");
    assert_eq!(state_class(DeviceState::Disconnected), "network-poor");
    assert_eq!(state_class(DeviceState::Config), "network-okay");
}

#[test]
fn bluetooth_rows_follow_devices() {
    let devices = vec![
        bt("11:22", Some("Headset"), None, DeviceState::Activated),
        bt("33:44", None, Some("Tether"), DeviceState::IpConfig),
    ];
    let rows = bluetooth_devices_view(&devices);
    assert_eq!(rows.len(), 2);
    assert!(rows[0].connected);
    assert_eq!(rows[0].display_name, "Headset (11:22)");
    let label = rows[0].state_label.as_ref().unwrap();
    assert_eq!(label.text, "Connected");
    assert_eq!(label.css_class, "network-good");
    assert!(!rows[1].connected);
    assert_eq!(rows[1].display_name, "Tether (33:44)");
    assert!(rows[1].state_label.is_none());
}

#[test]
fn stored_prefs_or_both_sections() {
    let wifi = UiPrefs { show_wifi: true, show_bluetooth: false };
    assert_eq!(ui_prefs(Some(wifi)), wifi);
    assert_eq!(ui_prefs(None), UiPrefs { show_wifi: true, show_bluetooth: true });
}

#[test]
fn startup_flags() {
    assert_eq!(startup(true, true, true), Ok(Startup::PrintVersion));
    assert_eq!(startup(false, true, true), Err(StartupError::ExclusiveFlags));
    assert_eq!(
        startup(false, true, false),
        Ok(Startup::Launch(UiPrefs { show_wifi: true, show_bluetooth: false }))
    );
    assert_eq!(
        startup(false, false, true),
        Ok(Startup::Launch(UiPrefs { show_wifi: false, show_bluetooth: true }))
    );
    assert_eq!(
        startup(false, false, false),
        Ok(Startup::Launch(UiPrefs { show_wifi: true, show_bluetooth: true }))
    );
}

#[test]
fn startup_error_message() {
    assert_eq!(
        StartupError::ExclusiveFlags.message(),
        "--wifi-only and --bluetooth-only are mutually exclusive"
    );
}

#[test]
fn version_line_format() {
    assert_eq!(version_line("1.2.3", "abc123"), "nmrs 1.2.3-beta (abc123)");
}
