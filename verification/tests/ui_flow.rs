use nmrs_gui::{
    is_networks_page, selected_theme, theme_icon, theme_names, theme_position, themes,
    toggle_theme, wifi_ready, wifi_state_loaded, wifi_switched, Debounce, MonitorKind,
    StatusMessage, WifiNext, MONITOR_RESTART_SECONDS,
};

#[test]
fn offered_themes() {
    let t = themes();
    let keys: Vec<&str> = t.iter().map(|d| d.key).collect();
    assert_eq!(keys, vec!["gruvbox", "nord", "dracula", "catppuccin", "tokyo"]);
    assert_eq!(theme_names(&t), vec!["Gruvbox", "Nord", "Dracula", "Catppuccin", "Tokyo Night"]);
}

#[test]
fn saved_theme_lookup() {
    let t = themes();
    assert_eq!(theme_position(&t, "nord"), Some(1));
    assert_eq!(theme_position(&t, "tokyo"), Some(4));
    assert_eq!(theme_position(&t, "light"), None);
    assert_eq!(theme_position(&t, "Nord"), None);
}

#[test]
fn drop_down_selection_past_the_end_is_ignored() {
    let t = themes();
    assert_eq!(selected_theme(&t, 2).unwrap().key, "dracula");
    assert!(selected_theme(&t, 5).is_none());
    assert!(selected_theme(&t, u32::MAX as usize).is_none());
}

#[test]
fn light_dark_button() {
    assert_eq!(theme_icon(true), "weather-clear-night-symbolic");
    assert_eq!(theme_icon(false), "weather-clear-symbolic");
    let to_dark = toggle_theme(true);
    assert_eq!(to_dark.remove_class, "light-theme");
    assert_eq!(to_dark.add_class, "dark-theme");
    assert_eq!(to_dark.icon, "weather-clear-symbolic");
    assert_eq!(to_dark.saved, "light");
    let to_light = toggle_theme(false);
    assert_eq!(to_light.remove_class, "dark-theme");
    assert_eq!(to_light.add_class, "light-theme");
    assert_eq!(to_light.icon, "weather-clear-night-symbolic");
    assert_eq!(to_light.saved, "dark");
    // the icon after a press is the one a window of the new kind starts with
    assert_eq!(to_dark.icon, theme_icon(false));
    assert_eq!(to_light.icon, theme_icon(true));
    // a second press undoes the first
    assert_eq!(toggle_theme(false).add_class, to_dark.remove_class);
}

#[test]
fn status_texts() {
    assert_eq!(StatusMessage::ScanInProgress.text(), "Scan already in progress");
    assert_eq!(StatusMessage::Scanning.text(), "Scanning...");
    assert_eq!(StatusMessage::Cleared.text(), "");
    assert_eq!(StatusMessage::ScanFailed("busy".to_string()).text(), "Scan failed: busy");
    assert_eq!(
        StatusMessage::FetchFailed("no dbus".to_string()).text(),
        "Error fetching networks: no dbus"
    );
    assert_eq!(
        StatusMessage::WifiSwitchFailed("denied".to_string()).text(),
        "Error setting Wi-Fi: denied"
    );
    assert_eq!(StatusMessage::WifiNotReady.text(), "Wi-Fi failed to initialize");
    assert_eq!(StatusMessage::InitFailed("x".to_string()).text(), "Failed to initialize: x");
}

#[test]
fn debounce_absorbs_a_burst() {
    let mut d = Debounce::new();
    assert!(d.on_change());
    assert!(!d.on_change());
    assert!(!d.on_change());
    assert!(d.on_settled(false, Some("networks")));
    assert!(!d.pending);
    assert!(d.on_change());
}

#[test]
fn settled_timer_refreshes_only_on_network_page_when_idle() {
    let mut d = Debounce::new();
    d.on_change();
    assert!(!d.on_settled(true, Some("networks")));
    d.on_change();
    assert!(!d.on_settled(false, Some("details")));
    d.on_change();
    assert!(!d.on_settled(false, None));
    assert!(is_networks_page(Some("networks")));
    assert!(!is_networks_page(Some("network")));
}

#[test]
fn monitor_delays() {
    assert_eq!(MonitorKind::Devices.settle_seconds(), 3);
    assert_eq!(MonitorKind::Networks.settle_seconds(), 8);
    assert_eq!(MONITOR_RESTART_SECONDS, 5);
}

#[test]
fn wifi_state_at_start() {
    let on = wifi_state_loaded(Ok(true));
    assert_eq!(on.switch_on, Some(true));
    assert!(on.refresh);
    assert!(on.status.is_none());
    let off = wifi_state_loaded(Ok(false));
    assert_eq!(off.switch_on, Some(false));
    assert!(!off.refresh);
    let err = wifi_state_loaded(Err("gone".to_string()));
    assert_eq!(err.switch_on, None);
    assert!(!err.refresh);
    assert_eq!(err.status.unwrap().text(), "Error fetching networks: gone");
}

#[test]
fn wifi_switch_flow() {
    assert!(matches!(wifi_switched(true, Ok(())), WifiNext::WaitUntilReady));
    assert!(matches!(wifi_switched(false, Ok(())), WifiNext::Done));
    match wifi_switched(true, Err("denied".to_string())) {
        WifiNext::ShowStatus(m) => assert_eq!(m.text(), "Error setting Wi-Fi: denied"),
        _ => panic!("expected a status"),
    }
    assert!(matches!(wifi_ready(true), WifiNext::Refresh));
    match wifi_ready(false) {
        WifiNext::ShowStatus(m) => assert_eq!(m.text(), "Wi-Fi failed to initialize"),
        _ => panic!("expected a status"),
    }
}
