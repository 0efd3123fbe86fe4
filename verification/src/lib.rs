//! Decision logic of the NetworkManager front end: command-line
//! preferences, Wi-Fi band classification, the order in which scanned
//! networks are listed, which devices are shown, theme selection, the
//! refresh procedure and the change-monitor debouncing.

mod band;
mod bluetooth;
mod devices;
mod monitor;
mod networks;
mod prefs;
mod refresh;
mod status;
mod theme;
mod wifi;

pub use band::{band_of, bands_are_whole_ranges, freq_to_band, frequency_band, Band};
pub use bluetooth::{
    bluetooth_devices_view, bluetooth_row, device_display_name, display_name_of,
    row_connected_only_when_activated, row_names_device, shown_name,
    shows_device, state_class, state_class_of, state_text, state_text_of, BluetoothDeviceInfo,
    BluetoothRow, StateLabel,
};
pub use devices::{
    is_shown_selection, is_wired_device_shown, live_update_lists_more_devices,
    shown_selection_is_unique, visible_wired_devices, wired_device_shown, DeviceState, RefreshKind,
};
pub use monitor::{
    burst_starts_one_timer, change_starts_timer, is_networks_page, on_networks_page,
    pending_after_change, Debounce, MonitorKind, MONITOR_RESTART_SECONDS,
};
pub use networks::{
    display_order_is_unique, entry_band, frequency_band_of, is_display_order, listed_before, network_display_order,
    one_row_per_ssid_and_band, represented, same_row, shown_row_is_strongest_report, signal, stronger_networks_listed_first,
    NetworkEntry,
};
pub use prefs::{
    default_prefs, launch_shows_a_section, startup, startup_of, ui_prefs, version_flag_wins,
    version_line, Startup, StartupError, UiPrefs,
};
pub use refresh::{
    answers_left, awaits, bluetooth_section_in_both_kinds, connection_band, connection_effects,
    effects_view, how_a_refresh_begins, live_update_never_scans, networks_shown_with_current_connection,
    scan_settles_before_listing, wired_section_in_both_kinds,
    logged, phase_well_formed, refresh_always_ends, refresh_begins, refresh_begins_well_formed,
    refresh_transition, running_flag_held_until_the_end, shows_wired_section, Effect, EffectView,
    Event, EventView, Phase, PhaseView, Refresh, Request, Step, SETTLE_PAUSE_SECONDS, SETTLE_ROUNDS,
};
pub use status::{status_texts, StatusMessage};
pub use theme::{
    selected_theme, theme_icon, theme_icon_of, theme_keys, theme_names, theme_names_shown,
    theme_position, themes, toggle_keeps_icon_in_step, toggle_theme, window_class_of, ThemeDef,
    ThemeSwitch,
};
pub use wifi::{wifi_ready, wifi_state_loaded, wifi_switched, WifiNext, WifiStartup};
