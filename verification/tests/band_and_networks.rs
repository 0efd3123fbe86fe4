use nmrs_gui::{freq_to_band, frequency_band, network_display_order, Band, NetworkEntry};

fn net(ssid: &str, strength: Option<u8>, frequency: Option<u32>) -> NetworkEntry {
    NetworkEntry { ssid: ssid.to_string(), strength, frequency }
}

#[test]
fn freq_to_band_edges() {
    assert_eq!(freq_to_band(2399), None);
    assert_eq!(freq_to_band(2400), Some("2.4GHz"));
    assert_eq!(freq_to_band(2437), Some("2.4GHz"));
    assert_eq!(freq_to_band(2500), Some("2.4GHz"));
    assert_eq!(freq_to_band(2501), None);
    assert_eq!(freq_to_band(5149), None);
    assert_eq!(freq_to_band(5150), Some("5GHz"));
    assert_eq!(freq_to_band(5925), Some("5GHz"));
    assert_eq!(freq_to_band(5926), Some("6GHz"));
    assert_eq!(freq_to_band(7125), Some("6GHz"));
    assert_eq!(freq_to_band(7126), None);
    assert_eq!(freq_to_band(0), None);
    assert_eq!(freq_to_band(u32::MAX), None);
}

#[test]
fn frequency_band_matches_labels() {
    assert_eq!(frequency_band(5180), Some(Band::Ghz5));
    assert_eq!(Band::Ghz2_4.label(), "2.4GHz");
    assert_eq!(Band::Ghz5.label(), "5GHz");
    assert_eq!(Band::Ghz6.label(), "6GHz");
}

#[test]
fn networks_sorted_by_strength_and_deduplicated_per_band() {
    let nets = vec![
        net("home", Some(50), Some(2437)),
        net("office", Some(80), Some(5180)),
        net("home", Some(70), Some(2412)),
        net("cafe", None, None),
        net("home", Some(70), Some(5200)),
    ];
    // office (80), home 2.4GHz (70), home 5GHz (70), cafe (0); the weaker
    // home 2.4GHz report is folded into the stronger one.
    assert_eq!(network_display_order(&nets), vec![1, 2, 4, 3]);
}

#[test]
fn equal_strength_keeps_reported_order() {
    let nets = vec![
        net("a", Some(40), Some(2412)),
        net("b", Some(40), Some(2412)),
        net("c", Some(40), Some(2412)),
    ];
    assert_eq!(network_display_order(&nets), vec![0, 1, 2]);
}

#[test]
fn duplicates_keep_strongest_then_earliest() {
    let nets = vec![
        net("x", Some(10), Some(2412)),
        net("x", Some(60), Some(2462)),
        net("x", Some(60), Some(2437)),
        net("x", None, Some(9999)),
        net("x", Some(0), None),
    ];
    // both the unknown-band reports share one row: the first one (strength 0)
    assert_eq!(network_display_order(&nets), vec![1, 3]);
}

#[test]
fn empty_network_list() {
    assert_eq!(network_display_order(&Vec::new()), Vec::<usize>::new());
}

#[test]
fn unknown_strength_counts_as_zero() {
    let nets = vec![net("a", None, Some(2412)), net("b", Some(1), Some(2412))];
    assert_eq!(network_display_order(&nets), vec![1, 0]);
}
