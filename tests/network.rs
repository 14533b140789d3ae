use launchpad::network::{Network, ScanStep};

#[test]
fn filter_adapters() {
    let adapters =
        Network::filter_wifi_adapter(vec!["enp0s31f6".to_string(), "wlp0s20f3".to_string()]);
    assert_eq!(adapters, Some("wlp0s20f3".to_string()));

    let adapters = Network::filter_wifi_adapter(vec!["enp0s31f6".to_string()]);
    assert_eq!(adapters, None);

    let adapters = Network::filter_wifi_adapter(vec![]);
    assert_eq!(adapters, None);
}

#[test]
fn filter_adapters_ignores_case_and_takes_the_first() {
    let adapters = Network::filter_wifi_adapter(vec![
        "eth0".to_string(),
        "Wlan0".to_string(),
        "wlp2s0".to_string(),
    ]);
    assert_eq!(adapters, Some("Wlan0".to_string()));
}

#[test]
fn wireless_prefix_is_checked_on_upper_case_names() {
    assert!(Network::is_wireless_upper("WLP0S20F3"));
    assert!(Network::is_wireless_upper("WL"));
    assert!(!Network::is_wireless_upper("wlp0s20f3"));
    assert!(!Network::is_wireless_upper("W"));
    assert!(!Network::is_wireless_upper("ENP0S31F6"));
}

#[test]
fn scan_finds_the_network_case_aside() {
    let found = vec!["HomeNet".to_string(), "tello-59ff95".to_string()];
    assert!(matches!(Network::scan_outcome(&found, "TELLO-59FF95", 0), ScanStep::Found));
    assert!(matches!(Network::scan_outcome(&found, "TELLO-59FF95", 30), ScanStep::Found));
}

#[test]
fn scan_retries_then_times_out() {
    let found = vec!["HomeNet".to_string()];
    assert!(matches!(Network::scan_outcome(&found, "TELLO-59FF95", 0), ScanStep::Retry));
    assert!(matches!(Network::scan_outcome(&found, "TELLO-59FF95", 29), ScanStep::Retry));
    assert!(matches!(Network::scan_outcome(&found, "TELLO-59FF95", 30), ScanStep::TimedOut));
    assert!(matches!(Network::scan_outcome(&vec![], "TELLO-59FF95", 31), ScanStep::TimedOut));
}

#[test]
fn upper_case_contains_compares_whole_names() {
    let found = vec!["TELLO-1".to_string(), "HOME".to_string()];
    assert!(Network::contains_upper(&found, &"HOME".to_string()));
    assert!(!Network::contains_upper(&found, &"TELLO".to_string()));
}
