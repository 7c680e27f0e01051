use langtuctl::descriptor::{attributes_match, descriptor_matches, Descriptor};
use langtuctl::locate::{
    after_inspect, begin_scan, determine_connection, has_device_prefix, sysfs_device_path,
    ConnectionType, NotFoundReason, ScanStep,
};

fn names(n: usize) -> Vec<String> {
    (0..n).map(|i| format!("hidraw{}", i)).collect()
}

fn desc(subclass: Option<&str>, vendor: Option<&str>, product: Option<&str>) -> Descriptor {
    Descriptor {
        subclass: subclass.map(|s| s.to_string()),
        vendor: vendor.map(|s| s.to_string()),
        product: product.map(|s| s.to_string()),
    }
}

fn keyboard() -> Descriptor {
    desc(Some("00\n"), Some("1a2c\n"), Some("7fff\n"))
}

#[test]
fn connection_by_count() {
    assert_eq!(determine_connection(&names(6)), ConnectionType::Usb);
    assert_eq!(determine_connection(&names(7)), ConnectionType::Wifi);
    for n in [0usize, 1, 5, 8, 20] {
        assert_eq!(determine_connection(&names(n)), ConnectionType::Unknown);
    }
}

#[test]
fn unknown_counts_end_before_inspecting() {
    for n in [1usize, 2, 5, 8, 12] {
        assert_eq!(
            begin_scan(&names(n)),
            ScanStep::NotFound(NotFoundReason::UnknownConnection)
        );
    }
}

#[test]
fn empty_candidate_set_is_not_found() {
    assert_eq!(begin_scan(&[]), ScanStep::NotFound(NotFoundReason::UnknownConnection));
}

#[test]
fn usb_is_unsupported() {
    assert_eq!(begin_scan(&names(6)), ScanStep::NotFound(NotFoundReason::UsbUnsupported));
}

#[test]
fn wifi_starts_at_first_candidate() {
    assert_eq!(begin_scan(&names(7)), ScanStep::Inspect(0));
}

#[test]
fn attributes_accepted_variants() {
    for sub in ["00", "01"] {
        for prod in ["7fff", "484a"] {
            assert!(attributes_match(sub, "1a2c", prod));
        }
    }
}

#[test]
fn attributes_boundary_per_field() {
    assert!(!attributes_match("02", "1a2c", "7fff"));
    assert!(!attributes_match("0", "1a2c", "7fff"));
    assert!(!attributes_match("00", "1a2d", "7fff"));
    assert!(!attributes_match("00", "1A2C", "7fff"));
    assert!(!attributes_match("00", "1a2c", "7ffe"));
    assert!(!attributes_match("00", "1a2c", "484b"));
    assert!(!attributes_match("00\n", "1a2c", "7fff"));
}

#[test]
fn descriptor_values_are_trimmed() {
    assert!(descriptor_matches(&keyboard()));
    assert!(descriptor_matches(&desc(Some("  01 "), Some("\t1a2c"), Some("484a\n"))));
    assert!(!descriptor_matches(&desc(Some("02\n"), Some("1a2c\n"), Some("7fff\n"))));
    assert!(!descriptor_matches(&desc(Some("00\n"), Some("1a2d\n"), Some("7fff\n"))));
    assert!(!descriptor_matches(&desc(Some("00\n"), Some("1a2c\n"), Some("7ffe\n"))));
}

#[test]
fn descriptor_missing_attribute_never_matches() {
    assert!(!descriptor_matches(&desc(None, Some("1a2c"), Some("7fff"))));
    assert!(!descriptor_matches(&desc(Some("00"), None, Some("7fff"))));
    assert!(!descriptor_matches(&desc(Some("00"), Some("1a2c"), None)));
}

#[test]
fn missing_attribute_skips_to_next_candidate() {
    let missing = [
        desc(None, Some("1a2c"), Some("7fff")),
        desc(Some("00"), None, Some("7fff")),
        desc(Some("00"), Some("1a2c"), None),
    ];
    for d in &missing {
        assert_eq!(after_inspect(7, 2, d), ScanStep::Inspect(3));
        assert_eq!(after_inspect(7, 6, d), ScanStep::NotFound(NotFoundReason::NoMatch));
    }
}

#[test]
fn matching_candidate_is_found() {
    assert_eq!(after_inspect(7, 4, &keyboard()), ScanStep::Found(4));
}

#[test]
fn scan_stops_at_first_match() {
    let candidates = names(7);
    let ds = vec![
        desc(None, None, None),
        desc(Some("03"), Some("1a2c"), Some("7fff")),
        desc(Some("00"), Some("1a2c"), None),
        keyboard(),
        keyboard(),
        desc(None, None, None),
        keyboard(),
    ];
    let mut inspected = Vec::new();
    let mut step = begin_scan(&candidates);
    while let ScanStep::Inspect(i) = step {
        inspected.push(i);
        step = after_inspect(candidates.len(), i, &ds[i]);
    }
    assert_eq!(step, ScanStep::Found(3));
    assert_eq!(inspected, vec![0, 1, 2, 3]);
}

#[test]
fn scan_without_match_is_not_found() {
    let candidates = names(7);
    let mut step = begin_scan(&candidates);
    let mut n = 0;
    while let ScanStep::Inspect(i) = step {
        n += 1;
        step = after_inspect(candidates.len(), i, &desc(Some("00"), Some("046d"), Some("7fff")));
    }
    assert_eq!(n, 7);
    assert_eq!(step, ScanStep::NotFound(NotFoundReason::NoMatch));
}

#[test]
fn device_prefix() {
    assert!(has_device_prefix("hidraw"));
    assert!(has_device_prefix("hidraw12"));
    assert!(!has_device_prefix("hidra"));
    assert!(!has_device_prefix("tty0"));
    assert!(!has_device_prefix("xhidraw0"));
    assert!(!has_device_prefix(""));
}

#[test]
fn sysfs_path_of_device() {
    assert_eq!(sysfs_device_path("hidraw3"), "/sys/class/hidraw/hidraw3/device");
}
