use sandbox::probe::negotiate;
use sandbox::{describe_support, is_landlock_supported, LandlockSupport, ProbeOutcome};

#[test]
fn unavailable_is_reported_with_its_reason() {
    let report = describe_support(ProbeOutcome::Unavailable { reason: "not compiled in".to_string() });
    assert_eq!(
        report,
        LandlockSupport {
            supported: false,
            abi_version: 0,
            network_supported: false,
            message: "Landlock not available: not compiled in".to_string(),
        }
    );
    assert_eq!(report.feature_level(), None);
    assert_eq!(report.reason(), Some("Landlock not available: not compiled in".to_string()));
}

#[test]
fn levels_below_four_have_no_network_rules() {
    for level in [1u8, 2, 3] {
        let report = describe_support(ProbeOutcome::Available { level });
        assert!(report.supported);
        assert_eq!(report.abi_version, level as u32);
        assert!(!report.network_supported);
        assert_eq!(report.message, format!("Landlock ABI v{} available", level));
        assert_eq!(report.feature_level(), Some(level as u32));
        assert_eq!(report.reason(), None);
    }
    assert_eq!(
        describe_support(ProbeOutcome::Available { level: 3 }).message,
        "Landlock ABI v3 available"
    );
}

#[test]
fn levels_from_four_have_network_rules() {
    assert_eq!(
        describe_support(ProbeOutcome::Available { level: 4 }),
        LandlockSupport {
            supported: true,
            abi_version: 4,
            network_supported: true,
            message: "Landlock ABI v4 available (with network rules)".to_string(),
        }
    );
    assert_eq!(
        describe_support(ProbeOutcome::Available { level: 5 }).message,
        "Landlock ABI v5 available (with network rules)"
    );
    assert_eq!(
        describe_support(ProbeOutcome::Available { level: 255 }).message,
        "Landlock ABI v255 available (with network rules)"
    );
    assert_eq!(
        describe_support(ProbeOutcome::Available { level: 12 }).message,
        "Landlock ABI v12 available (with network rules)"
    );
}

#[test]
fn negotiation_takes_the_highest_yes() {
    assert_eq!(negotiate(&vec![]), 1);
    assert_eq!(negotiate(&vec![false, false, false, false]), 1);
    assert_eq!(negotiate(&vec![true, false, false, false]), 2);
    assert_eq!(negotiate(&vec![true, true, false, false]), 3);
    assert_eq!(negotiate(&vec![true, true, true, false]), 4);
    assert_eq!(negotiate(&vec![true, true, true, true]), 5);
    assert_eq!(negotiate(&vec![false, false, true, false]), 4);
    assert_eq!(negotiate(&vec![false, false, false, true]), 5);
    assert_eq!(negotiate(&vec![true]), 2);
    assert_eq!(negotiate(&vec![false]), 1);
}

#[test]
fn the_probe_reports_one_thing_in_all_its_fields() {
    let report = is_landlock_supported();
    if report.supported {
        assert!(1 <= report.abi_version && report.abi_version <= 5);
        assert_eq!(report.network_supported, report.abi_version >= 4);
        assert_eq!(report.feature_level(), Some(report.abi_version));
        assert_eq!(report.reason(), None);
        assert!(report.message.starts_with(&format!("Landlock ABI v{} available", report.abi_version)));
    } else {
        assert_eq!(report.abi_version, 0);
        assert!(!report.network_supported);
        assert_eq!(report.feature_level(), None);
        assert!(report.message.starts_with("Landlock not available: "));
        assert_eq!(report.reason(), Some(report.message.clone()));
    }
}

#[test]
fn the_probe_can_be_repeated() {
    let first = is_landlock_supported();
    for _ in 0..5 {
        let again = is_landlock_supported();
        assert_eq!(again.supported, first.supported);
        assert_eq!(again.abi_version, first.abi_version);
        assert_eq!(again.network_supported, first.network_supported);
    }
}
