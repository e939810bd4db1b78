use aprs_telemetry::navsat::{
    NavSat, NavSatOrbitSource, NavSatQualityIndicator, NavSatSvFlags, NavSatSvHealth, NavSatSvInfo,
    MAX_SATELLITES,
};

fn satellite(n: u8) -> NavSatSvInfo {
    NavSatSvInfo {
        gnss_id: n % 7,
        sv_id: n,
        cno: 20 + n,
        elev: n as i8 - 20,
        azim: n as i16 * 9,
        pr_res: -(n as i16),
        flags: NavSatSvFlags {
            quality_ind: NavSatQualityIndicator::from_code(n % 6),
            sv_used: n % 2 == 0,
            orbit_sources: NavSatOrbitSource::Other(n),
            ..NavSatSvFlags::default()
        },
    }
}

fn satellites(count: u8) -> Vec<NavSatSvInfo> {
    (0..count).map(satellite).collect()
}

#[test]
fn forty_satellites_are_cut_to_the_first_thirty_two() {
    let entries = satellites(40);
    let sat = NavSat::from_entries(123_456, 1, &entries);
    assert_eq!(sat.itow, 123_456);
    assert_eq!(sat.version, 1);
    assert_eq!(sat.num_svs, 32);
    for i in 0..32 {
        assert_eq!(sat.svs[i], Some(entries[i]));
        assert_eq!(sat.svs[i].unwrap().sv_id, i as u8);
    }
    assert_eq!(MAX_SATELLITES, 32);
}

#[test]
fn fewer_satellites_leave_the_last_slots_empty() {
    let entries = satellites(5);
    let sat = NavSat::from_entries(7, 0, &entries);
    assert_eq!(sat.num_svs, 5);
    for i in 0..5 {
        assert_eq!(sat.svs[i], Some(entries[i]));
    }
    for i in 5..32 {
        assert_eq!(sat.svs[i], None);
    }
}

#[test]
fn satellite_count_at_the_bound() {
    for count in [0u8, 1, 31, 32, 33, 200] {
        let entries = satellites(count);
        let sat = NavSat::from_entries(0, 0, &entries);
        assert_eq!(sat.num_svs, count.min(32));
        for i in 0..32usize {
            if i < count as usize {
                assert_eq!(sat.get(i), Some(entries[i]));
            } else {
                assert_eq!(sat.get(i), None);
            }
        }
        assert_eq!(sat.get(32), None);
        assert_eq!(sat.get(usize::MAX), None);
    }
}

#[test]
fn satellite_defaults() {
    let sat = NavSat::default();
    assert_eq!(sat.num_svs, 0);
    assert_eq!(sat.svs, [None; 32]);
    assert_eq!(sat, NavSat::from_entries(0, 0, &[]));
    let info = NavSatSvInfo::default();
    assert_eq!(info.flags, NavSatSvFlags::default());
    assert_eq!(info.flags.quality_ind, NavSatQualityIndicator::NoSignal);
    assert_eq!(info.flags.health, NavSatSvHealth::Unknown);
    assert_eq!(info.flags.orbit_sources, NavSatOrbitSource::NoInfoAvailable);
    assert!(!info.flags.sv_used);
    assert_eq!(NavSatQualityIndicator::default(), NavSatQualityIndicator::NoSignal);
    assert_eq!(NavSatSvHealth::default(), NavSatSvHealth::Unknown);
    assert_eq!(NavSatOrbitSource::default(), NavSatOrbitSource::NoInfoAvailable);
}

#[test]
fn quality_codes() {
    let all = [
        NavSatQualityIndicator::NoSignal,
        NavSatQualityIndicator::Searching,
        NavSatQualityIndicator::SignalAcquired,
        NavSatQualityIndicator::SignalDetected,
        NavSatQualityIndicator::CodeLock,
        NavSatQualityIndicator::CarrierLock,
    ];
    for (code, q) in all.iter().enumerate() {
        assert_eq!(q.code(), code as u8);
        assert_eq!(NavSatQualityIndicator::from_code(code as u8), *q);
    }
    for code in [6u8, 7, 8, 255] {
        assert_eq!(NavSatQualityIndicator::from_code(code), NavSatQualityIndicator::NoSignal);
    }
}

#[test]
fn health_codes() {
    assert_eq!(NavSatSvHealth::Healthy.code(), 0);
    assert_eq!(NavSatSvHealth::Unhealthy.code(), 1);
    assert_eq!(NavSatSvHealth::Unknown.code(), 3);
}
