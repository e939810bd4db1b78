use aprs_telemetry::gps::GpsFix;
use aprs_telemetry::navsat::{NavSatOrbitSource, NavSatQualityIndicator, NavSatSvHealth};
use ublox::NavSatOrbitSource as UbloxOrbit;
use ublox::NavSatQualityIndicator as UbloxQuality;
use ublox::NavSatSvHealth as UbloxHealth;

#[test]
fn named_fixes_are_taken_over() {
    assert_eq!(GpsFix::from(ublox::GpsFix::NoFix), GpsFix::NoFix);
    assert_eq!(GpsFix::from(ublox::GpsFix::DeadReckoningOnly), GpsFix::DeadReckoningOnly);
    assert_eq!(GpsFix::from(ublox::GpsFix::Fix2D), GpsFix::Fix2D);
    assert_eq!(GpsFix::from(ublox::GpsFix::Fix3D), GpsFix::Fix3D);
    assert_eq!(GpsFix::from(ublox::GpsFix::GPSPlusDeadReckoning), GpsFix::GPSPlusDeadReckoning);
    assert_eq!(GpsFix::from(ublox::GpsFix::TimeOnlyFix), GpsFix::TimeOnlyFix);
}

#[test]
fn reserved_fixes_degrade_to_no_fix() {
    assert_eq!(GpsFix::from(ublox::GpsFix::Reserved6), GpsFix::NoFix);
    assert_eq!(GpsFix::from(ublox::GpsFix::Reserved7), GpsFix::NoFix);
    assert_eq!(GpsFix::from(ublox::GpsFix::Reserved128), GpsFix::NoFix);
    assert_eq!(GpsFix::from(ublox::GpsFix::Reserved255), GpsFix::NoFix);
    let fix: GpsFix = ublox::GpsFix::Reserved42.into();
    assert_eq!(fix, GpsFix::NoFix);
}

#[test]
fn quality_is_taken_over() {
    assert_eq!(
        NavSatQualityIndicator::from(UbloxQuality::NoSignal),
        NavSatQualityIndicator::NoSignal
    );
    assert_eq!(
        NavSatQualityIndicator::from(UbloxQuality::Searching),
        NavSatQualityIndicator::Searching
    );
    assert_eq!(
        NavSatQualityIndicator::from(UbloxQuality::SignalAcquired),
        NavSatQualityIndicator::SignalAcquired
    );
    assert_eq!(
        NavSatQualityIndicator::from(UbloxQuality::SignalDetected),
        NavSatQualityIndicator::SignalDetected
    );
    assert_eq!(
        NavSatQualityIndicator::from(UbloxQuality::CodeLock),
        NavSatQualityIndicator::CodeLock
    );
    assert_eq!(
        NavSatQualityIndicator::from(UbloxQuality::CarrierLock),
        NavSatQualityIndicator::CarrierLock
    );
}

#[test]
fn health_is_taken_over() {
    assert_eq!(NavSatSvHealth::from(UbloxHealth::Healthy), NavSatSvHealth::Healthy);
    assert_eq!(NavSatSvHealth::from(UbloxHealth::Unhealthy), NavSatSvHealth::Unhealthy);
    assert_eq!(NavSatSvHealth::from(UbloxHealth::Unknown(0)), NavSatSvHealth::Unknown);
    assert_eq!(NavSatSvHealth::from(UbloxHealth::Unknown(3)), NavSatSvHealth::Unknown);
    assert_eq!(NavSatSvHealth::from(UbloxHealth::Unknown(255)), NavSatSvHealth::Unknown);
}

#[test]
fn orbit_source_is_taken_over() {
    assert_eq!(
        NavSatOrbitSource::from(UbloxOrbit::NoInfoAvailable),
        NavSatOrbitSource::NoInfoAvailable
    );
    assert_eq!(NavSatOrbitSource::from(UbloxOrbit::Ephemeris), NavSatOrbitSource::Ephemeris);
    assert_eq!(NavSatOrbitSource::from(UbloxOrbit::Almanac), NavSatOrbitSource::Almanac);
    assert_eq!(
        NavSatOrbitSource::from(UbloxOrbit::AssistNowOffline),
        NavSatOrbitSource::AssistNowOffline
    );
    assert_eq!(
        NavSatOrbitSource::from(UbloxOrbit::AssistNowAutonomous),
        NavSatOrbitSource::AssistNowAutonomous
    );
}

#[test]
fn other_orbit_source_keeps_its_code() {
    for code in [0u8, 1, 4, 5, 6, 7, 200, 255] {
        assert_eq!(
            NavSatOrbitSource::from(UbloxOrbit::Other(code)),
            NavSatOrbitSource::Other(code)
        );
    }
}

#[test]
fn flags_of_the_receiver_are_taken_over() {
    // quality 4, used, health 1, orbit source 6
    let flags = ublox::NavSatSvFlags::from(0x4 | 0x8 | (1 << 4) | (6 << 8));
    assert_eq!(NavSatQualityIndicator::from(flags.quality_ind()), NavSatQualityIndicator::CodeLock);
    assert_eq!(NavSatSvHealth::from(flags.health()), NavSatSvHealth::Healthy);
    assert_eq!(NavSatOrbitSource::from(flags.orbit_source()), NavSatOrbitSource::Other(6));
    let flags = ublox::NavSatSvFlags::from(0x7 | (2 << 4) | (2 << 8));
    assert_eq!(
        NavSatQualityIndicator::from(flags.quality_ind()),
        NavSatQualityIndicator::CarrierLock
    );
    assert_eq!(NavSatSvHealth::from(flags.health()), NavSatSvHealth::Unhealthy);
    assert_eq!(NavSatOrbitSource::from(flags.orbit_source()), NavSatOrbitSource::Almanac);
    let flags = ublox::NavSatSvFlags::from(0);
    assert_eq!(NavSatSvHealth::from(flags.health()), NavSatSvHealth::Unknown);
}
