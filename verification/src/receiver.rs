//! What the u-blox receiver reports, taken into the library's own types.
//!
//! The `ublox` crate describes a fix and the state of a satellite with enums
//! of its own.  Verus does not look inside them, so each is first turned into
//! a plain value by a small trusted function, and the library's rules (which
//! value a code degrades to) are applied to that plain value in verified
//! code.

use vstd::prelude::*;
use vstd::std_specs::convert::FromSpecImpl;
use ublox::GpsFix as UbloxGpsFix;
use ublox::NavSatOrbitSource as UbloxOrbitSource;
use ublox::NavSatQualityIndicator as UbloxQualityIndicator;
use ublox::NavSatSvHealth as UbloxSvHealth;
use crate::gps::GpsFix;
use crate::navsat::{NavSatOrbitSource, NavSatQualityIndicator, NavSatSvHealth};

verus! {

/// `ublox::GpsFix`, the kind of fix in a navigation report.
#[verifier::external_type_specification]
#[verifier::external_body]
pub struct ExUbloxGpsFix(UbloxGpsFix);

/// `ublox::NavSatQualityIndicator`, how well a satellite is tracked.
#[verifier::external_type_specification]
#[verifier::external_body]
pub struct ExUbloxQualityIndicator(UbloxQualityIndicator);

/// `ublox::NavSatSvHealth`, whether a satellite is fit for use.
#[verifier::external_type_specification]
#[verifier::external_body]
pub struct ExUbloxSvHealth(UbloxSvHealth);

/// `ublox::NavSatOrbitSource`, where the orbit of a satellite is known from.
#[verifier::external_type_specification]
#[verifier::external_body]
pub struct ExUbloxOrbitSource(UbloxOrbitSource);

/// The number that `ublox::GpsFix` gives a fix: `0` to `5` for the six named
/// kinds in the order of `GpsFix`, and `n` for its variant `Reserved`*n*.
pub uninterp spec fn receiver_fix_code(fix: UbloxGpsFix) -> u8;

/// The position of a variant of `ublox::NavSatQualityIndicator` among its
/// six variants, which stand in the order of `NavSatQualityIndicator`.
pub uninterp spec fn receiver_quality_code(quality: UbloxQualityIndicator) -> u8;

/// The state of health that a `ublox::NavSatSvHealth` names.
pub uninterp spec fn receiver_health(health: UbloxSvHealth) -> NavSatSvHealth;

/// The orbit source that a `ublox::NavSatOrbitSource` names, with its code
/// where it is `Other`.
pub uninterp spec fn receiver_orbit_source(source: UbloxOrbitSource) -> NavSatOrbitSource;

/// Casts a `ublox::GpsFix` to its `repr(u8)` discriminant.  The crate
/// declares the enum with one variant for each of the 256 values of a byte,
/// so the cast loses nothing.
#[verifier::external_body]
fn fix_code(fix: UbloxGpsFix) -> (code: u8)
    ensures
        code == receiver_fix_code(fix),
{
    fix as u8
}

/// Casts a `ublox::NavSatQualityIndicator` to its discriminant.  The enum
/// has six variants without fields or explicit discriminants, so the cast
/// gives the position of the variant, `0` to `5`.
#[verifier::external_body]
fn quality_code(quality: UbloxQualityIndicator) -> (code: u8)
    ensures
        code == receiver_quality_code(quality),
{
    quality as u8
}

/// Tells the three variants of `ublox::NavSatSvHealth` apart.  The code that
/// its `Unknown` carries is dropped.
#[verifier::external_body]
fn health_of(health: UbloxSvHealth) -> (h: NavSatSvHealth)
    ensures
        h == receiver_health(health),
{
    match health {
        UbloxSvHealth::Healthy => NavSatSvHealth::Healthy,
        UbloxSvHealth::Unhealthy => NavSatSvHealth::Unhealthy,
        UbloxSvHealth::Unknown(_) => NavSatSvHealth::Unknown,
    }
}

/// Tells the six variants of `ublox::NavSatOrbitSource` apart.  The code
/// that its `Other` carries is kept.
#[verifier::external_body]
fn orbit_source_of(source: UbloxOrbitSource) -> (s: NavSatOrbitSource)
    ensures
        s == receiver_orbit_source(source),
{
    match source {
        UbloxOrbitSource::NoInfoAvailable => NavSatOrbitSource::NoInfoAvailable,
        UbloxOrbitSource::Ephemeris => NavSatOrbitSource::Ephemeris,
        UbloxOrbitSource::Almanac => NavSatOrbitSource::Almanac,
        UbloxOrbitSource::AssistNowOffline => NavSatOrbitSource::AssistNowOffline,
        UbloxOrbitSource::AssistNowAutonomous => NavSatOrbitSource::AssistNowAutonomous,
        UbloxOrbitSource::Other(code) => NavSatOrbitSource::Other(code),
    }
}

impl From<UbloxGpsFix> for GpsFix {
    /// The quality of a fix as the receiver reports it.  A kind of fix that
    /// the library does not know degrades to `NoFix`.
    fn from(value: UbloxGpsFix) -> (fix: GpsFix) {
        GpsFix::from(fix_code(value))
    }
}

impl FromSpecImpl<UbloxGpsFix> for GpsFix {
    open spec fn obeys_from_spec() -> bool {
        true
    }

    open spec fn from_spec(value: UbloxGpsFix) -> GpsFix {
        GpsFix::spec_from_code(receiver_fix_code(value))
    }
}

impl From<UbloxQualityIndicator> for NavSatQualityIndicator {
    /// The quality of a signal as the receiver reports it.
    fn from(value: UbloxQualityIndicator) -> (quality: NavSatQualityIndicator) {
        NavSatQualityIndicator::from_code(quality_code(value))
    }
}

impl FromSpecImpl<UbloxQualityIndicator> for NavSatQualityIndicator {
    open spec fn obeys_from_spec() -> bool {
        true
    }

    open spec fn from_spec(value: UbloxQualityIndicator) -> NavSatQualityIndicator {
        NavSatQualityIndicator::spec_from_code(receiver_quality_code(value))
    }
}

impl From<UbloxSvHealth> for NavSatSvHealth {
    /// The health of a satellite as the receiver reports it.
    fn from(value: UbloxSvHealth) -> (health: NavSatSvHealth) {
        health_of(value)
    }
}

impl FromSpecImpl<UbloxSvHealth> for NavSatSvHealth {
    open spec fn obeys_from_spec() -> bool {
        true
    }

    open spec fn from_spec(value: UbloxSvHealth) -> NavSatSvHealth {
        receiver_health(value)
    }
}

impl From<UbloxOrbitSource> for NavSatOrbitSource {
    /// The source of an orbit as the receiver reports it.
    fn from(value: UbloxOrbitSource) -> (source: NavSatOrbitSource) {
        orbit_source_of(value)
    }
}

impl FromSpecImpl<UbloxOrbitSource> for NavSatOrbitSource {
    open spec fn obeys_from_spec() -> bool {
        true
    }

    open spec fn from_spec(value: UbloxOrbitSource) -> NavSatOrbitSource {
        receiver_orbit_source(value)
    }
}

} // verus!
