//! Satellite information: what the receiver reports of each satellite it
//! tracks.  It is kept for the ground log and never transmitted.

use vstd::prelude::*;

verus! {

/// The largest number of satellites that a record keeps.
pub const MAX_SATELLITES: usize = 32;

/// How well the signal of a satellite is tracked.
#[derive(Debug, Clone, Copy, PartialEq, Eq, Structural)]
pub enum NavSatQualityIndicator {
    NoSignal,
    Searching,
    SignalAcquired,
    SignalDetected,
    CodeLock,
    CarrierLock,
}

/// Where the orbit of a satellite is known from.
#[derive(Debug, Clone, Copy, PartialEq, Eq, Structural)]
pub enum NavSatOrbitSource {
    NoInfoAvailable,
    Ephemeris,
    Almanac,
    AssistNowOffline,
    AssistNowAutonomous,
    /// A source outside the known ones, with the code the receiver gave.
    Other(u8),
}

/// Whether a satellite is fit for use.
#[derive(Debug, Clone, Copy, PartialEq, Eq, Structural)]
pub enum NavSatSvHealth {
    Healthy,
    Unhealthy,
    Unknown,
}

impl NavSatQualityIndicator {
    /// The number that stands for this tier.
    pub open spec fn spec_code(self) -> u8 {
        match self {
            NavSatQualityIndicator::NoSignal => 0,
            NavSatQualityIndicator::Searching => 1,
            NavSatQualityIndicator::SignalAcquired => 2,
            NavSatQualityIndicator::SignalDetected => 3,
            NavSatQualityIndicator::CodeLock => 4,
            NavSatQualityIndicator::CarrierLock => 5,
        }
    }

    /// The tier that `code` stands for; a code that stands for none is read
    /// as `NoSignal`.
    pub open spec fn spec_from_code(code: u8) -> NavSatQualityIndicator {
        if code == 1 {
            NavSatQualityIndicator::Searching
        } else if code == 2 {
            NavSatQualityIndicator::SignalAcquired
        } else if code == 3 {
            NavSatQualityIndicator::SignalDetected
        } else if code == 4 {
            NavSatQualityIndicator::CodeLock
        } else if code == 5 {
            NavSatQualityIndicator::CarrierLock
        } else {
            NavSatQualityIndicator::NoSignal
        }
    }

    /// The number that stands for this tier.
    #[verifier::when_used_as_spec(spec_code)]
    pub fn code(self) -> (c: u8)
        ensures
            c == self.spec_code(),
            c <= 5,
    {
        match self {
            NavSatQualityIndicator::NoSignal => 0,
            NavSatQualityIndicator::Searching => 1,
            NavSatQualityIndicator::SignalAcquired => 2,
            NavSatQualityIndicator::SignalDetected => 3,
            NavSatQualityIndicator::CodeLock => 4,
            NavSatQualityIndicator::CarrierLock => 5,
        }
    }

    /// Reads a tier from its code.  Never fails: a code that stands for no
    /// tier is read as `NoSignal`.
    #[verifier::when_used_as_spec(spec_from_code)]
    pub fn from_code(code: u8) -> (q: NavSatQualityIndicator)
        ensures
            q == NavSatQualityIndicator::spec_from_code(code),
            code <= 5 ==> q.spec_code() == code,
            code > 5 ==> q == NavSatQualityIndicator::NoSignal,
    {
        match code {
            1 => NavSatQualityIndicator::Searching,
            2 => NavSatQualityIndicator::SignalAcquired,
            3 => NavSatQualityIndicator::SignalDetected,
            4 => NavSatQualityIndicator::CodeLock,
            5 => NavSatQualityIndicator::CarrierLock,
            _ => NavSatQualityIndicator::NoSignal,
        }
    }
}

impl Default for NavSatQualityIndicator {
    fn default() -> (q: NavSatQualityIndicator)
        ensures
            q == NavSatQualityIndicator::NoSignal,
    {
        NavSatQualityIndicator::NoSignal
    }
}

impl Default for NavSatOrbitSource {
    fn default() -> (s: NavSatOrbitSource)
        ensures
            s == NavSatOrbitSource::NoInfoAvailable,
    {
        NavSatOrbitSource::NoInfoAvailable
    }
}

impl NavSatSvHealth {
    /// The number that stands for this state of health.
    pub open spec fn spec_code(self) -> u8 {
        match self {
            NavSatSvHealth::Healthy => 0,
            NavSatSvHealth::Unhealthy => 1,
            NavSatSvHealth::Unknown => 3,
        }
    }

    /// The number that stands for this state of health.
    #[verifier::when_used_as_spec(spec_code)]
    pub fn code(self) -> (c: u8)
        ensures
            c == self.spec_code(),
    {
        match self {
            NavSatSvHealth::Healthy => 0,
            NavSatSvHealth::Unhealthy => 1,
            NavSatSvHealth::Unknown => 3,
        }
    }
}

impl Default for NavSatSvHealth {
    fn default() -> (h: NavSatSvHealth)
        ensures
            h == NavSatSvHealth::Unknown,
    {
        NavSatSvHealth::Unknown
    }
}

/// The flags of one satellite.
#[derive(Debug, Clone, Copy, PartialEq, Eq, Structural)]
pub struct NavSatSvFlags {
    pub quality_ind: NavSatQualityIndicator,
    pub sv_used: bool,
    pub health: NavSatSvHealth,
    pub differential_correction_available: bool,
    pub smoothed: bool,
    pub orbit_sources: NavSatOrbitSource,
    pub ephemeris_available: bool,
    pub almanac_available: bool,
    pub an_offline_available: bool,
    pub an_auto_available: bool,
    pub sbas_corr: bool,
    pub rtcm_corr: bool,
    pub slas_corr: bool,
    pub spartn_corr: bool,
    pub pr_corr: bool,
    pub cr_corr: bool,
    pub do_corr: bool,
}

impl NavSatSvFlags {
    /// The flags of a satellite of which nothing is known: no signal, health
    /// unknown, no orbit, and every flag down.
    pub open spec fn blank() -> NavSatSvFlags {
        NavSatSvFlags {
            quality_ind: NavSatQualityIndicator::NoSignal,
            sv_used: false,
            health: NavSatSvHealth::Unknown,
            differential_correction_available: false,
            smoothed: false,
            orbit_sources: NavSatOrbitSource::NoInfoAvailable,
            ephemeris_available: false,
            almanac_available: false,
            an_offline_available: false,
            an_auto_available: false,
            sbas_corr: false,
            rtcm_corr: false,
            slas_corr: false,
            spartn_corr: false,
            pr_corr: false,
            cr_corr: false,
            do_corr: false,
        }
    }
}

impl Default for NavSatSvFlags {
    fn default() -> (f: NavSatSvFlags)
        ensures
            f == NavSatSvFlags::blank(),
    {
        NavSatSvFlags {
            quality_ind: NavSatQualityIndicator::NoSignal,
            sv_used: false,
            health: NavSatSvHealth::Unknown,
            differential_correction_available: false,
            smoothed: false,
            orbit_sources: NavSatOrbitSource::NoInfoAvailable,
            ephemeris_available: false,
            almanac_available: false,
            an_offline_available: false,
            an_auto_available: false,
            sbas_corr: false,
            rtcm_corr: false,
            slas_corr: false,
            spartn_corr: false,
            pr_corr: false,
            cr_corr: false,
            do_corr: false,
        }
    }
}

/// What the receiver reports of one satellite.
#[derive(Debug, Clone, Copy, PartialEq, Eq, Structural)]
pub struct NavSatSvInfo {
    /// The constellation the satellite belongs to.
    pub gnss_id: u8,
    /// The satellite within its constellation.
    pub sv_id: u8,
    /// Carrier-to-noise ratio.
    pub cno: u8,
    /// Elevation.
    pub elev: i8,
    /// Azimuth.
    pub azim: i16,
    /// Pseudorange residual.
    pub pr_res: i16,
    pub flags: NavSatSvFlags,
}

impl Default for NavSatSvInfo {
    fn default() -> (s: NavSatSvInfo)
        ensures
            s == (NavSatSvInfo {
                gnss_id: 0,
                sv_id: 0,
                cno: 0,
                elev: 0,
                azim: 0,
                pr_res: 0,
                flags: NavSatSvFlags::blank(),
            }),
    {
        NavSatSvInfo {
            gnss_id: 0,
            sv_id: 0,
            cno: 0,
            elev: 0,
            azim: 0,
            pr_res: 0,
            flags: NavSatSvFlags::default(),
        }
    }
}

/// The satellites of one report of the receiver, at most 32 of them.
#[derive(Debug, Clone, Copy, PartialEq, Eq)]
pub struct NavSat {
    /// Time of week of the report, in milliseconds.
    pub itow: u32,
    /// Version of the report.
    pub version: u8,
    /// How many satellites the record keeps.
    pub num_svs: u8,
    /// The satellites, in the order of the report; the slots after the last
    /// one are empty.
    pub svs: [Option<NavSatSvInfo>; 32],
}

/// What slot `i` of a record holds that was made from `entries`: entry `i`
/// while there is one, and nothing after the last.
pub open spec fn kept(entries: Seq<NavSatSvInfo>, i: int) -> Option<NavSatSvInfo> {
    if i < entries.len() {
        Some(entries[i])
    } else {
        None
    }
}

impl NavSat {
    /// The first `num_svs` slots are filled and no other.
    pub open spec fn wf(&self) -> bool {
        &&& self.num_svs <= MAX_SATELLITES
        &&& forall|i: int|
            0 <= i < MAX_SATELLITES ==> (#[trigger] self.svs[i] is Some <==> i < self.num_svs)
    }

    /// The satellites that the record keeps, in order.
    pub open spec fn entries(&self) -> Seq<NavSatSvInfo> {
        Seq::new(self.num_svs as nat, |i: int| self.svs[i]->Some_0)
    }

    /// Keeps the first 32 of `entries`, in their order.  The entries after
    /// them are dropped, which is no error.
    pub fn from_entries(itow: u32, version: u8, entries: &[NavSatSvInfo]) -> (sat: NavSat)
        ensures
            sat.itow == itow,
            sat.version == version,
            sat.num_svs == (if entries@.len() < MAX_SATELLITES {
                entries@.len()
            } else {
                MAX_SATELLITES as nat
            }),
            forall|i: int| 0 <= i < MAX_SATELLITES ==> #[trigger] sat.svs[i] == kept(entries@, i),
            sat.entries() == entries@.take(sat.num_svs as int),
            sat.wf(),
    {
        let mut svs: [Option<NavSatSvInfo>; 32] = [None; 32];
        let mut i: usize = 0;
        while i < MAX_SATELLITES && i < entries.len()
            invariant
                i <= MAX_SATELLITES,
                i <= entries@.len(),
                forall|j: int| 0 <= j < i ==> #[trigger] svs[j] == Some(entries@[j]),
                forall|j: int| i <= j < MAX_SATELLITES ==> #[trigger] svs[j] is None,
            decreases MAX_SATELLITES - i,
        {
            svs[i] = Some(entries[i]);
            i += 1;
        }
        let sat = NavSat { itow, version, num_svs: i as u8, svs };
        proof {
            assert(sat.entries() =~= entries@.take(sat.num_svs as int));
        }
        sat
    }

    /// The satellite in slot `index`, if the record keeps one there.
    pub fn get(&self, index: usize) -> (r: Option<NavSatSvInfo>)
        ensures
            r == (if index < MAX_SATELLITES {
                self.svs[index as int]
            } else {
                None::<NavSatSvInfo>
            }),
    {
        if index < MAX_SATELLITES {
            self.svs[index]
        } else {
            None
        }
    }
}

impl Default for NavSat {
    fn default() -> (sat: NavSat)
        ensures
            sat.itow == 0,
            sat.version == 0,
            sat.num_svs == 0,
            forall|i: int| 0 <= i < MAX_SATELLITES ==> #[trigger] sat.svs[i] is None,
            sat.wf(),
    {
        NavSat { itow: 0, version: 0, num_svs: 0, svs: [None; 32] }
    }
}

} // verus!
