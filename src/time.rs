//! Mars time at a given instant, on integer milliseconds: Mars sol date,
//! coordinated Mars time and local mean solar time.
use vstd::prelude::*;

verus! {

/// Milliseconds in a day, and in a sol counted in Mars milliseconds.
pub const MILLIS_PER_DAY: i64 = 86_400_000;

/// Milliseconds per hour and per minute.
pub const MILLIS_PER_HOUR: u32 = 3_600_000;
pub const MILLIS_PER_MINUTE: u32 = 60_000;

/// Unix time, in milliseconds, at which terrestrial time reaches day 4.5
/// after J2000: 10962 days after the Unix epoch, less the 69.184 s by which
/// terrestrial time runs ahead of UTC.
pub const EPOCH_SHIFT_MILLIS: i64 = 947_116_730_816;

/// Earth days per sol, in billionths.
pub const SOL_IN_NANODAYS: i64 = 1_027_491_252;

/// The Mars sol date at that instant, in Mars milliseconds
/// (44795.99904 sols).
pub const MSD_AT_SHIFT_MILLIS: i64 = 3_870_374_317_056;

/// Time systems a mission clock runs on.
#[derive(Clone, Copy, PartialEq, Eq, Structural, Debug)]
pub enum TimeSystem {
    /// Local mean solar time.
    LMST,
    /// Hybrid local solar time.
    HLST,
}

/// A time of sol split into hours, minutes and milliseconds of the minute.
#[derive(Clone, Copy, PartialEq, Eq, Structural, Debug)]
pub struct Hms {
    pub hours: u32,
    pub minutes: u32,
    pub millis: u32,
}

/// Mission time at one instant.
#[derive(Clone, Copy, PartialEq, Eq, Structural, Debug)]
pub struct MissionTime {
    /// Mission sol number.
    pub sol: i128,
    /// Mars sol date, in Mars milliseconds since its origin.
    pub msd_millis: i128,
    /// Coordinated Mars time: milliseconds into the sol at the prime meridian.
    pub mtc_millis: u32,
    pub mtc_hms: Hms,
    /// Milliseconds into the sol on the mission's clock.
    pub mission_time_millis: u32,
    pub mission_time_hms: Hms,
    pub time_system: TimeSystem,
}

/// `a` divided by `d`, rounded down.
pub open spec fn floor_div(a: int, d: int) -> int {
    a / d
}

/// `a` modulo `d`, in `[0, d)`.
pub open spec fn floor_mod(a: int, d: int) -> int {
    a % d
}

/// The Mars sol date, in Mars milliseconds, at Unix time `epoch_millis`.
pub open spec fn msd_millis_at(epoch_millis: int) -> int {
    floor_div((epoch_millis - EPOCH_SHIFT_MILLIS) * 1_000_000_000, SOL_IN_NANODAYS as int) + MSD_AT_SHIFT_MILLIS
}

/// Mars milliseconds by which local mean time at `longitude_mdeg`
/// (thousandths of a degree east) trails the sol count: (360 - lon) / 360 sol.
pub open spec fn local_lag_millis(longitude_mdeg: int) -> int {
    (360_000 - longitude_mdeg) * 240
}

pub open spec fn hms_of(ms: int) -> Hms {
    Hms {
        hours: (ms / MILLIS_PER_HOUR as int) as u32,
        minutes: ((ms % MILLIS_PER_HOUR as int) / MILLIS_PER_MINUTE as int) as u32,
        millis: (ms % MILLIS_PER_MINUTE as int) as u32,
    }
}

/// Mission time at Unix time `epoch_millis` for a mission whose sol 0 is
/// `sol_offset` sols from the Mars sol date origin, at `longitude_mdeg`.
pub open spec fn mission_time_at(epoch_millis: int, sol_offset: int, longitude_mdeg: int, ts: TimeSystem) -> MissionTime {
    let msd = msd_millis_at(epoch_millis);
    let mtc = floor_mod(msd, MILLIS_PER_DAY as int);
    let local = match ts {
        TimeSystem::LMST => msd - local_lag_millis(longitude_mdeg),
        TimeSystem::HLST => msd,
    };
    let mission = floor_mod(local, MILLIS_PER_DAY as int);
    MissionTime {
        sol: (floor_div(local, MILLIS_PER_DAY as int) + sol_offset) as i128,
        msd_millis: msd as i128,
        mtc_millis: mtc as u32,
        mtc_hms: hms_of(mtc),
        mission_time_millis: mission as u32,
        mission_time_hms: hms_of(mission),
        time_system: ts,
    }
}

fn floor_div_exec(a: i128, d: i128) -> (r: i128)
    requires
        d > 0,
        a > i128::MIN,
    ensures
        r == floor_div(a as int, d as int),
{
    if a >= 0 {
        a / d
    } else {
        let p = (-a) - 1;
        let q = p / d;
        proof {
            vstd::arithmetic::div_mod::lemma_fundamental_div_mod(p as int, d as int);
            vstd::arithmetic::div_mod::lemma_fundamental_div_mod(a as int, d as int);
            let pm = p as int % d as int;
            assert(0 <= pm < d);
            let (ai, di, pi, qi) = (a as int, d as int, p as int, q as int);
            assert(pi == di * qi + pm);
            assert(ai == di * (-qi - 1) + (di - 1 - pm)) by (nonlinear_arith)
                requires
                    pi == di * qi + pm,
                    ai == -pi - 1,
            ;
            vstd::arithmetic::div_mod::lemma_div_multiples_vanish_fancy(-q - 1, d - 1 - pm, d as int);
            assert((d * (-q - 1) + (d - 1 - pm)) / (d as int) == -q - 1);
        }
        -q - 1
    }
}

fn hms(ms: u32) -> (r: Hms)
    ensures
        r == hms_of(ms as int),
{
    Hms {
        hours: ms / MILLIS_PER_HOUR,
        minutes: (ms % MILLIS_PER_HOUR) / MILLIS_PER_MINUTE,
        millis: ms % MILLIS_PER_MINUTE,
    }
}

/// Relies on std::time::SystemTime::elapsed, called on the Unix epoch: the
/// time since then by the system clock, or `None` when the clock reads
/// earlier than the epoch.
#[verifier::external_body]
fn elapsed_since_unix_epoch() -> (r: Option<core::time::Duration>) {
    std::time::UNIX_EPOCH.elapsed().ok()
}

/// Relies on core::time::Duration::as_millis: the whole milliseconds of a duration.
pub assume_specification[ core::time::Duration::as_millis ](d: &core::time::Duration) -> u128;

/// The system clock, in milliseconds since the Unix epoch; `None` when it
/// reads earlier than the epoch.
pub fn clock_reading() -> (r: Option<u128>) {
    match elapsed_since_unix_epoch() {
        Some(d) => Some(d.as_millis()),
        None => None,
    }
}

/// A clock reading as a signed millisecond count: `None` when there is no
/// reading or it does not fit in `i64`.
pub fn unix_millis_from_reading(reading: Option<u128>) -> (r: Option<i64>)
    ensures
        r == (match reading {
            Some(ms) => if ms <= i64::MAX { Some(ms as i64) } else { None::<i64> },
            None => None::<i64>,
        }),
{
    match reading {
        Some(ms) => if ms <= i64::MAX as u128 { Some(ms as i64) } else { None },
        None => None,
    }
}

/// Mission time at Unix time `epoch_millis` for a mission whose sol 0 is
/// `sol_offset` sols after the origin of the Mars sol date, at longitude
/// `longitude_mdeg`, in thousandths of a degree east.
pub fn get_time(epoch_millis: i64, sol_offset: i64, longitude_mdeg: i64, time_system: TimeSystem) -> (r: MissionTime)
    ensures
        r == mission_time_at(epoch_millis as int, sol_offset as int, longitude_mdeg as int, time_system),
{
    let shifted: i128 = (epoch_millis as i128 - EPOCH_SHIFT_MILLIS as i128) * 1_000_000_000;
    let msd: i128 = floor_div_exec(shifted, SOL_IN_NANODAYS as i128) + MSD_AT_SHIFT_MILLIS as i128;
    let day = MILLIS_PER_DAY as i128;
    let mtc_day = floor_div_exec(msd, day);
    let mtc: i128 = msd - mtc_day * day;
    let local: i128 = match time_system {
        TimeSystem::LMST => msd - (360_000 - longitude_mdeg as i128) * 240,
        TimeSystem::HLST => msd,
    };
    let local_day = floor_div_exec(local, day);
    let mission: i128 = local - local_day * day;
    proof {
        vstd::arithmetic::div_mod::lemma_fundamental_div_mod(msd as int, day as int);
        vstd::arithmetic::div_mod::lemma_fundamental_div_mod(local as int, day as int);
    }
    MissionTime {
        sol: local_day + sol_offset as i128,
        msd_millis: msd,
        mtc_millis: mtc as u32,
        mtc_hms: hms(mtc as u32),
        mission_time_millis: mission as u32,
        mission_time_hms: hms(mission as u32),
        time_system,
    }
}

} // verus!
