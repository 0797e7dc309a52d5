//! The mission clock of the Mars 2020 rover.
use vstd::prelude::*;
use crate::time::{clock_reading, get_time, mission_time_at, unix_millis_from_reading, MissionTime, TimeSystem};

verus! {

/// Sols from the origin of the Mars sol date to the mission's sol 0.
pub const M2020_SOL_OFFSET: i64 = -52303;

/// Longitude of the landing site, in thousandths of a degree east.
pub const M2020_LONGITUDE_MDEG: i64 = 77_450;

/// The rover's local mean solar time at Unix time `epoch_millis`.
pub fn get_lmst_at(epoch_millis: i64) -> (r: MissionTime)
    ensures
        r == mission_time_at(epoch_millis as int, M2020_SOL_OFFSET as int, M2020_LONGITUDE_MDEG as int, TimeSystem::LMST),
{
    get_time(epoch_millis, M2020_SOL_OFFSET, M2020_LONGITUDE_MDEG, TimeSystem::LMST)
}

/// The rover's local mean solar time at a clock reading in milliseconds
/// since the Unix epoch; `None` when there is no reading or it does not fit
/// in `i64`.
pub fn lmst_from_reading(reading: Option<u128>) -> (r: Option<MissionTime>)
    ensures
        r == (match reading {
            Some(ms) => if ms <= i64::MAX {
                Some(mission_time_at(ms as int, M2020_SOL_OFFSET as int, M2020_LONGITUDE_MDEG as int, TimeSystem::LMST))
            } else {
                None::<MissionTime>
            },
            None => None::<MissionTime>,
        }),
{
    match unix_millis_from_reading(reading) {
        Some(ms) => Some(get_lmst_at(ms)),
        None => None,
    }
}

/// The rover's local mean solar time now; `None` when the system clock has
/// no usable reading.
pub fn get_lmst() -> (r: Option<MissionTime>)
    ensures
        r matches Some(t) ==> exists|ms: i64| t == #[trigger] mission_time_at(
            ms as int,
            M2020_SOL_OFFSET as int,
            M2020_LONGITUDE_MDEG as int,
            TimeSystem::LMST,
        ),
{
    let reading = clock_reading();
    let r = lmst_from_reading(reading);
    proof {
        if let Some(ms) = reading {
            if ms <= i64::MAX {
                let m = ms as i64;
                assert(r == Some(mission_time_at(m as int, M2020_SOL_OFFSET as int, M2020_LONGITUDE_MDEG as int, TimeSystem::LMST)));
            }
        }
    }
    r
}

} // verus!
