use mars_raw_utils::lmst::{get_lmst, get_lmst_at, lmst_from_reading};
use mars_raw_utils::time::unix_millis_from_reading;
use mars_raw_utils::time::{get_time, Hms, TimeSystem};

#[test]
fn lmst_at_landing() {
    let t = get_lmst_at(1_613_681_029_000);
    assert_eq!(t.sol, 0);
    assert_eq!(t.msd_millis, 4_519_104_218_051);
    assert_eq!(t.mtc_hms, Hms { hours: 10, minutes: 43, millis: 38_051 });
    assert_eq!(t.mission_time_hms, Hms { hours: 15, minutes: 53, millis: 26_051 });
    assert_eq!(t.time_system, TimeSystem::LMST);
}

#[test]
fn lmst_later_sol() {
    let t = get_lmst_at(1_700_000_000_000);
    assert_eq!(t.sol, 972);
    assert_eq!(t.mission_time_millis, 85_852_197);
}

#[test]
fn hybrid_time_and_negative_offset() {
    let t = get_time(1_613_681_029_000, 10, 0, TimeSystem::HLST);
    assert_eq!(t.sol, 52_314);
    assert_eq!(t.mission_time_millis, t.mtc_millis);
    let before = get_time(-1000, 0, 0, TimeSystem::LMST);
    assert_eq!(before.sol, 34_126);
    assert_eq!(before.mtc_millis, 25_560_353);
}

#[test]
fn lmst_now_is_after_landing() {
    let t = get_lmst().expect("clock");
    assert!(t.sol > 900);
}

#[test]
fn clock_readings() {
    assert_eq!(unix_millis_from_reading(Some(1_613_681_029_000)), Some(1_613_681_029_000));
    assert_eq!(unix_millis_from_reading(Some(i64::MAX as u128 + 1)), None);
    assert_eq!(unix_millis_from_reading(None), None);
    assert_eq!(lmst_from_reading(Some(1_613_681_029_000)).map(|t| t.sol), Some(0));
    assert!(lmst_from_reading(Some(u128::MAX)).is_none());
}
