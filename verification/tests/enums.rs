use tetra_mm::mm_enums::{EnergySavingMode, StatusDownlink, D_MM_STATUS_PDU_TYPE};

#[test]
fn energy_saving_mode_values() {
    assert_eq!(EnergySavingMode::StayAlive.into_raw(), 0);
    assert_eq!(EnergySavingMode::Eg1.into_raw(), 1);
    assert_eq!(EnergySavingMode::Eg7.into_raw(), 7);
    for v in 0..8u64 {
        let m = EnergySavingMode::try_from_raw(v).unwrap();
        assert_eq!(m.into_raw(), v);
    }
    assert_eq!(EnergySavingMode::try_from_raw(8), None);
}

#[test]
fn status_downlink_values() {
    assert_eq!(StatusDownlink::ChangeOfEnergySavingModeRequest.into_raw(), 1);
    assert_eq!(StatusDownlink::ChangeOfEnergySavingModeResponse.into_raw(), 2);
    assert_eq!(StatusDownlink::DualWatchModeResponse.into_raw(), 3);
    assert_eq!(StatusDownlink::TerminatingDualWatchModeResponse.into_raw(), 4);
    assert_eq!(StatusDownlink::ChangeOfDualWatchModeRequest.into_raw(), 5);
    assert_eq!(StatusDownlink::try_from_raw(0), None);
    assert_eq!(StatusDownlink::try_from_raw(6), None);
    assert_eq!(StatusDownlink::try_from_raw(63), None);
    for v in 1..6u64 {
        assert_eq!(StatusDownlink::try_from_raw(v).unwrap().into_raw(), v);
    }
}

#[test]
fn d_mm_status_pdu_type_value() {
    assert_eq!(D_MM_STATUS_PDU_TYPE, 12);
}
