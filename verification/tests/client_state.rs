use tetra_mm::class_of_ms::ClassOfMs;
use tetra_mm::client_state::{ClientMgrErr, MmClientMgr, MmClientProperties, MmClientState};
use tetra_mm::mm_enums::EnergySavingMode;
use tetra_mm::telemetry::{TelemetryEvent, TelemetrySink};

fn mgr_with_sink() -> MmClientMgr {
    MmClientMgr::new(Some(TelemetrySink::new()))
}

#[test]
fn new_properties_are_fresh() {
    let p = MmClientProperties::new(1234);
    assert_eq!(p.issi, 1234);
    assert_eq!(p.state, MmClientState::Unknown);
    assert!(p.groups.is_empty());
    assert_eq!(p.energy_saving_mode, EnergySavingMode::StayAlive);
    assert_eq!(p.class_of_ms, None);
}

#[test]
fn new_registry_is_empty() {
    let mut mgr = mgr_with_sink();
    assert!(!mgr.client_is_known(1));
    assert!(mgr.get_client_by_issi(1).is_none());
    assert!(mgr.take_telemetry_events().is_empty());
}

#[test]
fn register_attached_and_unattached() {
    let mut mgr = mgr_with_sink();
    assert_eq!(mgr.try_register_client(100, true).unwrap(), true);
    assert_eq!(mgr.try_register_client(200, false).unwrap(), true);
    assert!(mgr.client_is_known(100));
    assert!(mgr.client_is_known(200));
    assert!(!mgr.client_is_known(300));
    let a = mgr.get_client_by_issi(100).unwrap();
    assert_eq!(a.issi, 100);
    assert_eq!(a.state, MmClientState::Attached);
    let b = mgr.get_client_by_issi(200).unwrap();
    assert_eq!(b.state, MmClientState::Unknown);
    assert!(b.groups.is_empty());
    let events = mgr.take_telemetry_events();
    assert_eq!(events.len(), 2);
    assert!(matches!(events[0], TelemetryEvent::MsRegistration { issi: 100 }));
    assert!(matches!(events[1], TelemetryEvent::MsRegistration { issi: 200 }));
    assert!(mgr.take_telemetry_events().is_empty());
}

#[test]
fn registering_again_discards_previous_state() {
    let mut mgr = mgr_with_sink();
    mgr.try_register_client(7, true).unwrap();
    mgr.client_group_attach(7, 9000, true).unwrap();
    mgr.set_client_energy_saving_mode(7, EnergySavingMode::Eg2).unwrap();
    mgr.set_client_class_of_ms(7, Some(ClassOfMs::from_raw(0x123456))).unwrap();
    mgr.try_register_client(7, false).unwrap();
    let c = mgr.get_client_by_issi(7).unwrap();
    assert_eq!(c.state, MmClientState::Unknown);
    assert!(c.groups.is_empty());
    assert_eq!(c.energy_saving_mode, EnergySavingMode::StayAlive);
    assert_eq!(c.class_of_ms, None);
}

#[test]
fn setters_change_one_field() {
    let mut mgr = mgr_with_sink();
    mgr.try_register_client(5, false).unwrap();
    mgr.take_telemetry_events();
    assert!(mgr.set_client_state(5, MmClientState::Detached).is_ok());
    assert!(mgr.set_client_energy_saving_mode(5, EnergySavingMode::Eg5).is_ok());
    let class = ClassOfMs::from_raw(0xA5C3B6);
    assert!(mgr.set_client_class_of_ms(5, Some(class)).is_ok());
    let c = mgr.get_client_by_issi(5).unwrap();
    assert_eq!(c.issi, 5);
    assert_eq!(c.state, MmClientState::Detached);
    assert_eq!(c.energy_saving_mode, EnergySavingMode::Eg5);
    assert_eq!(c.class_of_ms, Some(class));
    assert!(mgr.set_client_class_of_ms(5, None).is_ok());
    assert_eq!(mgr.get_client_by_issi(5).unwrap().class_of_ms, None);
    assert!(mgr.take_telemetry_events().is_empty());
}

#[test]
fn setters_on_unknown_client_fail() {
    let mut mgr = mgr_with_sink();
    assert_eq!(
        mgr.set_client_state(42, MmClientState::Attached),
        Err(ClientMgrErr::ClientNotFound { issi: 42 })
    );
    assert_eq!(
        mgr.set_client_energy_saving_mode(42, EnergySavingMode::Eg1),
        Err(ClientMgrErr::ClientNotFound { issi: 42 })
    );
    assert_eq!(
        mgr.set_client_class_of_ms(42, None),
        Err(ClientMgrErr::ClientNotFound { issi: 42 })
    );
    assert!(!mgr.client_is_known(42));
}

#[test]
fn remove_client_returns_its_properties() {
    let mut mgr = mgr_with_sink();
    mgr.try_register_client(11, true).unwrap();
    mgr.client_group_attach(11, 500, true).unwrap();
    mgr.take_telemetry_events();
    let removed = mgr.remove_client(11).unwrap();
    assert_eq!(removed.issi, 11);
    assert_eq!(removed.state, MmClientState::Attached);
    assert!(removed.groups.contains(&500));
    assert!(!mgr.client_is_known(11));
    let events = mgr.take_telemetry_events();
    assert_eq!(events.len(), 1);
    assert!(matches!(events[0], TelemetryEvent::MsDeregistration { issi: 11 }));
}

#[test]
fn remove_unknown_client_gives_none_and_no_event() {
    let mut mgr = mgr_with_sink();
    assert!(mgr.remove_client(11).is_none());
    assert!(mgr.take_telemetry_events().is_empty());
}

#[test]
fn register_then_remove_gives_fresh_record() {
    let mut mgr = mgr_with_sink();
    mgr.try_register_client(3, false).unwrap();
    let r = mgr.remove_client(3).unwrap();
    assert_eq!(r.issi, 3);
    assert_eq!(r.state, MmClientState::Unknown);
    assert!(r.groups.is_empty());
    assert_eq!(r.energy_saving_mode, EnergySavingMode::StayAlive);
    assert_eq!(r.class_of_ms, None);
    assert!(!mgr.client_is_known(3));
}

#[test]
fn group_attach_and_detach() {
    let mut mgr = mgr_with_sink();
    mgr.try_register_client(21, true).unwrap();
    mgr.take_telemetry_events();
    assert_eq!(mgr.client_group_attach(21, 1000, true), Ok(true));
    assert_eq!(mgr.client_group_attach(21, 1000, true), Ok(false));
    assert_eq!(mgr.client_group_attach(21, 2000, true), Ok(true));
    {
        let c = mgr.get_client_by_issi(21).unwrap();
        assert_eq!(c.groups.len(), 2);
        assert!(c.groups.contains(&1000));
        assert!(c.groups.contains(&2000));
    }
    let events = mgr.take_telemetry_events();
    assert_eq!(events.len(), 3);
    match &events[0] {
        TelemetryEvent::MsGroupAttach { issi, gssis } => {
            assert_eq!(*issi, 21);
            assert_eq!(gssis, &vec![1000]);
        }
        other => panic!("unexpected event {:?}", other),
    }
    assert_eq!(mgr.client_group_attach(21, 1000, false), Ok(true));
    assert_eq!(mgr.client_group_attach(21, 1000, false), Ok(false));
    let c = mgr.get_client_by_issi(21).unwrap();
    assert!(!c.groups.contains(&1000));
    assert!(c.groups.contains(&2000));
    // Detaching sends no event.
    assert!(mgr.take_telemetry_events().is_empty());
}

#[test]
fn attach_then_detach_restores_groups() {
    let mut mgr = mgr_with_sink();
    mgr.try_register_client(8, true).unwrap();
    mgr.client_group_attach(8, 1, true).unwrap();
    mgr.client_group_attach(8, 2, true).unwrap();
    mgr.client_group_attach(8, 3, false).unwrap();
    mgr.client_group_attach(8, 3, true).unwrap();
    mgr.client_group_attach(8, 3, false).unwrap();
    let c = mgr.get_client_by_issi(8).unwrap();
    let mut groups: Vec<u32> = c.groups.iter().cloned().collect();
    groups.sort();
    assert_eq!(groups, vec![1, 2]);
}

#[test]
fn group_attach_unknown_client_fails() {
    let mut mgr = mgr_with_sink();
    assert_eq!(
        mgr.client_group_attach(99, 1000, true),
        Err(ClientMgrErr::ClientNotFound { issi: 99 })
    );
    assert_eq!(
        mgr.client_group_attach(99, 1000, false),
        Err(ClientMgrErr::ClientNotFound { issi: 99 })
    );
    assert!(mgr.take_telemetry_events().is_empty());
}

#[test]
fn detach_all_groups() {
    let mut mgr = mgr_with_sink();
    mgr.try_register_client(30, true).unwrap();
    mgr.client_group_attach(30, 10, true).unwrap();
    mgr.client_group_attach(30, 20, true).unwrap();
    mgr.client_group_attach(30, 30, true).unwrap();
    mgr.take_telemetry_events();
    assert_eq!(mgr.client_detach_all_groups(30), Ok(true));
    assert!(mgr.get_client_by_issi(30).unwrap().groups.is_empty());
    let events = mgr.take_telemetry_events();
    assert_eq!(events.len(), 1);
    match &events[0] {
        TelemetryEvent::MsGroupDetach { issi, gssis } => {
            assert_eq!(*issi, 30);
            let mut g = gssis.clone();
            g.sort();
            assert_eq!(g, vec![10, 20, 30]);
        }
        other => panic!("unexpected event {:?}", other),
    }
    // After detaching everything, an attach leaves exactly that group.
    assert_eq!(mgr.client_group_attach(30, 20, true), Ok(true));
    let c = mgr.get_client_by_issi(30).unwrap();
    assert_eq!(c.groups.len(), 1);
    assert!(c.groups.contains(&20));
}

#[test]
fn detach_all_groups_of_client_without_groups() {
    let mut mgr = mgr_with_sink();
    mgr.try_register_client(31, false).unwrap();
    mgr.take_telemetry_events();
    assert_eq!(mgr.client_detach_all_groups(31), Ok(true));
    let events = mgr.take_telemetry_events();
    assert_eq!(events.len(), 1);
    match &events[0] {
        TelemetryEvent::MsGroupDetach { issi, gssis } => {
            assert_eq!(*issi, 31);
            assert!(gssis.is_empty());
        }
        other => panic!("unexpected event {:?}", other),
    }
}

#[test]
fn detach_all_groups_of_unknown_client_fails() {
    let mut mgr = mgr_with_sink();
    assert_eq!(
        mgr.client_detach_all_groups(77),
        Err(ClientMgrErr::ClientNotFound { issi: 77 })
    );
    assert!(mgr.take_telemetry_events().is_empty());
}

#[test]
fn registry_without_telemetry() {
    let mut mgr = MmClientMgr::new(None);
    assert_eq!(mgr.try_register_client(1, true), Ok(true));
    assert_eq!(mgr.client_group_attach(1, 5, true), Ok(true));
    assert_eq!(mgr.client_detach_all_groups(1), Ok(true));
    assert!(mgr.remove_client(1).is_some());
    assert!(mgr.take_telemetry_events().is_empty());
}

#[test]
fn telemetry_sink_queues_in_order() {
    let mut sink = TelemetrySink::new();
    sink.send(TelemetryEvent::MsRegistration { issi: 1 });
    sink.send(TelemetryEvent::MsDeregistration { issi: 2 });
    let events = sink.take_events();
    assert_eq!(events.len(), 2);
    assert!(matches!(events[0], TelemetryEvent::MsRegistration { issi: 1 }));
    assert!(matches!(events[1], TelemetryEvent::MsDeregistration { issi: 2 }));
    assert!(sink.take_events().is_empty());
}
