use esp32framework::ble::ble_client::{
    remote_notify_check, remote_read_check, remote_write_mode, scan_interval_and_window,
    scan_outcome,
};
use esp32framework::ble::ble_connectionless::ServiceSet;
use esp32framework::ble::utils::advertised_device::{
    adv_type_is_connectable, contains_id, find_service_data, AdvType,
};
use esp32framework::ble::utils::ble_error::BleError;
use esp32framework::ble::utils::ble_id::{
    BleId, BleUuid, StandardCharacteristicId, StandardDescriptorId, StandardServiceId,
};
use esp32framework::ble::utils::ble_server_modes::{ConnectionMode, DiscoverableMode};
use esp32framework::ble::utils::connection_information::{
    disconnection_result, BleAddress, ConnectionDescription, ConnectionInformation,
};
use esp32framework::ble::utils::security::{IOCapabilities, Security};
use esp32framework::ble::utils::service::{
    find_service, Characteristic, Descriptor, Service, DESCRIPTOR_READ, DESCRIPTOR_WRITE, PROPERTY_NOTIFY,
    PROPERTY_READ, PROPERTY_WRITE,
};
use esp32framework::microcontroller_src::peripherals::PeripheralError;
use esp32framework::timer_driver::TimerDriverError;

fn uuid16_as_128(x: u16) -> [u8; 16] {
    let mut b = [0xfb, 0x34, 0x9b, 0x5f, 0x80, 0, 0, 0x80, 0, 0x10, 0, 0, 0, 0, 0, 0];
    b[12] = (x & 0xff) as u8;
    b[13] = (x >> 8) as u8;
    b
}

#[test]
fn sixteen_bit_ids_equal_their_128_bit_form() {
    let short = BleId::FromUuid16(0x180D);
    let long = BleId::FromUuid128(uuid16_as_128(0x180D));
    assert!(short == long);
    assert!(long == short);
    assert!(short != BleId::FromUuid16(0x180E));
    assert_eq!(BleUuid::Uuid16(0x180D).as_uuid128_array(), uuid16_as_128(0x180D));
}

#[test]
fn thirty_two_bit_uuids_in_the_base_uuid() {
    let arr = BleUuid::Uuid32(0x1122_3344).as_uuid128_array();
    assert_eq!(&arr[12..16], &[0x44, 0x33, 0x22, 0x11]);
    assert_eq!(&arr[0..4], &[0xfb, 0x34, 0x9b, 0x5f]);
}

#[test]
fn ids_from_standard_numbers() {
    assert!(matches!(BleId::from_standard_service(StandardServiceId(0x180F)), BleId::FromUuid16(0x180F)));
    assert!(matches!(
        BleId::from_standard_characteristic(StandardCharacteristicId(0x2A19)),
        BleId::FromUuid16(0x2A19)
    ));
    assert!(matches!(BleId::from_standard_descriptor(StandardDescriptorId(0x2902)), BleId::FromUuid16(0x2902)));
}

#[test]
fn ids_from_ble_uuids() {
    assert!(matches!(BleId::from_ble_uuid(BleUuid::Uuid16(7)), BleId::FromUuid16(7)));
    match BleId::from_ble_uuid(BleUuid::Uuid32(0x0A0B_0C0D)) {
        BleId::FromUuid128(b) => {
            assert_eq!(&b[0..4], &[0x0D, 0x0C, 0x0B, 0x0A]);
            assert!(b[4..].iter().all(|x| *x == 0));
        }
        _ => panic!("a 32-bit UUID becomes a 128-bit id"),
    }
    let bytes = [9u8; 16];
    assert!(matches!(BleId::from_ble_uuid(BleUuid::Uuid128(bytes)), BleId::FromUuid128(b) if b == bytes));
    assert!(matches!(BleId::FromUuid16(3).to_uuid(), BleUuid::Uuid16(3)));
    assert_eq!(BleId::FromUuid16(3).byte_size(), 2);
    assert_eq!(BleId::FromUuid128(bytes).byte_size(), 16);
}

#[test]
fn ids_from_names_use_the_name_based_uuid() {
    let expected = uuid::Uuid::new_v3(&uuid::Uuid::NAMESPACE_OID, b"Heart rate").into_bytes();
    match BleId::from_name("Heart rate") {
        BleId::FromUuid16(x) => assert_eq!(x, u16::from_be_bytes([expected[0], expected[1]])),
        _ => panic!("a name gives a 16-bit id"),
    }
    assert!(BleId::from_name("Heart rate") == BleId::from_name("Heart rate"));
    let mut bytes = [0u8; 16];
    bytes[0] = 0x12;
    bytes[1] = 0x34;
    assert!(matches!(BleId::from_uuid_bytes(bytes), BleId::FromUuid16(0x1234)));
}

#[test]
fn searching_ids() {
    let ids = vec![BleId::FromUuid16(1), BleId::FromUuid128(uuid16_as_128(2))];
    assert!(contains_id(&ids, &BleId::FromUuid16(2)));
    assert!(!contains_id(&ids, &BleId::FromUuid16(3)));
    let data = vec![(BleId::FromUuid16(5), 10u8), (BleId::FromUuid16(6), 11), (BleId::FromUuid16(5), 12)];
    assert_eq!(find_service_data(&data, &BleId::FromUuid16(5)), Some(0));
    assert_eq!(find_service_data(&data, &BleId::FromUuid16(6)), Some(1));
    assert_eq!(find_service_data(&data, &BleId::FromUuid16(7)), None);
}

#[test]
fn connectable_advertisements() {
    assert!(adv_type_is_connectable(&AdvType::Ind));
    assert!(adv_type_is_connectable(&AdvType::DirectInd));
    assert!(!adv_type_is_connectable(&AdvType::ScanInd));
    assert!(!adv_type_is_connectable(&AdvType::NonconnInd));
}

#[test]
fn disconnection_results() {
    assert_eq!(disconnection_result(true, Err(5)), None);
    assert_eq!(disconnection_result(false, Err(5)), Some(5));
    assert_eq!(disconnection_result(false, Ok(())), None);
}

#[test]
fn a_connection_report_copies_the_description() {
    let address = BleAddress { le_bytes: [1, 2, 3, 4, 5, 6], addr_type: 0 };
    let id_address = BleAddress { le_bytes: [6, 5, 4, 3, 2, 1], addr_type: 2 };
    let desc = ConnectionDescription {
        address,
        id_address,
        conn_handle: 7,
        interval: 24,
        timeout: 400,
        latency: 2,
        mtu: 247,
        bonded: true,
        encrypted: false,
        authenticated: true,
        sec_key_size: 16,
        rssi: Ok(-60),
    };
    let connected = ConnectionInformation::from_bleconn_desc(&desc, true, Err(531));
    assert_eq!(connected.address.le_bytes, [1, 2, 3, 4, 5, 6]);
    assert_eq!(connected.id_address.addr_type, 2);
    assert_eq!(connected.conn_handle, 7);
    assert_eq!(connected.interval, 24);
    assert_eq!(connected.timeout, 400);
    assert_eq!(connected.latency, 2);
    assert_eq!(connected.mtu, 247);
    assert!(connected.bonded && !connected.encrypted && connected.authenticated);
    assert_eq!(connected.sec_key_size, 16);
    assert_eq!(connected.rssi, Ok(-60));
    assert_eq!(connected.disconnection_result, None);
    let gone = ConnectionInformation::from_bleconn_desc(&ConnectionDescription { rssi: Err(5), ..desc }, false, Err(531));
    assert_eq!(gone.disconnection_result, Some(531));
    assert_eq!(gone.rssi, Err(5));
}

#[test]
fn server_mode_codes() {
    assert_eq!(DiscoverableMode::NonDiscoverable.get_code(), 0);
    assert_eq!(DiscoverableMode::GeneralDiscoverable(32, 64).get_code(), 2);
    assert_eq!(ConnectionMode::NonConnectable.get_code(), 0);
    assert_eq!(ConnectionMode::UndirectedConnectable.get_code(), 2);
}

#[test]
fn error_codes_of_the_ble_stack() {
    assert!(matches!(BleError::from_code(258, String::new()), BleError::NotReadable));
    assert!(matches!(BleError::from_code(259, String::new()), BleError::NotWritable));
    assert!(matches!(BleError::from_code(0xffff, String::new()), BleError::NotFound));
    assert!(matches!(BleError::from_code(14, String::new()), BleError::AlreadyConnected));
    assert!(matches!(BleError::from_code(3, String::new()), BleError::InvalidParameters));
    assert!(matches!(BleError::from_code(4, String::new()), BleError::ServiceDoesNotFit));
    assert!(matches!(BleError::from_code(7, String::new()), BleError::DeviceNotFound));
    assert!(matches!(BleError::from_code(13, String::new()), BleError::TimeOut));
    match BleError::from_code(99, "boom".to_string()) {
        BleError::Code(99, m) => assert_eq!(m, "boom"),
        other => panic!("unexpected {:?}", other),
    }
}

#[test]
fn errors_read_in_context() {
    assert!(matches!(BleError::from_service_context(0xffff, String::new()), BleError::ServiceNotFound));
    assert!(matches!(BleError::from_service_context(7, String::new()), BleError::Disconnected));
    assert!(matches!(BleError::from_characteristic_context(258, String::new()), BleError::CharacteristicNotReadable));
    assert!(matches!(BleError::from_characteristic_context(259, String::new()), BleError::CharacteristicNotWritable));
    assert!(matches!(BleError::from_characteristic_context(0xffff, String::new()), BleError::CharacteristicNotFound));
    assert!(matches!(BleError::from_descriptors_context(258, String::new()), BleError::DescriptorNotReadable));
    assert!(matches!(BleError::from_descriptors_context(0xffff, String::new()), BleError::DescriptorNotFound));
    assert!(matches!(BleError::from_connection_context(13, String::new()), BleError::CouldNotConnectToDevice));
    assert!(matches!(BleError::from_connection_params_context(13, String::new()), BleError::ConnectionError));
    assert!(matches!(BleError::TimeOut.connection_context(), BleError::CouldNotConnectToDevice));
    assert!(matches!(BleError::InvalidPasskey.service_context(), BleError::InvalidPasskey));
    assert!(matches!(
        BleError::from_timer_driver_error(TimerDriverError::SubscriptionError),
        BleError::TimerDriverError(TimerDriverError::SubscriptionError)
    ));
    assert!(matches!(
        BleError::from_peripheral_error(PeripheralError::AlreadyTaken),
        BleError::PeripheralError(PeripheralError::AlreadyTaken)
    ));
}

#[test]
fn security_passkeys_have_six_digits() {
    assert!(matches!(Security::new(1_000_000, IOCapabilities::DisplayOnly), Err(BleError::InvalidPasskey)));
    let s = Security::new(999_999, IOCapabilities::KeyboardDisplay).unwrap();
    assert_eq!(s.passkey, 999_999);
    assert_eq!(s.auth_mode, 0);
    assert_eq!(s.io_capabilities.get_code(), 4);
    assert_eq!(IOCapabilities::NoInputNoOutput.get_code(), 3);
}

#[test]
fn security_requirements_toggle() {
    let mut s = Security::new(1234, IOCapabilities::DisplayYesNo).unwrap();
    s.allow_bonding(true).man_in_the_middle(true).secure_connection(true);
    assert_eq!(s.auth_mode, 0b111);
    s.man_in_the_middle(false);
    assert_eq!(s.auth_mode, 0b101);
    assert_eq!(s.auth_requirements().unwrap(), 0b101);
    s.auth_mode = 0b1000;
    assert!(matches!(s.auth_requirements(), Err(BleError::InvalidParameters)));
}

#[test]
fn services_must_fit_in_an_advertisement() {
    let id16 = BleId::FromUuid16(0x180F);
    let ok = Service::new(&id16, vec![0; 25]).unwrap();
    assert_eq!(ok.data.len(), 25);
    assert!(ok.characteristics.is_empty());
    assert!(matches!(Service::new(&id16, vec![0; 26]), Err(BleError::ServiceTooBig)));
    let id128 = BleId::FromUuid128([1; 16]);
    assert!(Service::new(&id128, vec![0; 11]).is_ok());
    assert!(matches!(Service::new(&id128, vec![0; 12]), Err(BleError::ServiceTooBig)));
    assert!(Service::new(&id128, vec![]).is_ok());
}

#[test]
fn characteristics_and_descriptors_are_built_up() {
    let mut c = Characteristic::new(BleId::FromUuid16(0x2A19), vec![1]);
    c.readeable(true).writable(true).notifiable(true);
    assert_eq!(c.properties, PROPERTY_READ | PROPERTY_WRITE | PROPERTY_NOTIFY);
    c.writable(false);
    assert_eq!(c.properties, PROPERTY_READ | PROPERTY_NOTIFY);
    c.update_data(vec![2, 3]);
    assert_eq!(c.data, vec![2, 3]);

    let mut d = Descriptor::new(BleId::FromUuid16(0x2902), vec![0]);
    assert!(matches!(d.get_properties(), Err(BleError::PropertiesError)));
    d.readeable(true).writable(true);
    assert_eq!(d.get_properties().unwrap(), DESCRIPTOR_READ | DESCRIPTOR_WRITE);
    c.add_descriptor(d);
    assert_eq!(c.descriptors.len(), 1);

    let mut s = Service::new(&BleId::FromUuid16(0x180F), vec![]).unwrap();
    s.add_characteristic(c);
    assert_eq!(s.characteristics.len(), 1);
    assert_eq!(s.characteristics[0].descriptors[0].properties, DESCRIPTOR_READ | DESCRIPTOR_WRITE);
}

#[test]
fn a_beacon_gives_back_the_service_it_was_set() {
    let mut beacon = ServiceSet::new();
    let a = Service::new(&BleId::FromUuid16(0x180F), vec![1]).unwrap();
    let b = Service::new(&BleId::FromUuid16(0x1810), vec![2]).unwrap();
    assert!(!beacon.set_service(a));
    assert!(!beacon.set_service(b));
    assert_eq!(beacon.len(), 2);
    assert_eq!(beacon.get_service(&BleId::FromUuid16(0x180F)).unwrap().data, vec![1]);
    // the same id, written in its 128-bit form, replaces the service
    let a2 = Service::new(&BleId::FromUuid128(uuid16_as_128(0x180F)), vec![9]).unwrap();
    assert!(beacon.set_service(a2));
    assert_eq!(beacon.len(), 2);
    assert_eq!(beacon.get_service(&BleId::FromUuid16(0x180F)).unwrap().data, vec![9]);
    assert_eq!(beacon.services()[0].data, vec![9]);
    assert_eq!(beacon.get_service(&BleId::FromUuid16(0x1810)).unwrap().data, vec![2]);
}

#[test]
fn a_removed_service_is_unknown() {
    let mut beacon = ServiceSet::new();
    beacon.set_service(Service::new(&BleId::FromUuid16(1), vec![1]).unwrap());
    beacon.set_service(Service::new(&BleId::FromUuid16(2), vec![2]).unwrap());
    assert!(beacon.remove_service(&BleId::FromUuid16(1)));
    assert!(!beacon.remove_service(&BleId::FromUuid16(1)));
    assert!(matches!(beacon.get_service(&BleId::FromUuid16(1)), Err(BleError::ServiceUnknown)));
    assert_eq!(beacon.get_service(&BleId::FromUuid16(2)).unwrap().data, vec![2]);
    assert_eq!(beacon.len(), 1);
}

#[test]
fn a_beacon_cycles_through_its_services() {
    let mut beacon = ServiceSet::new();
    for i in 0..3u16 {
        beacon.set_service(Service::new(&BleId::FromUuid16(i), vec![i as u8]).unwrap());
    }
    let seen: Vec<u8> = (0..7).map(|turn| beacon.service_for_turn(turn).data[0]).collect();
    assert_eq!(seen, vec![0, 1, 2, 0, 1, 2, 0]);
}

#[test]
fn finding_services_by_id() {
    let services = vec![
        Service::new(&BleId::FromUuid16(4), vec![]).unwrap(),
        Service::new(&BleId::FromUuid16(5), vec![]).unwrap(),
    ];
    assert_eq!(find_service(&services, &BleId::FromUuid128(uuid16_as_128(5))), Some(1));
    assert_eq!(find_service(&services, &BleId::FromUuid16(6)), None);
    let mut c = Characteristic::new(BleId::FromUuid16(1), vec![]);
    assert!(!c.is_notifiable());
    c.notifiable(true);
    assert!(c.is_notifiable());
}

#[test]
fn stopping_and_disconnecting_outcomes() {
    assert!(BleError::from_stop_code(2).is_ok());
    assert!(matches!(BleError::from_stop_code(3), Err(BleError::StoppingFailure)));
    assert!(BleError::from_disconnect_code(7, String::new()).is_ok());
    assert!(matches!(BleError::from_disconnect_code(13, String::new()), Err(BleError::TimeOut)));
    assert!(matches!(BleError::from_disconnect_code(99, "x".to_string()), Err(BleError::Code(99, _))));
}

#[test]
fn scan_interval_and_window_for_times_between_scans() {
    assert_eq!(scan_interval_and_window(100), (100, 99));
    assert_eq!(scan_interval_and_window(1), (1, 1));
    assert_eq!(scan_interval_and_window(0), (1, 1));
}

#[test]
fn remote_characteristic_permissions() {
    assert!(remote_read_check(true).is_ok());
    assert!(matches!(remote_read_check(false), Err(BleError::CharacteristicNotReadable)));
    assert!(matches!(remote_write_mode(true, false), Ok(true)));
    assert!(matches!(remote_write_mode(true, true), Ok(false)));
    assert!(matches!(remote_write_mode(false, true), Ok(false)));
    assert!(matches!(remote_write_mode(false, false), Err(BleError::CharacteristicNotWritable)));
    assert!(remote_notify_check(true).is_ok());
    assert!(matches!(remote_notify_check(false), Err(BleError::CharacteristicNotNotifiable)));
}

#[test]
fn consecutive_beacon_turns_advertise_each_service_once() {
    let mut beacon = ServiceSet::new();
    for (i, id) in [0x180Fu16, 0x1810, 0x181A].iter().enumerate() {
        beacon.set_service(Service::new(&BleId::FromUuid16(*id), vec![i as u8]).unwrap());
    }
    for start in [0usize, 1, 5, 7] {
        let mut seen: Vec<u8> = (start..start + 3).map(|t| beacon.service_for_turn(t).data[0]).collect();
        seen.sort();
        assert_eq!(seen, vec![0, 1, 2]);
    }
    assert_eq!(beacon.service_for_turn(4).data, vec![1]);
}

#[test]
fn a_scan_that_finds_nothing_times_out() {
    assert!(matches!(scan_outcome::<u8>(None), Err(BleError::TimeOut)));
    assert!(matches!(scan_outcome(Some(7u8)), Ok(7)));
}
