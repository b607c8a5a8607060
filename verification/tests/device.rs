use control_panel::arena::Arena;
use control_panel::device::{
    build_hid_function, build_network_function, device_strings, hid_config, BuildError,
    DescriptorBuilder, DeviceIdentity, Direction, CONFIG_DESCRIPTOR_CAPACITY,
};

#[test]
fn identity_is_composite() {
    let d = DeviceIdentity::this_device();
    assert_eq!(d.vendor_id, 0xc0de);
    assert_eq!(d.product_id, 0xcafe);
    assert_eq!(d.device_class, 0xEF);
    assert_eq!(d.device_sub_class, 0x02);
    assert_eq!(d.device_protocol, 0x01);
    assert!(d.composite_with_iads);
    assert_eq!(d.max_power_ma, 100);
    assert_eq!(d.max_packet_size_0, 64);
}

#[test]
fn strings_name_the_device() {
    let s = device_strings();
    assert_eq!(s.manufacturer, "Kaze");
    assert_eq!(s.product, "Custom Joystick");
    assert_eq!(s.serial_number, "12345678");
}

#[test]
fn hid_function_parameters() {
    let c = hid_config();
    assert_eq!(c.poll_ms, 60);
    assert_eq!(c.max_packet_size, 64);
}

#[test]
fn functions_are_numbered_in_registration_order() {
    let mut b = DescriptorBuilder::new(DeviceIdentity::this_device());
    assert_eq!(b.register(70), Ok(0));
    assert_eq!(b.register(32), Ok(1));
    assert_eq!(b.register(9), Ok(2));
    assert_eq!(b.used, 111);
}

#[test]
fn descriptor_space_is_bounded_at_build_time() {
    let mut b = DescriptorBuilder::new(DeviceIdentity::this_device());
    assert!(b.register(CONFIG_DESCRIPTOR_CAPACITY).is_ok());
    assert_eq!(b.register(1), Err(BuildError::DescriptorSpace));
    // the failed registration changed nothing
    assert_eq!(b.used, CONFIG_DESCRIPTOR_CAPACITY);
    assert_eq!(b.functions.len(), 1);
}

#[test]
fn endpoints_run_out_after_fifteen() {
    let mut b = DescriptorBuilder::new(DeviceIdentity::this_device());
    for n in 1..=15u8 {
        let e = b.alloc_in_endpoint(64).unwrap();
        assert_eq!(e.number, n);
        assert_eq!(e.direction, Direction::In);
    }
    assert_eq!(b.alloc_in_endpoint(64), Err(BuildError::EndpointsExhausted));
    // the OUT direction is counted on its own
    assert!(b.alloc_out_endpoint(64).is_ok());
}

#[test]
fn hid_build_claims_its_state_cell_once() {
    let mut b = DescriptorBuilder::new(DeviceIdentity::this_device());
    let mut cells = Arena::new(4);
    assert!(build_hid_function(&mut b, &mut cells, 2, 64).is_ok());
    match build_hid_function(&mut b, &mut cells, 2, 64) {
        Err(BuildError::StateCellClaimed) => {}
        _ => panic!("a second build of the same function must fail at build time"),
    }
}

#[test]
fn split_yields_one_writer_and_one_reader_over_disjoint_endpoints() {
    let mut b = DescriptorBuilder::new(DeviceIdentity::this_device());
    let mut cells = Arena::new(1);
    let (writer, reader) = build_hid_function(&mut b, &mut cells, 0, 64).unwrap();
    assert_eq!(writer.endpoint.direction, Direction::In);
    assert_eq!(reader.endpoint.direction, Direction::Out);
    assert!(
        writer.endpoint.number != reader.endpoint.number
            || writer.endpoint.direction != reader.endpoint.direction
    );
}

#[test]
fn composite_build_in_startup_order() {
    // the network function registers first, the joystick second, as the
    // device wires at startup; interface numbers follow that order
    let mut b = DescriptorBuilder::new(DeviceIdentity::this_device());
    let mut cells = Arena::new(2);
    let net = build_network_function(&mut b, &mut cells, 0, 70, 64).unwrap();
    let (writer, _reader) = build_hid_function(&mut b, &mut cells, 1, 64).unwrap();
    assert_eq!(b.functions.len(), 2);
    assert_eq!(b.functions[0].interface_number, 0);
    assert_eq!(b.functions[1].interface_number, 1);
    // the network data and notification endpoints come first, the
    // joystick's input endpoint after them
    assert_eq!(net.data_in.number, 1);
    assert_eq!(net.notify.number, 2);
    assert_eq!(net.data_out.number, 1);
    assert_eq!(writer.endpoint.number, 3);
}
