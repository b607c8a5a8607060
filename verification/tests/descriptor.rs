use control_panel::descriptor::report_descriptor;

#[test]
fn report_descriptor_is_byte_exact() {
    let expected: Vec<u8> = vec![
        0x05, 0x01, // usage page: generic desktop
        0x09, 0x05, // usage: gamepad
        0xA1, 0x01, // collection: application
        0x09, 0x01, //   usage: pointer
        0xA1, 0x00, //   collection: physical
        0x09, 0x30, //     usage: x
        0x09, 0x31, //     usage: y
        0x15, 0x80, //     logical minimum: -128
        0x25, 0x7F, //     logical maximum: 127
        0x75, 0x08, //     report size: 8
        0x95, 0x02, //     report count: 2
        0x81, 0x02, //     input: data, variable, absolute
        0xC0, //   end collection
        0x09, 0x01, //   usage: pointer
        0xA1, 0x00, //   collection: physical
        0x09, 0x32, //     usage: z
        0x09, 0x35, //     usage: rz
        0x15, 0x80, //     logical minimum: -128
        0x25, 0x7F, //     logical maximum: 127
        0x75, 0x08, //     report size: 8
        0x95, 0x02, //     report count: 2
        0x81, 0x02, //     input: data, variable, absolute
        0xC0, //   end collection
        0x05, 0x09, //   usage page: button
        0x19, 0x01, //   usage minimum: button 1
        0x29, 0x02, //   usage maximum: button 2
        0x15, 0x00, //   logical minimum: 0
        0x26, 0xFF, 0x00, //   logical maximum: 255
        0x75, 0x08, //   report size: 8
        0x95, 0x02, //   report count: 2
        0x81, 0x02, //   input: data, variable, absolute
        0xC0, // end collection
    ];
    assert_eq!(report_descriptor(), expected);
}

#[test]
fn report_descriptor_closes_every_collection() {
    let d = report_descriptor();
    assert_eq!(d.iter().filter(|&&b| b == 0xA1).count(), 3);
    assert_eq!(d.iter().filter(|&&b| b == 0xC0).count(), 3);
    assert_eq!(*d.last().unwrap(), 0xC0);
}

#[test]
fn report_descriptor_describes_a_six_byte_report() {
    let d = report_descriptor();
    // three input items of two 8-bit fields each
    let mut bits = 0usize;
    let mut i = 0usize;
    let mut size = 0usize;
    let mut count = 0usize;
    while i < d.len() {
        match d[i] {
            0x75 => {
                size = d[i + 1] as usize;
                i += 2;
            }
            0x95 => {
                count = d[i + 1] as usize;
                i += 2;
            }
            0x81 => {
                bits += size * count;
                i += 2;
            }
            0x26 => i += 3,
            0xC0 => i += 1,
            _ => i += 2,
        }
    }
    assert_eq!(bits, 48);
}
