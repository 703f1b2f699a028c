use piccolo::bluetooth::{bdaddr_to_string, is_a2dp_sink};
use piccolo::gap::{
    ClassOfDevice, CommonDataType, DeviceProperty, GapError, MajorClass, ScannedDevice,
};
use piccolo::text::hex_lower;

#[test]
fn class_of_device_fields() {
    // a headset: service bits audio (21) and rendering (18), major 4, minor 1
    let c = ClassOfDevice { value: 0x240404 };
    assert_eq!(c.get_major_device_class(), Ok(MajorClass::AudioVideo));
    assert_eq!(c.get_minor_device_class(), 1);
    assert_eq!(c.get_service_classes(), 0x120);
    let odd = ClassOfDevice { value: 0x00_0b_ff };
    assert_eq!(odd.get_major_device_class(), Err(GapError::InvalidMajorClass(0x0b)));
    // the minor field is read under the mask 0xf6
    assert_eq!(odd.get_minor_device_class(), 0xf6 >> 2);
    assert_eq!(ClassOfDevice { value: 0x1f00 }.get_major_device_class(), Ok(MajorClass::Uncategorized));
}

#[test]
fn major_class_numbers() {
    assert_eq!(MajorClass::from_u8(2), Some(MajorClass::Phone));
    assert_eq!(MajorClass::from_u8(10), None);
    assert_eq!(MajorClass::Health.code(), 9);
    assert_eq!(MajorClass::Uncategorized.code(), 0x1f);
    assert_eq!(CommonDataType::from_u8(0x09), Some(CommonDataType::CompleteLocalName));
    assert_eq!(CommonDataType::from_u8(0xff), Some(CommonDataType::ManufacturerSpecificData));
    assert_eq!(CommonDataType::from_u8(0x0b), None);
}

#[test]
fn minor_class_texts() {
    assert_eq!(ClassOfDevice::minor_device_class_to_string(2, 1), "Cellular");
    assert_eq!(ClassOfDevice::minor_device_class_to_string(2, 3), "Phone major, minor 3 NIY");
    assert_eq!(ClassOfDevice::minor_device_class_to_string(4, 1), "Wearable Headset Device");
    assert_eq!(ClassOfDevice::minor_device_class_to_string(4, 63), "Audio major, minor 63 NIY");
    assert_eq!(ClassOfDevice::minor_device_class_to_string(31, 0), "Unimplemented major 31");
    assert_eq!(ClassOfDevice::minor_device_class_to_string(0, 0), "Unimplemented major 0");
}

#[test]
fn service_class_texts() {
    assert_eq!(ClassOfDevice::service_classes_to_string(0), "");
    assert_eq!(ClassOfDevice::service_classes_to_string(1 << 8), "Audio");
    assert_eq!(ClassOfDevice::service_classes_to_string((1 << 5) | (1 << 8)), "RenderingAudio, ");
    assert_eq!(
        ClassOfDevice::service_classes_to_string(1 | (1 << 9) | (1 << 10)),
        "Limited Discoverable ModeTelephony, Information, "
    );
    // bits 1 and 2 name nothing
    assert_eq!(ClassOfDevice::service_classes_to_string(0b110), "");
}

#[test]
fn eir_records_are_parsed() {
    let mut d = ScannedDevice::new([1, 2, 3, 4, 5, 6]);
    let eir = vec![
        5, 0x03, 0x0d, 0x11, 0x0b, 0x11, // two 16-bit UUIDs
        5, 0x09, b'J', b'B', b'L', b'!', // complete local name
        5, 0x05, 0x78, 0x56, 0x34, 0x12, // one 32-bit UUID
        2, 0x0a, 0x04, // tx power, skipped
        0, 0x03, 0x01, 0x02, // ends the list
    ];
    d.add_property(DeviceProperty::Eir(eir));
    assert_eq!(d.complete_16_bit_service_class_uuids, Some(vec![0x110d, 0x110b]));
    assert_eq!(d.complete_32_bit_service_class_uuids, Some(vec![0x12345678]));
    assert_eq!(d.name, Some(String::from("JBL!")));
    assert!(d.has_16bit_uuid(0x110d));
    assert!(d.has_16bit_uuid(0x110b));
    assert!(!d.has_16bit_uuid(0x1108));
    assert!(is_a2dp_sink(&d));
}

#[test]
fn truncated_or_unknown_records() {
    let mut d = ScannedDevice::new([0; 6]);
    // an unknown type is skipped, then a record that runs past the end is left out
    d.add_property(DeviceProperty::Eir(vec![2, 0x0b, 9, 5, 0x03, 0x0d, 0x11]));
    assert_eq!(d.complete_16_bit_service_class_uuids, None);
    assert!(!d.has_16bit_uuid(0x110d));
    assert!(!is_a2dp_sink(&d));
    // an odd trailing byte of a 16-bit list is left out
    d.add_property(DeviceProperty::Eir(vec![4, 0x03, 0x0d, 0x11, 0x77]));
    assert_eq!(d.complete_16_bit_service_class_uuids, Some(vec![0x110d]));
    // a name that is not UTF-8 is not taken
    d.add_property(DeviceProperty::Eir(vec![3, 0x09, 0xff, 0xfe]));
    assert_eq!(d.name, None);
    d.add_property(DeviceProperty::Eir(vec![]));
    assert_eq!(d.complete_16_bit_service_class_uuids, Some(vec![0x110d]));
}

#[test]
fn plain_properties() {
    let mut d = ScannedDevice::new([9; 6]);
    d.add_property(DeviceProperty::Name(String::from("speaker")));
    d.add_property(DeviceProperty::Rssi(-60));
    d.add_property(DeviceProperty::Class(ClassOfDevice { value: 0x240404 }));
    assert_eq!(d.name.as_deref(), Some("speaker"));
    assert_eq!(d.rssi, Some(-60));
    assert_eq!(d.class, Some(ClassOfDevice { value: 0x240404 }));
    assert_eq!(d.address, [9; 6]);
    assert_eq!(d.complete_32_bit_service_class_uuids, None);
}

#[test]
fn addresses_and_names_in_hex() {
    assert_eq!(bdaddr_to_string([0x00, 0x1a, 0x7d, 0xda, 0x71, 0x13]), "001A7DDA7113");
    assert_eq!(bdaddr_to_string([0xff; 6]), "FFFFFFFFFFFF");
    assert_eq!(hex_lower(&[0xab, 0x01]), "ab01");
    assert_eq!(hex_lower(&[]), "");
}

#[test]
fn class_text() {
    assert_eq!(
        ClassOfDevice { value: 0x240404 }.describe(),
        Ok(String::from(
            "Major: Ok(AudioVideo), Minor: Wearable Headset Device, Service Classes: RenderingAudio, "
        ))
    );
    assert_eq!(
        ClassOfDevice { value: 0x000208 }.describe(),
        Ok(String::from("Major: Ok(Phone), Minor: Phone major, minor 0 NIY, Service Classes: "))
    );
    assert_eq!(ClassOfDevice { value: 0x0b00 }.describe(), Err(GapError::InvalidMajorClass(0x0b)));
    assert_eq!(MajorClass::Toy.name(), "Toy");
}

#[test]
fn device_text() {
    let mut d = ScannedDevice::new([0x00, 0x1a, 0x7d, 0xda, 0x71, 0x13]);
    assert_eq!(d.describe(), Ok(String::from("Address: 001A7DDA7113 ")));
    d.add_property(DeviceProperty::Name(String::from("Box")));
    d.add_property(DeviceProperty::Rssi(-7));
    d.add_property(DeviceProperty::Eir(vec![5, 0x03, 0x0d, 0x11, 0x0b, 0x11]));
    assert_eq!(
        d.describe(),
        Ok(String::from("Address: 001A7DDA7113 Name: Box Complete 16 bit UUIDS: [110d 110b ] RSSI: -7"))
    );
    d.add_property(DeviceProperty::Class(ClassOfDevice { value: 0x200404 }));
    assert_eq!(
        d.describe(),
        Ok(String::from(
            "Address: 001A7DDA7113 Class: Major: Ok(AudioVideo), Minor: Wearable Headset Device, Service Classes: Audio Name: Box Complete 16 bit UUIDS: [110d 110b ] RSSI: -7"
        ))
    );
    d.add_property(DeviceProperty::Class(ClassOfDevice { value: 0x0c00 }));
    assert_eq!(d.describe(), Err(GapError::InvalidMajorClass(0x0c)));
    d.add_property(DeviceProperty::Rssi(-128));
    d.add_property(DeviceProperty::Class(ClassOfDevice { value: 0x0100 }));
    assert!(d.describe().unwrap().ends_with("RSSI: -128"));
}
