use vstd::prelude::*;
use vstd::utf8::{decode_utf8, valid_utf8};

use crate::bluetooth::bdaddr_to_string;
use crate::text::{decimal, hex_text, push_decimal, push_hex};

verus! {

/// A Bluetooth device address.
pub type BDAddr = [u8; 6];

/// The data types of extended inquiry response records (Bluetooth assigned numbers).
#[derive(PartialEq, Eq, Structural, Clone, Copy, Debug)]
pub enum CommonDataType {
    Flags,
    Incomplete16bitServiceClassUUIDs,
    Complete16bitServiceClassUUIDs,
    Incomplete32bitServiceClassUUIDs,
    Complete32bitServiceClassUUIDs,
    Incomplete128bitServiceClassUUIDs,
    Complete128bitServiceClassUUIDs,
    ShortenedLocalName,
    CompleteLocalName,
    TxPowerLevel,
    ClassOfDevice,
    SimplePairingHashC192,
    SimplePairingRandomizerR192,
    DeviceID,
    SecurityManagerOutOfBandFlags,
    PeripheralConnectionIntervalRange,
    ListOf16BitServiceSolicitation,
    ListOf128BitServiceSolicitation,
    ManufacturerSpecificData,
}

pub open spec fn data_type_of(v: u8) -> Option<CommonDataType> {
    if v == 0x01 {
        Some(CommonDataType::Flags)
    } else if v == 0x02 {
        Some(CommonDataType::Incomplete16bitServiceClassUUIDs)
    } else if v == 0x03 {
        Some(CommonDataType::Complete16bitServiceClassUUIDs)
    } else if v == 0x04 {
        Some(CommonDataType::Incomplete32bitServiceClassUUIDs)
    } else if v == 0x05 {
        Some(CommonDataType::Complete32bitServiceClassUUIDs)
    } else if v == 0x06 {
        Some(CommonDataType::Incomplete128bitServiceClassUUIDs)
    } else if v == 0x07 {
        Some(CommonDataType::Complete128bitServiceClassUUIDs)
    } else if v == 0x08 {
        Some(CommonDataType::ShortenedLocalName)
    } else if v == 0x09 {
        Some(CommonDataType::CompleteLocalName)
    } else if v == 0x0a {
        Some(CommonDataType::TxPowerLevel)
    } else if v == 0x0d {
        Some(CommonDataType::ClassOfDevice)
    } else if v == 0x0e {
        Some(CommonDataType::SimplePairingHashC192)
    } else if v == 0x0f {
        Some(CommonDataType::SimplePairingRandomizerR192)
    } else if v == 0x10 {
        Some(CommonDataType::DeviceID)
    } else if v == 0x11 {
        Some(CommonDataType::SecurityManagerOutOfBandFlags)
    } else if v == 0x12 {
        Some(CommonDataType::PeripheralConnectionIntervalRange)
    } else if v == 0x14 {
        Some(CommonDataType::ListOf16BitServiceSolicitation)
    } else if v == 0x15 {
        Some(CommonDataType::ListOf128BitServiceSolicitation)
    } else if v == 0xff {
        Some(CommonDataType::ManufacturerSpecificData)
    } else {
        None
    }
}

impl CommonDataType {
    /// The data type with the given assigned number, if there is one.
    pub fn from_u8(v: u8) -> (r: Option<CommonDataType>)
        ensures
            r == data_type_of(v),
    {
        match v {
            0x01 => Some(CommonDataType::Flags),
            0x02 => Some(CommonDataType::Incomplete16bitServiceClassUUIDs),
            0x03 => Some(CommonDataType::Complete16bitServiceClassUUIDs),
            0x04 => Some(CommonDataType::Incomplete32bitServiceClassUUIDs),
            0x05 => Some(CommonDataType::Complete32bitServiceClassUUIDs),
            0x06 => Some(CommonDataType::Incomplete128bitServiceClassUUIDs),
            0x07 => Some(CommonDataType::Complete128bitServiceClassUUIDs),
            0x08 => Some(CommonDataType::ShortenedLocalName),
            0x09 => Some(CommonDataType::CompleteLocalName),
            0x0a => Some(CommonDataType::TxPowerLevel),
            0x0d => Some(CommonDataType::ClassOfDevice),
            0x0e => Some(CommonDataType::SimplePairingHashC192),
            0x0f => Some(CommonDataType::SimplePairingRandomizerR192),
            0x10 => Some(CommonDataType::DeviceID),
            0x11 => Some(CommonDataType::SecurityManagerOutOfBandFlags),
            0x12 => Some(CommonDataType::PeripheralConnectionIntervalRange),
            0x14 => Some(CommonDataType::ListOf16BitServiceSolicitation),
            0x15 => Some(CommonDataType::ListOf128BitServiceSolicitation),
            0xff => Some(CommonDataType::ManufacturerSpecificData),
            _ => None,
        }
    }
}

/// Major device classes of the class of device field.
#[derive(PartialEq, Eq, Structural, Clone, Copy, Debug)]
pub enum MajorClass {
    Miscellaneous,
    Computer,
    Phone,
    Network,
    AudioVideo,
    Peripheral,
    Imaging,
    Wearable,
    Toy,
    Health,
    Uncategorized,
}

pub open spec fn major_class_of(v: u8) -> Option<MajorClass> {
    if v == 0 {
        Some(MajorClass::Miscellaneous)
    } else if v == 1 {
        Some(MajorClass::Computer)
    } else if v == 2 {
        Some(MajorClass::Phone)
    } else if v == 3 {
        Some(MajorClass::Network)
    } else if v == 4 {
        Some(MajorClass::AudioVideo)
    } else if v == 5 {
        Some(MajorClass::Peripheral)
    } else if v == 6 {
        Some(MajorClass::Imaging)
    } else if v == 7 {
        Some(MajorClass::Wearable)
    } else if v == 8 {
        Some(MajorClass::Toy)
    } else if v == 9 {
        Some(MajorClass::Health)
    } else if v == 0x1f {
        Some(MajorClass::Uncategorized)
    } else {
        None
    }
}

impl MajorClass {
    /// The major class with the given number, if there is one.
    pub fn from_u8(v: u8) -> (r: Option<MajorClass>)
        ensures
            r == major_class_of(v),
    {
        match v {
            0 => Some(MajorClass::Miscellaneous),
            1 => Some(MajorClass::Computer),
            2 => Some(MajorClass::Phone),
            3 => Some(MajorClass::Network),
            4 => Some(MajorClass::AudioVideo),
            5 => Some(MajorClass::Peripheral),
            6 => Some(MajorClass::Imaging),
            7 => Some(MajorClass::Wearable),
            8 => Some(MajorClass::Toy),
            9 => Some(MajorClass::Health),
            0x1f => Some(MajorClass::Uncategorized),
            _ => None,
        }
    }

    /// The number of the major class.
    pub fn code(&self) -> (r: u8)
        ensures
            major_class_of(r) == Some(*self),
    {
        match self {
            MajorClass::Miscellaneous => 0,
            MajorClass::Computer => 1,
            MajorClass::Phone => 2,
            MajorClass::Network => 3,
            MajorClass::AudioVideo => 4,
            MajorClass::Peripheral => 5,
            MajorClass::Imaging => 6,
            MajorClass::Wearable => 7,
            MajorClass::Toy => 8,
            MajorClass::Health => 9,
            MajorClass::Uncategorized => 0x1f,
        }
    }
}

/// Errors of device discovery data.
#[derive(PartialEq, Eq, Structural, Clone, Copy, Debug)]
pub enum GapError {
    /// The major class field holds a number that names no major class.
    InvalidMajorClass(u8),
}

/// The 24-bit class of device field of a discovered device.
#[derive(PartialEq, Eq, Structural, Clone, Copy, Debug)]
pub struct ClassOfDevice {
    pub value: u32,
}

/// The major class field: bits 8 to 12.
pub open spec fn major_field(value: u32) -> u8 {
    ((value >> 8u32) as u8) & 0x1fu8
}

/// The text for a minor class: only the classes this device looks for are named.
pub open spec fn minor_class_text(major: u8, minor: u8) -> Seq<char> {
    if major == 2 {
        if minor == 1 {
            "Cellular"@
        } else {
            "Phone major, minor "@ + decimal(minor as nat) + " NIY"@
        }
    } else if major == 4 {
        if minor == 1 {
            "Wearable Headset Device"@
        } else {
            "Audio major, minor "@ + decimal(minor as nat) + " NIY"@
        }
    } else {
        "Unimplemented major "@ + decimal(major as nat)
    }
}

/// One entry of the service class list: the name of bit `bit` is added when it is set,
/// and every name after the first is followed by a separator.
pub open spec fn service_step(acc: (Seq<char>, bool), service: u16, bit: u16, name: Seq<char>) -> (
    Seq<char>,
    bool,
) {
    if service & (1u16 << bit) != 0 {
        if acc.1 {
            (acc.0 + name, false)
        } else {
            (acc.0 + name + ", "@, false)
        }
    } else {
        acc
    }
}

/// The names of the service classes whose bits are set, in bit order.
pub open spec fn service_classes_text(service: u16) -> Seq<char> {
    let a0 = (Seq::<char>::empty(), true);
    let a1 = service_step(a0, service, 0, "Limited Discoverable Mode"@);
    let a2 = service_step(a1, service, 3, "Positioning"@);
    let a3 = service_step(a2, service, 4, "Networking"@);
    let a4 = service_step(a3, service, 5, "Rendering"@);
    let a5 = service_step(a4, service, 6, "Capturing"@);
    let a6 = service_step(a5, service, 7, "Object Transfer"@);
    let a7 = service_step(a6, service, 8, "Audio"@);
    let a8 = service_step(a7, service, 9, "Telephony"@);
    let a9 = service_step(a8, service, 10, "Information"@);
    a9.0
}

fn push_service(s: &mut String, first: &mut bool, service: u16, bit: u16, name: &str)
    requires
        bit < 16,
    ensures
        (final(s)@, *final(first)) == service_step((old(s)@, *old(first)), service, bit, name@),
{
    if service & (1u16 << bit) != 0 {
        s.append(name);
        if *first {
            *first = false;
        } else {
            s.append(", ");
        }
    }
}

impl ClassOfDevice {
    /// The minor class field, as this device reads it: bits 2 to 7 under the mask 0xf6.
    pub fn get_minor_device_class(&self) -> (r: u8)
        ensures
            r == ((self.value & 0xf6u32) as u8) >> 2u8,
    {
        ((self.value & 0xf6) as u8) >> 2
    }

    /// The major class, or the error that names the field's value when no class has it.
    pub fn get_major_device_class(&self) -> (r: Result<MajorClass, GapError>)
        ensures
            r == (match major_class_of(major_field(self.value)) {
                Some(c) => Ok(c),
                None => Err(GapError::InvalidMajorClass(major_field(self.value))),
            }),
    {
        let value = ((self.value >> 8) as u8) & 0x1f;
        match MajorClass::from_u8(value) {
            Some(c) => Ok(c),
            None => Err(GapError::InvalidMajorClass(value)),
        }
    }

    /// The service class field: bits 13 to 23.
    pub fn get_service_classes(&self) -> (r: u16)
        ensures
            r == ((self.value >> 13u32) as u16) & 0x7ffu16,
    {
        ((self.value >> 13) as u16) & 0x7ff
    }

    pub fn minor_device_class_to_string(major: u8, minor: u8) -> (r: String)
        ensures
            r@ == minor_class_text(major, minor),
    {
        if major == 2 {
            if minor == 1 {
                "Cellular".to_owned()
            } else {
                let mut s = "Phone major, minor ".to_owned();
                push_decimal(&mut s, minor as u32);
                s.append(" NIY");
                s
            }
        } else if major == 4 {
            if minor == 1 {
                "Wearable Headset Device".to_owned()
            } else {
                let mut s = "Audio major, minor ".to_owned();
                push_decimal(&mut s, minor as u32);
                s.append(" NIY");
                s
            }
        } else {
            let mut s = "Unimplemented major ".to_owned();
            push_decimal(&mut s, major as u32);
            s
        }
    }

    pub fn service_classes_to_string(service: u16) -> (r: String)
        ensures
            r@ == service_classes_text(service),
    {
        let mut s = String::new();
        let mut first = true;
        push_service(&mut s, &mut first, service, 0, "Limited Discoverable Mode");
        push_service(&mut s, &mut first, service, 3, "Positioning");
        push_service(&mut s, &mut first, service, 4, "Networking");
        push_service(&mut s, &mut first, service, 5, "Rendering");
        push_service(&mut s, &mut first, service, 6, "Capturing");
        push_service(&mut s, &mut first, service, 7, "Object Transfer");
        push_service(&mut s, &mut first, service, 8, "Audio");
        push_service(&mut s, &mut first, service, 9, "Telephony");
        push_service(&mut s, &mut first, service, 10, "Information");
        s
    }
}

/// One property reported for a discovered device.
pub enum DeviceProperty {
    Name(String),
    Class(ClassOfDevice),
    Rssi(i8),
    /// The raw extended inquiry response.
    Eir(Vec<u8>),
}

/// What is known of a discovered device.
pub struct ScannedDevice {
    pub address: BDAddr,
    pub class: Option<ClassOfDevice>,
    pub name: Option<String>,
    pub rssi: Option<i8>,
    pub complete_16_bit_service_class_uuids: Option<Vec<u16>>,
    pub complete_32_bit_service_class_uuids: Option<Vec<u32>>,
}

/// The abstract content of a `ScannedDevice`.
pub struct DeviceModel {
    pub address: Seq<u8>,
    pub class: Option<u32>,
    pub name: Option<Seq<char>>,
    pub rssi: Option<i8>,
    pub uuids16: Option<Seq<u16>>,
    pub uuids32: Option<Seq<u32>>,
}

/// One record of an extended inquiry response: its data type and its data.
pub struct EirRecord {
    pub kind: u8,
    pub data: Seq<u8>,
}

/// The records of an extended inquiry response. Each record is a length byte `n`, then
/// `n` bytes: the data type and the data. A zero length ends the list; so does a record
/// that runs past the end of the bytes, which is left out.
pub open spec fn eir_records(b: Seq<u8>) -> Seq<EirRecord>
    decreases b.len(),
{
    if b.len() == 0 || b[0] == 0 || b[0] as int + 1 > b.len() {
        Seq::empty()
    } else {
        let n = b[0] as int;
        seq![EirRecord { kind: b[1], data: b.subrange(2, n + 1) }] + eir_records(
            b.subrange(n + 1, b.len() as int),
        )
    }
}

/// 16-bit UUIDs, little-endian, two bytes each; a trailing odd byte is left out.
pub open spec fn uuid16_list(d: Seq<u8>) -> Seq<u16> {
    Seq::new(d.len() / 2, |i: int| (d[2 * i] as int + 256 * d[2 * i + 1] as int) as u16)
}

/// 32-bit UUIDs, little-endian, four bytes each; trailing bytes short of four are left out.
pub open spec fn uuid32_list(d: Seq<u8>) -> Seq<u32> {
    Seq::new(
        d.len() / 4,
        |i: int|
            (d[4 * i] as int + 256 * d[4 * i + 1] as int + 65536 * d[4 * i + 2] as int + 16777216
                * d[4 * i + 3] as int) as u32,
    )
}

/// What one record tells of a device: the complete 16-bit and 32-bit UUID lists and the
/// complete local name (when it is valid UTF-8) are taken; other records are skipped.
pub open spec fn apply_record(d: DeviceModel, r: EirRecord) -> DeviceModel {
    if data_type_of(r.kind) == Some(CommonDataType::Complete16bitServiceClassUUIDs) {
        DeviceModel { uuids16: Some(uuid16_list(r.data)), ..d }
    } else if data_type_of(r.kind) == Some(CommonDataType::Complete32bitServiceClassUUIDs) {
        DeviceModel { uuids32: Some(uuid32_list(r.data)), ..d }
    } else if data_type_of(r.kind) == Some(CommonDataType::CompleteLocalName) && valid_utf8(
        r.data,
    ) {
        DeviceModel { name: Some(decode_utf8(r.data)), ..d }
    } else {
        d
    }
}

pub open spec fn apply_records(d: DeviceModel, rs: Seq<EirRecord>) -> DeviceModel
    decreases rs.len(),
{
    if rs.len() == 0 {
        d
    } else {
        apply_records(apply_record(d, rs[0]), rs.drop_first())
    }
}

/// Relies on `String::from_utf8`: it succeeds exactly on valid UTF-8, with the text
/// that the bytes encode.
#[verifier::external_body]
fn utf8_to_string(bytes: Vec<u8>) -> (r: Option<String>)
    ensures
        r is Some <==> valid_utf8(bytes@),
        r matches Some(s) ==> s@ == decode_utf8(bytes@),
{
    String::from_utf8(bytes).ok()
}

fn copy_range(b: &Vec<u8>, start: usize, end: usize) -> (r: Vec<u8>)
    requires
        start <= end <= b@.len(),
    ensures
        r@ == b@.subrange(start as int, end as int),
{
    let mut r: Vec<u8> = Vec::new();
    let mut i: usize = start;
    while i < end
        invariant
            start <= i <= end,
            end <= b@.len(),
            r@ == b@.subrange(start as int, i as int),
        decreases end - i,
    {
        r.push(b[i]);
        assert(b@.subrange(start as int, i + 1) =~= b@.subrange(start as int, i as int).push(
            b@[i as int],
        ));
        i = i + 1;
    }
    r
}

fn read_uuid16_list(b: &Vec<u8>, start: usize, end: usize) -> (r: Vec<u16>)
    requires
        start <= end <= b@.len(),
    ensures
        r@ == uuid16_list(b@.subrange(start as int, end as int)),
{
    let ghost d = b@.subrange(start as int, end as int);
    let count: usize = (end - start) / 2;
    let mut r: Vec<u16> = Vec::new();
    let mut i: usize = 0;
    while i < count
        invariant
            start <= end <= b@.len(),
            d == b@.subrange(start as int, end as int),
            count == d.len() / 2,
            i <= count,
            r@ == uuid16_list(d).subrange(0, i as int),
        decreases count - i,
    {
        assert(2 * i + 1 < d.len()) by (nonlinear_arith)
            requires
                i < count,
                count == d.len() / 2,
        ;
        let p = start + 2 * i;
        let u: u16 = b[p] as u16 + 256 * (b[p + 1] as u16);
        assert(u == uuid16_list(d)[i as int]);
        r.push(u);
        assert(uuid16_list(d).subrange(0, i + 1) =~= uuid16_list(d).subrange(0, i as int).push(u));
        i = i + 1;
    }
    assert(uuid16_list(d).subrange(0, count as int) =~= uuid16_list(d));
    r
}

fn read_uuid32_list(b: &Vec<u8>, start: usize, end: usize) -> (r: Vec<u32>)
    requires
        start <= end <= b@.len(),
    ensures
        r@ == uuid32_list(b@.subrange(start as int, end as int)),
{
    let ghost d = b@.subrange(start as int, end as int);
    let count: usize = (end - start) / 4;
    let mut r: Vec<u32> = Vec::new();
    let mut i: usize = 0;
    while i < count
        invariant
            start <= end <= b@.len(),
            d == b@.subrange(start as int, end as int),
            count == d.len() / 4,
            i <= count,
            r@ == uuid32_list(d).subrange(0, i as int),
        decreases count - i,
    {
        assert(4 * i + 3 < d.len()) by (nonlinear_arith)
            requires
                i < count,
                count == d.len() / 4,
        ;
        let p = start + 4 * i;
        let u: u32 = b[p] as u32 + 256 * (b[p + 1] as u32) + 65536 * (b[p + 2] as u32) + 16777216
            * (b[p + 3] as u32);
        assert(u == uuid32_list(d)[i as int]);
        r.push(u);
        assert(uuid32_list(d).subrange(0, i + 1) =~= uuid32_list(d).subrange(0, i as int).push(u));
        i = i + 1;
    }
    assert(uuid32_list(d).subrange(0, count as int) =~= uuid32_list(d));
    r
}

impl View for ScannedDevice {
    type V = DeviceModel;

    open spec fn view(&self) -> DeviceModel {
        DeviceModel {
            address: self.address@,
            class: match self.class {
                Some(c) => Some(c.value),
                None => None,
            },
            name: match self.name {
                Some(n) => Some(n@),
                None => None,
            },
            rssi: self.rssi,
            uuids16: match self.complete_16_bit_service_class_uuids {
                Some(v) => Some(v@),
                None => None,
            },
            uuids32: match self.complete_32_bit_service_class_uuids {
                Some(v) => Some(v@),
                None => None,
            },
        }
    }
}

impl ScannedDevice {
    /// A device at `address` of which nothing else is known yet.
    pub fn new(address: BDAddr) -> (r: ScannedDevice)
        ensures
            r@ == (DeviceModel {
                address: address@,
                class: None,
                name: None,
                rssi: None,
                uuids16: None,
                uuids32: None,
            }),
    {
        ScannedDevice {
            address,
            class: None,
            name: None,
            rssi: None,
            complete_16_bit_service_class_uuids: None,
            complete_32_bit_service_class_uuids: None,
        }
    }

    /// Records one reported property; an extended inquiry response is parsed record by
    /// record.
    pub fn add_property(&mut self, property: DeviceProperty)
        ensures
            final(self)@ == (match property {
                DeviceProperty::Name(n) => DeviceModel { name: Some(n@), ..old(self)@ },
                DeviceProperty::Class(c) => DeviceModel { class: Some(c.value), ..old(self)@ },
                DeviceProperty::Rssi(r) => DeviceModel { rssi: Some(r), ..old(self)@ },
                DeviceProperty::Eir(e) => apply_records(old(self)@, eir_records(e@)),
            }),
    {
        match property {
            DeviceProperty::Name(name) => self.name = Some(name),
            DeviceProperty::Class(class) => self.class = Some(class),
            DeviceProperty::Rssi(rssi) => self.rssi = Some(rssi),
            DeviceProperty::Eir(eir) => self.parse_eir(eir),
        }
    }

    fn parse_eir(&mut self, eir: Vec<u8>)
        ensures
            final(self)@ == apply_records(old(self)@, eir_records(eir@)),
    {
        let ghost target = apply_records(self@, eir_records(eir@));
        let len = eir.len();
        let mut index: usize = 0;
        assert(eir@.subrange(0, len as int) =~= eir@);
        while index < len
            invariant
                len == eir@.len(),
                index <= len,
                apply_records(self@, eir_records(eir@.subrange(index as int, len as int)))
                    == target,
            decreases len - index,
        {
            let ghost rest = eir@.subrange(index as int, len as int);
            let n = eir[index] as usize;
            if n == 0 || n > len - index - 1 {
                assert(eir_records(rest) == Seq::<EirRecord>::empty());
                assert(eir@.subrange(len as int, len as int) =~= Seq::<u8>::empty());
                assert(eir_records(Seq::<u8>::empty()) == Seq::<EirRecord>::empty());
                index = len;
            } else {
                let kind = eir[index + 1];
                let start = index + 2;
                let end = index + 1 + n;
                let ghost d0 = self@;
                let ghost rec = EirRecord { kind, data: eir@.subrange(start as int, end as int) };
                match CommonDataType::from_u8(kind) {
                    Some(CommonDataType::Complete16bitServiceClassUUIDs) => {
                        let uuids = read_uuid16_list(&eir, start, end);
                        self.complete_16_bit_service_class_uuids = Some(uuids);
                    },
                    Some(CommonDataType::Complete32bitServiceClassUUIDs) => {
                        let uuids = read_uuid32_list(&eir, start, end);
                        self.complete_32_bit_service_class_uuids = Some(uuids);
                    },
                    Some(CommonDataType::CompleteLocalName) => {
                        let bytes = copy_range(&eir, start, end);
                        match utf8_to_string(bytes) {
                            Some(s) => self.name = Some(s),
                            None => {},
                        }
                    },
                    _ => {},
                }
                proof {
                    assert(self@ == apply_record(d0, rec));
                    let next = eir@.subrange(end as int, len as int);
                    assert(rest.subrange(2, n as int + 1) =~= rec.data);
                    assert(rest.subrange(n as int + 1, rest.len() as int) =~= next);
                    let rs = eir_records(rest);
                    assert(rs == seq![rec] + eir_records(next));
                    assert(rs[0] == rec);
                    assert(rs.drop_first() =~= eir_records(next));
                }
                index = end;
            }
        }
        assert(eir@.subrange(index as int, len as int) =~= Seq::<u8>::empty());
        assert(eir_records(Seq::<u8>::empty()) == Seq::<EirRecord>::empty());
    }

    /// Whether the device lists `uuid` among its complete 16-bit service class UUIDs.
    pub fn has_16bit_uuid(&self, uuid: u16) -> (r: bool)
        ensures
            r == (self@.uuids16 matches Some(l) && l.contains(uuid)),
    {
        match &self.complete_16_bit_service_class_uuids {
            Some(uuids) => {
                let mut i: usize = 0;
                while i < uuids.len()
                    invariant
                        i <= uuids@.len(),
                        self@.uuids16 == Some(uuids@),
                        forall|j: int| 0 <= j < i ==> uuids@[j] != uuid,
                    decreases uuids@.len() - i,
                {
                    if uuids[i] == uuid {
                        assert(uuids@[i as int] == uuid);
                        return true;
                    }
                    i = i + 1;
                }
                false
            },
            None => false,
        }
    }
}

/// The name of a major class, as its variant is written.
pub open spec fn major_name(c: MajorClass) -> Seq<char> {
    match c {
        MajorClass::Miscellaneous => "Miscellaneous"@,
        MajorClass::Computer => "Computer"@,
        MajorClass::Phone => "Phone"@,
        MajorClass::Network => "Network"@,
        MajorClass::AudioVideo => "AudioVideo"@,
        MajorClass::Peripheral => "Peripheral"@,
        MajorClass::Imaging => "Imaging"@,
        MajorClass::Wearable => "Wearable"@,
        MajorClass::Toy => "Toy"@,
        MajorClass::Health => "Health"@,
        MajorClass::Uncategorized => "Uncategorized"@,
    }
}

/// The text of a class of device with a valid major class.
pub open spec fn class_text(value: u32, major: MajorClass) -> Seq<char> {
    "Major: Ok("@ + major_name(major) + "), Minor: "@ + minor_class_text(
        major_class_code(major),
        ((value & 0xf6u32) as u8) >> 2u8,
    ) + ", Service Classes: "@ + service_classes_text(((value >> 13u32) as u16) & 0x7ffu16)
}

pub open spec fn major_class_code(c: MajorClass) -> u8 {
    match c {
        MajorClass::Miscellaneous => 0,
        MajorClass::Computer => 1,
        MajorClass::Phone => 2,
        MajorClass::Network => 3,
        MajorClass::AudioVideo => 4,
        MajorClass::Peripheral => 5,
        MajorClass::Imaging => 6,
        MajorClass::Wearable => 7,
        MajorClass::Toy => 8,
        MajorClass::Health => 9,
        MajorClass::Uncategorized => 0x1f,
    }
}

/// A signed number in decimal, with a minus sign when negative.
pub open spec fn signed_decimal(n: int) -> Seq<char> {
    if n < 0 {
        seq!['-'] + decimal((-n) as nat)
    } else {
        decimal(n as nat)
    }
}

/// Four lower-case hexadecimal digits.
pub open spec fn hex4(u: u16) -> Seq<char> {
    hex_text(seq![(u / 256) as u8, (u % 256) as u8], false)
}

/// Each UUID in four hexadecimal digits, each followed by a space.
pub open spec fn uuid_list_text(l: Seq<u16>) -> Seq<char>
    decreases l.len(),
{
    if l.len() == 0 {
        Seq::empty()
    } else {
        uuid_list_text(l.drop_last()) + hex4(l.last()) + " "@
    }
}

/// The text of a device: its address, then what is known of it.
pub open spec fn device_text(d: DeviceModel, class: Option<Seq<char>>) -> Seq<char> {
    "Address: "@ + hex_text(d.address, true) + " "@ + (match class {
        Some(t) => "Class: "@ + t + " "@,
        None => Seq::empty(),
    }) + (match d.name {
        Some(n) => "Name: "@ + n + " "@,
        None => Seq::empty(),
    }) + (match d.uuids16 {
        Some(l) => "Complete 16 bit UUIDS: ["@ + uuid_list_text(l) + "] "@,
        None => Seq::empty(),
    }) + (match d.rssi {
        Some(r) => "RSSI: "@ + signed_decimal(r as int),
        None => Seq::empty(),
    })
}

impl MajorClass {
    pub fn name(&self) -> (r: &'static str)
        ensures
            r@ == major_name(*self),
    {
        match self {
            MajorClass::Miscellaneous => "Miscellaneous",
            MajorClass::Computer => "Computer",
            MajorClass::Phone => "Phone",
            MajorClass::Network => "Network",
            MajorClass::AudioVideo => "AudioVideo",
            MajorClass::Peripheral => "Peripheral",
            MajorClass::Imaging => "Imaging",
            MajorClass::Wearable => "Wearable",
            MajorClass::Toy => "Toy",
            MajorClass::Health => "Health",
            MajorClass::Uncategorized => "Uncategorized",
        }
    }
}

impl ClassOfDevice {
    /// The class in words: major, minor and service classes. A major class field that
    /// names no class has no text.
    pub fn describe(&self) -> (r: Result<String, GapError>)
        ensures
            r matches Ok(t) ==> (major_class_of(major_field(self.value)) matches Some(c) && t@
                == class_text(self.value, c)),
            r matches Err(e) ==> major_class_of(major_field(self.value)) is None && e
                == GapError::InvalidMajorClass(major_field(self.value)),
    {
        match self.get_major_device_class() {
            Err(e) => Err(e),
            Ok(major) => {
                let code = major.code();
                assert(code == major_class_code(major));
                let mut s = "Major: Ok(".to_owned();
                s.append(major.name());
                s.append("), Minor: ");
                let minor = ClassOfDevice::minor_device_class_to_string(
                    code,
                    self.get_minor_device_class(),
                );
                s.append(minor.as_str());
                s.append(", Service Classes: ");
                let service = ClassOfDevice::service_classes_to_string(self.get_service_classes());
                s.append(service.as_str());
                Ok(s)
            },
        }
    }
}

fn push_signed_decimal(s: &mut String, n: i8)
    ensures
        final(s)@ == old(s)@ + signed_decimal(n as int),
{
    if n < 0 {
        s.push('-');
        push_decimal(s, (0 - (n as i32)) as u32);
        assert(final(s)@ =~= old(s)@ + signed_decimal(n as int));
    } else {
        push_decimal(s, n as u32);
    }
}

fn push_uuid_list(s: &mut String, l: &Vec<u16>)
    ensures
        final(s)@ == old(s)@ + uuid_list_text(l@),
{
    let ghost s0 = s@;
    let mut i: usize = 0;
    assert(l@.subrange(0, 0) =~= Seq::<u16>::empty());
    while i < l.len()
        invariant
            i <= l@.len(),
            s@ == s0 + uuid_list_text(l@.subrange(0, i as int)),
        decreases l@.len() - i,
    {
        let u = l[i];
        let bytes: [u8; 2] = [(u / 256) as u8, (u % 256) as u8];
        push_hex(s, bytes.as_slice(), false);
        s.push(' ');
        proof {
            let p = l@.subrange(0, i as int + 1);
            assert(p.drop_last() =~= l@.subrange(0, i as int));
            assert(bytes@ =~= seq![(u / 256) as u8, (u % 256) as u8]);
            assert(" "@ =~= seq![' ']) by {
                reveal_strlit(" ");
            }
            assert(s@ =~= s0 + uuid_list_text(p));
        }
        i = i + 1;
    }
    assert(l@.subrange(0, l@.len() as int) =~= l@);
}

impl ScannedDevice {
    /// The device in words: address, class, name, 16-bit UUIDs and signal strength, each
    /// where known. A class whose major class field names no class has no text.
    pub fn describe(&self) -> (r: Result<String, GapError>)
        ensures
            match self.class {
                None => r matches Ok(t) && t@ == device_text(self@, None),
                Some(c) => match major_class_of(major_field(c.value)) {
                    Some(m) => r matches Ok(t) && t@ == device_text(
                        self@,
                        Some(class_text(c.value, m)),
                    ),
                    None => r == Err::<String, GapError>(
                        GapError::InvalidMajorClass(major_field(c.value)),
                    ),
                },
            },
    {
        let mut s = "Address: ".to_owned();
        let addr = bdaddr_to_string(self.address);
        s.append(addr.as_str());
        s.append(" ");
        let ghost head = s@;
        let ghost class_part: Seq<char> = Seq::empty();
        match &self.class {
            Some(c) => {
                match c.describe() {
                    Err(e) => {
                        return Err(e);
                    },
                    Ok(t) => {
                        s.append("Class: ");
                        s.append(t.as_str());
                        s.append(" ");
                        proof {
                            class_part = "Class: "@ + t@ + " "@;
                        }
                    },
                }
            },
            None => {},
        }
        assert(s@ =~= head + class_part);
        let ghost with_class = s@;
        let ghost name_part: Seq<char> = Seq::empty();
        match &self.name {
            Some(n) => {
                s.append("Name: ");
                s.append(n.as_str());
                s.append(" ");
                proof {
                    name_part = "Name: "@ + n@ + " "@;
                }
            },
            None => {},
        }
        assert(s@ =~= with_class + name_part);
        let ghost with_name = s@;
        let ghost uuid_part: Seq<char> = Seq::empty();
        match &self.complete_16_bit_service_class_uuids {
            Some(l) => {
                s.append("Complete 16 bit UUIDS: [");
                push_uuid_list(&mut s, l);
                s.append("] ");
                proof {
                    uuid_part = "Complete 16 bit UUIDS: ["@ + uuid_list_text(l@) + "] "@;
                }
            },
            None => {},
        }
        assert(s@ =~= with_name + uuid_part);
        let ghost with_uuids = s@;
        let ghost rssi_part: Seq<char> = Seq::empty();
        match self.rssi {
            Some(r) => {
                s.append("RSSI: ");
                push_signed_decimal(&mut s, r);
                proof {
                    rssi_part = "RSSI: "@ + signed_decimal(r as int);
                }
            },
            None => {},
        }
        assert(s@ =~= with_uuids + rssi_part);
        proof {
            let cls = match self.class {
                Some(c) => Some(class_text(c.value, major_class_of(major_field(c.value))->Some_0)),
                None => None,
            };
            assert(s@ =~= device_text(self@, cls));
        }
        Ok(s)
    }
}

} // verus!
