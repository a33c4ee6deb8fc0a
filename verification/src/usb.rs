//! USB devices: how they are named in the configuration, and which of them
//! are plugged in.
use crate::text::chars_of;
use vstd::prelude::*;

verus! {

/// The pair of numbers that names a kind of USB device.
#[derive(Clone, Copy, Debug, PartialEq, Eq, Structural)]
pub struct UsbDeviceId {
    pub vendor_id: u16,
    pub product_id: u16,
}

/// The value of a hexadecimal digit, in either case.
pub open spec fn hex_digit(c: char) -> Option<u16> {
    if '0' <= c <= '9' {
        Some((c as u32 - '0' as u32) as u16)
    } else if 'a' <= c <= 'f' {
        Some((c as u32 - 'a' as u32 + 10) as u16)
    } else if 'A' <= c <= 'F' {
        Some((c as u32 - 'A' as u32 + 10) as u16)
    } else {
        None
    }
}

/// The number that four hexadecimal digits write, most significant first.
pub open spec fn hex_word(digits: Seq<char>) -> Option<u16> {
    if digits.len() == 4 && hex_digit(digits[0]) is Some && hex_digit(digits[1]) is Some
        && hex_digit(digits[2]) is Some && hex_digit(digits[3]) is Some {
        Some(
            (hex_digit(digits[0])->0 * 4096 + hex_digit(digits[1])->0 * 256 + hex_digit(
                digits[2],
            )->0 * 16 + hex_digit(digits[3])->0) as u16,
        )
    } else {
        None
    }
}

/// The device that a text of the form `vvvv:pppp` names: four hexadecimal
/// digits for the vendor, a colon, four for the product. Any other text names
/// no device.
pub open spec fn spec_parse_device_id(text: Seq<char>) -> Option<UsbDeviceId> {
    if text.len() == 9 && text[4] == ':' && hex_word(text.subrange(0, 4)) is Some && hex_word(
        text.subrange(5, 9),
    ) is Some {
        Some(
            UsbDeviceId {
                vendor_id: hex_word(text.subrange(0, 4))->0,
                product_id: hex_word(text.subrange(5, 9))->0,
            },
        )
    } else {
        None
    }
}

/// Whether `id` is among `devices`.
pub open spec fn spec_plugged(devices: Seq<UsbDeviceId>, id: UsbDeviceId) -> bool {
    exists|i: int| 0 <= i < devices.len() && devices[i] == id
}

fn hex_value(c: char) -> (value: Option<u16>)
    ensures
        value == hex_digit(c),
        value matches Some(v) ==> v < 16,
{
    if '0' <= c && c <= '9' {
        Some((c as u32 - '0' as u32) as u16)
    } else if 'a' <= c && c <= 'f' {
        Some((c as u32 - 'a' as u32 + 10) as u16)
    } else if 'A' <= c && c <= 'F' {
        Some((c as u32 - 'A' as u32 + 10) as u16)
    } else {
        None
    }
}

fn parse_hex_word(text: &Vec<char>, start: usize) -> (word: Option<u16>)
    requires
        start + 4 <= text@.len(),
    ensures
        word == hex_word(text@.subrange(start as int, start + 4)),
{
    let ghost digits = text@.subrange(start as int, start + 4);
    assert(start + 4 <= usize::MAX) by {
        assert(text.len() == text@.len());
    }
    assert(digits[0] == text@[start + 0] && digits[1] == text@[start + 1] && digits[2] == text@[
        start + 2] && digits[3] == text@[start + 3]);
    let d0 = hex_value(text[start]);
    let d1 = hex_value(text[start + 1]);
    let d2 = hex_value(text[start + 2]);
    let d3 = hex_value(text[start + 3]);
    match (d0, d1, d2, d3) {
        (Some(a), Some(b), Some(c), Some(d)) => Some(a * 4096 + b * 256 + c * 16 + d),
        _ => None,
    }
}

/// Reads a device name of the form `vvvv:pppp`, digits in either case.
pub fn parse_device_id(text: &str) -> (id: Option<UsbDeviceId>)
    ensures
        id == spec_parse_device_id(text@),
{
    let chars = chars_of(text);
    if chars.len() != 9 || chars[4] != ':' {
        return None;
    }
    let vendor = parse_hex_word(&chars, 0);
    let product = parse_hex_word(&chars, 5);
    match (vendor, product) {
        (Some(vendor_id), Some(product_id)) => Some(UsbDeviceId { vendor_id, product_id }),
        _ => None,
    }
}

/// Whether `id` is among `devices`.
pub fn is_plugged(devices: &Vec<UsbDeviceId>, id: UsbDeviceId) -> (plugged: bool)
    ensures
        plugged == spec_plugged(devices@, id),
{
    let mut i: usize = 0;
    while i < devices.len()
        invariant
            i <= devices@.len(),
            forall|k: int| 0 <= k < i ==> devices@[k] != id,
        decreases devices@.len() - i,
    {
        if devices[i].vendor_id == id.vendor_id && devices[i].product_id == id.product_id {
            return true;
        }
        i = i + 1;
    }
    false
}

/// The name of a USB interface class, or `Unknown` for a class without one.
pub open spec fn spec_class_name(code: u8) -> Seq<char> {
    match code {
        1 => "Audio"@,
        2 => "COMM"@,
        3 => "HID"@,
        5 => "Physical"@,
        6 => "PTP"@,
        7 => "Printer"@,
        8 => "MassStorage"@,
        9 => "Hub"@,
        10 => "Data"@,
        _ => "Unknown"@,
    }
}

/// The name of a USB interface class, or `Unknown` for a class without one.
pub fn class_name(code: u8) -> (name: &'static str)
    ensures
        name@ == spec_class_name(code),
{
    match code {
        1 => "Audio",
        2 => "COMM",
        3 => "HID",
        5 => "Physical",
        6 => "PTP",
        7 => "Printer",
        8 => "MassStorage",
        9 => "Hub",
        10 => "Data",
        _ => "Unknown",
    }
}

/// The class name of a device, given the class codes of its interface
/// descriptors in the order in which the device lists them: the name of the
/// last one, and the empty text for a device that lists none.
pub fn get_class_name(class_codes: &Vec<u8>) -> (name: String)
    ensures
        name@ == if class_codes@.len() == 0 {
            Seq::<char>::empty()
        } else {
            spec_class_name(class_codes@.last())
        },
{
    if class_codes.len() == 0 {
        String::new()
    } else {
        class_name(class_codes[class_codes.len() - 1]).to_owned()
    }
}

/// What happened to a device, for the record.
#[derive(Clone, Debug)]
pub struct DeviceEvent {
    pub name: String,
    pub event: String,
}

impl DeviceEvent {
    /// The event of a device of class `name` having been plugged in.
    pub fn arrived(name: String) -> (event: DeviceEvent)
        ensures
            event.name == name,
            event.event@ == "Added"@,
    {
        DeviceEvent { name, event: "Added".to_owned() }
    }

    /// The event of a device of class `name` having been removed.
    pub fn left(name: String) -> (event: DeviceEvent)
        ensures
            event.name == name,
            event.event@ == "Removed"@,
    {
        DeviceEvent { name, event: "Removed".to_owned() }
    }
}

/// The USB library's handle, `rusb::Context`. The engine carries it along
/// and hands it to [`plugged_devices`]; nothing is known of what it holds.
#[verifier::external_type_specification]
#[verifier::external_body]
pub struct ExContext(rusb::Context);

/// Asks the USB library which devices are plugged in right now, through
/// `rusb::UsbContext::devices` and, for each device of that list,
/// `rusb::Device::device_descriptor`, whose vendor and product numbers it
/// hands back in the order of the list. It gives nothing where the library
/// reports an error. What comes back depends on the machine, so nothing is
/// claimed of it: whoever calls this must be right whatever it returns.
#[verifier::external_body]
pub(crate) fn plugged_devices(context: &rusb::Context) -> (devices: Option<Vec<UsbDeviceId>>) {
    let list = rusb::UsbContext::devices(context).ok()?;
    list.iter().map(
        |device|
            device.device_descriptor().ok().map(
                |descriptor|
                    UsbDeviceId {
                        vendor_id: descriptor.vendor_id(),
                        product_id: descriptor.product_id(),
                    },
            ),
    ).collect()
}

} // verus!
