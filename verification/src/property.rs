//! What a HID device says about itself, and what follows from it: whether it
//! is a U2F device, and what it is called.
//!
//! The system is asked for one property at a time, and only for those that are
//! needed. So a question about a device is put to the readings made so far, and
//! is answered either with the result or with the property to read next.

use vstd::prelude::*;

use crate::consts::{IOHIDDeviceRef, FIDO_USAGE_PAGE, FIDO_USAGE_U2FHID};
use crate::text;
use crate::text::append_decimal;

verus! {

/// What a property that a device does not have is read as.
pub const MISSING: i32 = -1;

/// The properties of a device that are read.
#[derive(Clone, Copy, Debug, PartialEq, Eq, Structural)]
pub enum PropertyKey {
    VendorId,
    ProductId,
    DeviceUsage,
    DeviceUsagePage,
    PrimaryUsage,
    PrimaryUsagePage,
}

/// What the system holds under a property's key.
#[derive(Clone, Copy, Debug, PartialEq, Eq, Structural)]
pub enum Property {
    /// Nothing.
    Missing,
    /// Something that is not a number.
    NotNumber,
    /// A number, as a 32-bit integer.
    Number(i32),
}

/// The integer that a property is read as.
pub open spec fn int_property(property: Property) -> i32 {
    match property {
        Property::Missing => MISSING,
        Property::NotNumber => 0,
        Property::Number(n) => n,
    }
}

/// Reads a property as an integer: [`MISSING`] when there is none, 0 when it is not a number.
pub fn get_int_property(property: Property) -> (value: i32)
    ensures
        value == int_property(property),
{
    match property {
        Property::Missing => MISSING,
        Property::NotNumber => 0,
        Property::Number(n) => n,
    }
}

/// The properties of one device that have been read so far, each as an integer.
#[derive(Clone, Copy, Debug, PartialEq, Eq, Structural)]
pub struct Readings {
    pub vendor_id: Option<i32>,
    pub product_id: Option<i32>,
    pub device_usage: Option<i32>,
    pub device_usage_page: Option<i32>,
    pub primary_usage: Option<i32>,
    pub primary_usage_page: Option<i32>,
}

/// A device's properties.
pub type Properties = spec_fn(PropertyKey) -> Property;

impl Readings {
    /// What was read under `key`.
    pub open spec fn at(self, key: PropertyKey) -> Option<i32> {
        match key {
            PropertyKey::VendorId => self.vendor_id,
            PropertyKey::ProductId => self.product_id,
            PropertyKey::DeviceUsage => self.device_usage,
            PropertyKey::DeviceUsagePage => self.device_usage_page,
            PropertyKey::PrimaryUsage => self.primary_usage,
            PropertyKey::PrimaryUsagePage => self.primary_usage_page,
        }
    }

    /// The readings with `value` under `key`.
    pub open spec fn with(self, key: PropertyKey, value: i32) -> Readings {
        match key {
            PropertyKey::VendorId => Readings { vendor_id: Some(value), ..self },
            PropertyKey::ProductId => Readings { product_id: Some(value), ..self },
            PropertyKey::DeviceUsage => Readings { device_usage: Some(value), ..self },
            PropertyKey::DeviceUsagePage => Readings { device_usage_page: Some(value), ..self },
            PropertyKey::PrimaryUsage => Readings { primary_usage: Some(value), ..self },
            PropertyKey::PrimaryUsagePage => Readings { primary_usage_page: Some(value), ..self },
        }
    }

    /// No readings.
    pub open spec fn none() -> Readings {
        Readings {
            vendor_id: None,
            product_id: None,
            device_usage: None,
            device_usage_page: None,
            primary_usage: None,
            primary_usage_page: None,
        }
    }

    /// How many of the properties have not been read.
    pub open spec fn unread(self) -> nat {
        count(self.vendor_id) + count(self.product_id) + count(self.device_usage) + count(
            self.device_usage_page,
        ) + count(self.primary_usage) + count(self.primary_usage_page)
    }

    /// Whether every reading is what the device's properties give.
    pub open spec fn agrees(self, properties: Properties) -> bool {
        forall|key: PropertyKey|
            #![trigger self.at(key)]
            self.at(key) is Some ==> self.at(key) == Some(int_property(properties(key)))
    }

    /// No readings.
    pub fn new() -> (readings: Readings)
        ensures
            readings == Readings::none(),
            forall|key: PropertyKey| (#[trigger] readings.at(key)) is None,
    {
        Readings {
            vendor_id: None,
            product_id: None,
            device_usage: None,
            device_usage_page: None,
            primary_usage: None,
            primary_usage_page: None,
        }
    }

    /// Records that the system holds `property` under `key`.
    pub fn record(&mut self, key: PropertyKey, property: Property)
        ensures
            *final(self) == old(self).with(key, int_property(property)),
    {
        let value = Some(get_int_property(property));
        match key {
            PropertyKey::VendorId => self.vendor_id = value,
            PropertyKey::ProductId => self.product_id = value,
            PropertyKey::DeviceUsage => self.device_usage = value,
            PropertyKey::DeviceUsagePage => self.device_usage_page = value,
            PropertyKey::PrimaryUsage => self.primary_usage = value,
            PropertyKey::PrimaryUsagePage => self.primary_usage_page = value,
        }
    }
}

/// One if there is no reading, else nothing.
pub open spec fn count(reading: Option<i32>) -> nat {
    if reading is None {
        1
    } else {
        0
    }
}

/// The answer to a question about a device.
pub enum Answer<T> {
    /// It cannot be given before this property has been read.
    Read(PropertyKey),
    /// It is this.
    Ready(T),
}

/// The reading under `key`.
pub open spec fn single(readings: Readings, key: PropertyKey) -> Answer<i32> {
    match readings.at(key) {
        None => Answer::Read(key),
        Some(value) => Answer::Ready(value),
    }
}

/// The reading under `first`, or under `second` where the first is [`MISSING`].
pub open spec fn either(readings: Readings, first: PropertyKey, second: PropertyKey) -> Answer<i32> {
    match single(readings, first) {
        Answer::Ready(value) if value == MISSING => single(readings, second),
        other => other,
    }
}

/// The device's usage, as far as the readings give it.
pub open spec fn usage_answer(readings: Readings) -> Answer<i32> {
    either(readings, PropertyKey::DeviceUsage, PropertyKey::PrimaryUsage)
}

/// The device's usage page, as far as the readings give it.
pub open spec fn usage_page_answer(readings: Readings) -> Answer<i32> {
    either(readings, PropertyKey::DeviceUsagePage, PropertyKey::PrimaryUsagePage)
}

/// Whether a usage and a usage page are those of a U2F device.
pub open spec fn is_u2f(usage: i32, usage_page: i32) -> bool {
    usage == FIDO_USAGE_U2FHID && usage_page == FIDO_USAGE_PAGE
}

/// Whether the device is a U2F device, as far as the readings give it. The
/// usage is asked for before the usage page.
pub open spec fn u2f_answer(readings: Readings) -> Answer<bool> {
    match usage_answer(readings) {
        Answer::Read(key) => Answer::Read(key),
        Answer::Ready(usage) => match usage_page_answer(readings) {
            Answer::Read(key) => Answer::Read(key),
            Answer::Ready(usage_page) => Answer::Ready(is_u2f(usage, usage_page)),
        },
    }
}

/// The name of a device, from its four numbers.
pub open spec fn name_of(vendor_id: i32, product_id: i32, usage_page: i32, usage: i32) -> Seq<char> {
    "Vendor="@ + text::decimal(vendor_id as int) + " Product="@ + text::decimal(product_id as int)
        + " Page="@ + text::decimal(usage_page as int) + " Usage="@ + text::decimal(usage as int)
}

/// The device's name, as far as the readings give it. The properties are asked
/// for in the order vendor, product, usage, usage page.
pub open spec fn name_answer(readings: Readings) -> Answer<Seq<char>> {
    match single(readings, PropertyKey::VendorId) {
        Answer::Read(key) => Answer::Read(key),
        Answer::Ready(vendor_id) => match single(readings, PropertyKey::ProductId) {
            Answer::Read(key) => Answer::Read(key),
            Answer::Ready(product_id) => match usage_answer(readings) {
                Answer::Read(key) => Answer::Read(key),
                Answer::Ready(usage) => match usage_page_answer(readings) {
                    Answer::Read(key) => Answer::Read(key),
                    Answer::Ready(usage_page) => Answer::Ready(
                        name_of(vendor_id, product_id, usage_page, usage),
                    ),
                },
            },
        },
    }
}

/// The device's usage: its own, or its primary one where its own is [`MISSING`].
pub fn get_usage(readings: &Readings) -> (answer: Answer<i32>)
    ensures
        answer == usage_answer(*readings),
{
    match readings.device_usage {
        None => Answer::Read(PropertyKey::DeviceUsage),
        Some(device_usage) => if device_usage == MISSING {
            match readings.primary_usage {
                None => Answer::Read(PropertyKey::PrimaryUsage),
                Some(primary_usage) => Answer::Ready(primary_usage),
            }
        } else {
            Answer::Ready(device_usage)
        },
    }
}

/// The device's usage page: its own, or its primary one where its own is [`MISSING`].
pub fn get_usage_page(readings: &Readings) -> (answer: Answer<i32>)
    ensures
        answer == usage_page_answer(*readings),
{
    match readings.device_usage_page {
        None => Answer::Read(PropertyKey::DeviceUsagePage),
        Some(device_usage_page) => if device_usage_page == MISSING {
            match readings.primary_usage_page {
                None => Answer::Read(PropertyKey::PrimaryUsagePage),
                Some(primary_usage_page) => Answer::Ready(primary_usage_page),
            }
        } else {
            Answer::Ready(device_usage_page)
        },
    }
}

/// Whether the device is a U2F device: by its usage and its usage page.
pub fn is_u2f_device(readings: &Readings) -> (answer: Answer<bool>)
    ensures
        answer == u2f_answer(*readings),
{
    match get_usage(readings) {
        Answer::Read(key) => Answer::Read(key),
        Answer::Ready(device_usage) => match get_usage_page(readings) {
            Answer::Read(key) => Answer::Read(key),
            Answer::Ready(device_usage_page) => Answer::Ready(
                device_usage == FIDO_USAGE_U2FHID as i32 && device_usage_page
                    == FIDO_USAGE_PAGE as i32,
            ),
        },
    }
}

/// The device's name: its vendor, its product, its usage page and its usage.
pub fn get_name(readings: &Readings) -> (answer: Answer<String>)
    ensures
        match answer {
            Answer::Read(key) => name_answer(*readings) == Answer::<Seq<char>>::Read(key),
            Answer::Ready(name) => name_answer(*readings) == Answer::Ready(name@),
        },
{
    let vendor_id: i32 = match readings.vendor_id {
        None => return Answer::Read(PropertyKey::VendorId),
        Some(vendor_id) => vendor_id,
    };
    let product_id: i32 = match readings.product_id {
        None => return Answer::Read(PropertyKey::ProductId),
        Some(product_id) => product_id,
    };
    let device_usage: i32 = match get_usage(readings) {
        Answer::Read(key) => return Answer::Read(key),
        Answer::Ready(device_usage) => device_usage,
    };
    let device_usage_page: i32 = match get_usage_page(readings) {
        Answer::Read(key) => return Answer::Read(key),
        Answer::Ready(device_usage_page) => device_usage_page,
    };
    let mut name = String::from_str("Vendor=");
    append_decimal(&mut name, vendor_id);
    name.append(" Product=");
    append_decimal(&mut name, product_id);
    name.append(" Page=");
    append_decimal(&mut name, device_usage_page);
    name.append(" Usage=");
    append_decimal(&mut name, device_usage);
    Answer::Ready(name)
}

/// The references found so far, once a device has been looked at.
pub open spec fn located(
    device_refs: Seq<IOHIDDeviceRef>,
    device_ref: IOHIDDeviceRef,
    is_u2f: bool,
) -> Seq<IOHIDDeviceRef> {
    if is_u2f {
        device_refs.push(device_ref)
    } else {
        device_refs
    }
}

/// Keeps the reference of a device that was looked at, if it is a U2F device.
pub fn locate_hid_devices_cb(
    device_refs: &mut Vec<IOHIDDeviceRef>,
    device_ref: IOHIDDeviceRef,
    is_u2f: bool,
)
    ensures
        final(device_refs)@ == located(old(device_refs)@, device_ref, is_u2f),
{
    if is_u2f {
        device_refs.push(device_ref);
    }
}

/// A device's usage, from its properties.
pub open spec fn usage(properties: Properties) -> i32 {
    let own = int_property(properties(PropertyKey::DeviceUsage));
    if own == MISSING {
        int_property(properties(PropertyKey::PrimaryUsage))
    } else {
        own
    }
}

/// A device's usage page, from its properties.
pub open spec fn usage_page(properties: Properties) -> i32 {
    let own = int_property(properties(PropertyKey::DeviceUsagePage));
    if own == MISSING {
        int_property(properties(PropertyKey::PrimaryUsagePage))
    } else {
        own
    }
}

/// Whether a device is a U2F device, from its properties.
pub open spec fn is_u2f_by(properties: Properties) -> bool {
    is_u2f(usage(properties), usage_page(properties))
}

/// A device's name, from its properties.
pub open spec fn name_by(properties: Properties) -> Seq<char> {
    name_of(
        int_property(properties(PropertyKey::VendorId)),
        int_property(properties(PropertyKey::ProductId)),
        usage_page(properties),
        usage(properties),
    )
}

} // verus!
