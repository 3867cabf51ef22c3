use u2fhid::{
    get_int_property, get_name, get_usage, get_usage_page, is_u2f_device, locate_hid_devices_cb,
    Answer, Property, PropertyKey, Readings, MISSING,
};

/// A device with the given properties, and everything that was read of it.
struct Probe {
    vendor_id: Property,
    product_id: Property,
    device_usage: Property,
    device_usage_page: Property,
    primary_usage: Property,
    primary_usage_page: Property,
    asked: Vec<PropertyKey>,
}

impl Probe {
    fn new() -> Probe {
        Probe {
            vendor_id: Property::Missing,
            product_id: Property::Missing,
            device_usage: Property::Missing,
            device_usage_page: Property::Missing,
            primary_usage: Property::Missing,
            primary_usage_page: Property::Missing,
            asked: Vec::new(),
        }
    }

    fn read(&mut self, key: PropertyKey) -> Property {
        self.asked.push(key);
        match key {
            PropertyKey::VendorId => self.vendor_id,
            PropertyKey::ProductId => self.product_id,
            PropertyKey::DeviceUsage => self.device_usage,
            PropertyKey::DeviceUsagePage => self.device_usage_page,
            PropertyKey::PrimaryUsage => self.primary_usage,
            PropertyKey::PrimaryUsagePage => self.primary_usage_page,
        }
    }

    fn is_u2f(&mut self) -> bool {
        let mut readings = Readings::new();
        loop {
            match is_u2f_device(&readings) {
                Answer::Ready(is_u2f) => return is_u2f,
                Answer::Read(key) => readings.record(key, self.read(key)),
            }
        }
    }

    fn name(&mut self) -> String {
        let mut readings = Readings::new();
        loop {
            match get_name(&readings) {
                Answer::Ready(name) => return name,
                Answer::Read(key) => readings.record(key, self.read(key)),
            }
        }
    }
}

#[test]
fn properties_as_integers() {
    assert_eq!(get_int_property(Property::Missing), -1);
    assert_eq!(get_int_property(Property::NotNumber), 0);
    assert_eq!(get_int_property(Property::Number(0x1050)), 0x1050);
    assert_eq!(get_int_property(Property::Number(i32::MIN)), i32::MIN);
    assert_eq!(MISSING, -1);
}

#[test]
fn a_u2f_device_by_its_own_usage() {
    let mut probe = Probe::new();
    probe.device_usage = Property::Number(1);
    probe.device_usage_page = Property::Number(0xf1d0);
    probe.primary_usage = Property::Number(6);
    assert!(probe.is_u2f());
    assert_eq!(probe.asked, vec![PropertyKey::DeviceUsage, PropertyKey::DeviceUsagePage]);
}

#[test]
fn a_u2f_device_by_its_primary_usage() {
    let mut probe = Probe::new();
    probe.primary_usage = Property::Number(1);
    probe.primary_usage_page = Property::Number(0xf1d0);
    assert!(probe.is_u2f());
    assert_eq!(
        probe.asked,
        vec![
            PropertyKey::DeviceUsage,
            PropertyKey::PrimaryUsage,
            PropertyKey::DeviceUsagePage,
            PropertyKey::PrimaryUsagePage,
        ]
    );
}

#[test]
fn a_number_of_minus_one_counts_as_missing() {
    let mut probe = Probe::new();
    probe.device_usage = Property::Number(-1);
    probe.primary_usage = Property::Number(1);
    probe.device_usage_page = Property::Number(0xf1d0);
    assert!(probe.is_u2f());
}

#[test]
fn a_usage_that_is_not_a_number_has_no_fallback() {
    let mut probe = Probe::new();
    probe.device_usage = Property::NotNumber;
    probe.primary_usage = Property::Number(1);
    probe.device_usage_page = Property::Number(0xf1d0);
    assert!(!probe.is_u2f());
    assert_eq!(probe.asked, vec![PropertyKey::DeviceUsage, PropertyKey::DeviceUsagePage]);
}

#[test]
fn other_devices_are_not_u2f_devices() {
    let mut keyboard = Probe::new();
    keyboard.device_usage = Property::Number(6);
    keyboard.device_usage_page = Property::Number(1);
    assert!(!keyboard.is_u2f());

    let mut wrong_usage = Probe::new();
    wrong_usage.device_usage = Property::Number(2);
    wrong_usage.device_usage_page = Property::Number(0xf1d0);
    assert!(!wrong_usage.is_u2f());

    let mut wrong_page = Probe::new();
    wrong_page.device_usage = Property::Number(1);
    wrong_page.device_usage_page = Property::Number(0xf1d1);
    assert!(!wrong_page.is_u2f());

    assert!(!Probe::new().is_u2f());
}

#[test]
fn usage_and_page_alone() {
    let mut readings = Readings::new();
    assert!(matches!(get_usage(&readings), Answer::Read(PropertyKey::DeviceUsage)));
    assert!(matches!(get_usage_page(&readings), Answer::Read(PropertyKey::DeviceUsagePage)));
    readings.record(PropertyKey::DeviceUsage, Property::Missing);
    readings.record(PropertyKey::DeviceUsagePage, Property::Missing);
    assert!(matches!(get_usage(&readings), Answer::Read(PropertyKey::PrimaryUsage)));
    assert!(matches!(get_usage_page(&readings), Answer::Read(PropertyKey::PrimaryUsagePage)));
    readings.record(PropertyKey::PrimaryUsage, Property::Number(3));
    readings.record(PropertyKey::PrimaryUsagePage, Property::NotNumber);
    assert!(matches!(get_usage(&readings), Answer::Ready(3)));
    assert!(matches!(get_usage_page(&readings), Answer::Ready(0)));
}

#[test]
fn names() {
    let mut probe = Probe::new();
    probe.vendor_id = Property::Number(4176);
    probe.product_id = Property::Number(288);
    probe.device_usage = Property::Number(1);
    probe.device_usage_page = Property::Number(0xf1d0);
    assert_eq!(probe.name(), "Vendor=4176 Product=288 Page=61904 Usage=1");
    assert_eq!(
        probe.asked,
        vec![
            PropertyKey::VendorId,
            PropertyKey::ProductId,
            PropertyKey::DeviceUsage,
            PropertyKey::DeviceUsagePage,
        ]
    );
}

#[test]
fn the_name_of_a_silent_device() {
    let mut probe = Probe::new();
    assert_eq!(probe.name(), "Vendor=-1 Product=-1 Page=-1 Usage=-1");
    assert_eq!(probe.asked.len(), 6);
}

#[test]
fn numbers_in_names_are_written_in_decimal() {
    for n in [0, 1, 9, 10, 99, 100, 12345, -1, -10, i32::MAX, i32::MIN] {
        let mut probe = Probe::new();
        probe.vendor_id = Property::Number(n);
        probe.product_id = Property::NotNumber;
        assert_eq!(probe.name(), format!("Vendor={} Product=0 Page=-1 Usage=-1", n));
    }
}

#[test]
fn looking_finds_the_u2f_devices_in_order() {
    let mut device_refs = Vec::new();
    for device_ref in 10..20u64 {
        let mut probe = Probe::new();
        probe.device_usage = Property::Number((device_ref % 3) as i32);
        probe.device_usage_page = Property::Number(0xf1d0);
        let is_u2f = probe.is_u2f();
        locate_hid_devices_cb(&mut device_refs, device_ref, is_u2f);
    }
    assert_eq!(device_refs, vec![10, 13, 16, 19]);
}
