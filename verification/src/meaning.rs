//! What the operations on reports, properties and names mean, said of the
//! numbers and texts that go in and come out.

use vstd::prelude::*;

use crate::consts::IOHIDDeviceRef;
use crate::device::{Device, InternalDevice};
use crate::error;
use crate::error::DeviceError;
use crate::laws;
use crate::laws::OpenRun;
use crate::manager::{OpenAction, OpenEvent, PlatformManager};
use crate::property;
use crate::property::{Answer, Properties, Property, PropertyKey, Readings};
use crate::report;
use crate::spelling;
use crate::text;

verus! {

/// A report has sixty-four bytes: what was sent, and then zeros; or only zeros,
/// when more than sixty-four were sent.
pub proof fn reports_hold_what_was_sent(sent: Seq<u8>)
    ensures
        report::padded(sent).len() == 64,
        sent.len() <= 64 ==> report::padded(sent).take(sent.len() as int) == sent,
        forall|i: int|
            0 <= i < 64 && (i >= sent.len() || sent.len() > 64) ==> (#[trigger] report::padded(
                sent,
            )[i]) == 0,
{
    if sent.len() <= 64 {
        assert(report::padded(sent).take(sent.len() as int) =~= sent);
    }
}

/// All the bytes that the system announces are taken when there are at most
/// sixty-four of them, and none otherwise; a negative number announces none.
pub proof fn announced_bytes_are_taken_or_left(report_len: int)
    ensures
        0 <= report_len <= 64 ==> report::taken_len(report_len) == report_len,
        report_len < 0 || report_len > 64 ==> report::taken_len(report_len) == 0,
{
}

/// A buffer takes the whole of a report or as much as it has room for.
pub proof fn buffers_take_what_they_have_room_for(before: Seq<u8>, data: Seq<u8>)
    requires
        data.len() == 64,
    ensures
        report::read_len(before.len()) <= 64,
        report::read_len(before.len()) <= before.len(),
        report::read_len(before.len()) == 64 || report::read_len(before.len()) == before.len(),
        ({
            let len = report::read_len(before.len()) as int;
            report::overwritten(before, data) == data.take(len) + before.skip(len)
        }),
{
    let len = report::read_len(before.len()) as int;
    assert(report::overwritten(before, data) =~= data.take(len) + before.skip(len));
}

/// A system call succeeds on the code zero alone, with the value that it was to
/// give; every other code is the error that carries it.
pub proof fn zero_alone_is_success<T>(result: i32, value: T)
    ensures
        result == 0 ==> error::system_outcome(result, value) == Ok::<T, DeviceError>(value),
        result != 0 ==> error::system_outcome(result, value) == Err::<T, DeviceError>(
            DeviceError::Os(result),
        ),
{
}

/// The number that a property stands for: the number itself, 0 for what is no
/// number, and -1 for what is not there.
pub open spec fn number(property: Property) -> int {
    match property {
        Property::Number(n) => n as int,
        Property::NotNumber => 0,
        Property::Missing => -1,
    }
}

/// The number of a device's own property, or of its primary one where its own
/// is -1.
pub open spec fn number_or(own: Property, primary: Property) -> int {
    if number(own) == -1 {
        number(primary)
    } else {
        number(own)
    }
}

/// Whether a property, with the primary one to fall back on, is the number `n`,
/// which is neither 0 nor -1.
pub open spec fn says(own: Property, primary: Property, n: i32) -> bool {
    ||| own == Property::Number(n)
    ||| own is Missing && primary == Property::Number(n)
    ||| own is Number && own->Number_0 + 1 == 0 && primary == Property::Number(n)
}

/// Whether a device says that its usage is 0x01 on the usage page 0xf1d0.
pub open spec fn says_u2f(properties: Properties) -> bool {
    &&& says(properties(PropertyKey::DeviceUsage), properties(PropertyKey::PrimaryUsage), 0x01)
    &&& says(
        properties(PropertyKey::DeviceUsagePage),
        properties(PropertyKey::PrimaryUsagePage),
        0xf1d0,
    )
}

/// A property is read as the number that it stands for.
pub proof fn properties_are_read_as_their_numbers(property: Property)
    ensures
        property::int_property(property) == number(property),
{
}

/// What was recorded under a key is found under that key, as its own field, and
/// nothing else changes.
pub proof fn recorded_readings_are_kept(
    readings: Readings,
    key: PropertyKey,
    value: i32,
    other: PropertyKey,
)
    ensures
        readings.with(key, value).at(key) == Some(value),
        other != key ==> readings.with(key, value).at(other) == readings.at(other),
        readings.at(PropertyKey::VendorId) == readings.vendor_id,
        readings.at(PropertyKey::ProductId) == readings.product_id,
        readings.at(PropertyKey::DeviceUsage) == readings.device_usage,
        readings.at(PropertyKey::DeviceUsagePage) == readings.device_usage_page,
        readings.at(PropertyKey::PrimaryUsage) == readings.primary_usage,
        readings.at(PropertyKey::PrimaryUsagePage) == readings.primary_usage_page,
        Readings::none().at(other) is None,
{
}

/// A device with a usage and a usage page of its own is a U2F device when these
/// are 0x01 and 0xf1d0, and is none with any other usage or usage page.
pub proof fn usage_and_page_decide(readings: Readings, usage: i32, usage_page: i32)
    requires
        readings.device_usage == Some(usage),
        readings.device_usage_page == Some(usage_page),
        usage + 1 != 0,
        usage_page + 1 != 0,
    ensures
        property::usage_answer(readings) == Answer::Ready(usage),
        property::usage_page_answer(readings) == Answer::Ready(usage_page),
        usage == 0x01 && usage_page == 0xf1d0 ==> property::u2f_answer(readings) == Answer::Ready(
            true,
        ),
        usage != 0x01 || usage_page != 0xf1d0 ==> property::u2f_answer(readings) == Answer::Ready(
            false,
        ),
{
}

/// Where a device's own usage or usage page is -1, its primary one stands for it.
pub proof fn primary_ones_stand_in(readings: Readings, usage: i32, usage_page: i32)
    requires
        readings.device_usage matches Some(own) && (own + 1 != 0 ==> own == usage) && (own + 1 == 0
            ==> readings.primary_usage == Some(usage)),
        readings.device_usage_page matches Some(own) && (own + 1 != 0 ==> own == usage_page) && (own
            + 1 == 0 ==> readings.primary_usage_page == Some(usage_page)),
    ensures
        property::usage_answer(readings) == Answer::Ready(usage),
        property::usage_page_answer(readings) == Answer::Ready(usage_page),
        property::u2f_answer(readings) == Answer::Ready(usage == 0x01 && usage_page == 0xf1d0),
{
}

/// The property that is asked for is the first that is wanting: the usage, where
/// that is -1 the primary usage, then the usage page, and where that is -1 the
/// primary usage page. For a name, vendor and product come before these.
pub proof fn questions_come_in_order(readings: Readings)
    ensures
        ({
            let usage_wanting = readings.device_usage is None;
            let primary_wanting = (readings.device_usage matches Some(own) && own + 1 == 0)
                && readings.primary_usage is None;
            let page_wanting = readings.device_usage_page is None;
            let primary_page_wanting = (readings.device_usage_page matches Some(own) && own + 1
                == 0) && readings.primary_usage_page is None;
            let wanting: Option<PropertyKey> = if usage_wanting {
                Some(PropertyKey::DeviceUsage)
            } else if primary_wanting {
                Some(PropertyKey::PrimaryUsage)
            } else if page_wanting {
                Some(PropertyKey::DeviceUsagePage)
            } else if primary_page_wanting {
                Some(PropertyKey::PrimaryUsagePage)
            } else {
                None
            };
            let wanting_for_name: Option<PropertyKey> = if readings.vendor_id is None {
                Some(PropertyKey::VendorId)
            } else if readings.product_id is None {
                Some(PropertyKey::ProductId)
            } else {
                wanting
            };
            &&& match wanting {
                Some(key) => property::u2f_answer(readings) == Answer::<bool>::Read(key),
                None => property::u2f_answer(readings) is Ready,
            }
            &&& match wanting_for_name {
                Some(key) => property::name_answer(readings) == Answer::<Seq<char>>::Read(key),
                None => property::name_answer(readings) is Ready,
            }
        }),
{
}

/// A device is found to be a U2F device exactly when it says that its usage is
/// 0x01 on the usage page 0xf1d0, by itself or, where it has no usage or usage
/// page of its own, by its primary ones.
pub proof fn u2f_devices_are_those_that_say_so(properties: Properties)
    ensures
        laws::u2f_asked(Readings::none(), properties) == says_u2f(properties),
{
    laws::asking_ends_with_the_devices_answer(properties);
}

/// The four texts behind the labels of a name.
pub struct Labelled {
    pub vendor: Seq<char>,
    pub product: Seq<char>,
    pub page: Seq<char>,
    pub usage: Seq<char>,
}

/// `name` is the labels with `parts` behind them, and these are the numbers in
/// decimal.
pub open spec fn is_name_of_parts(
    name: Seq<char>,
    parts: Labelled,
    vendor_id: int,
    product_id: int,
    usage_page: int,
    usage: int,
) -> bool {
    &&& spelling::spells(parts.vendor, vendor_id)
    &&& spelling::spells(parts.product, product_id)
    &&& spelling::spells(parts.page, usage_page)
    &&& spelling::spells(parts.usage, usage)
    &&& name == "Vendor="@ + parts.vendor + " Product="@ + parts.product + " Page="@ + parts.page
        + " Usage="@ + parts.usage
}

/// `name` is the labels with the four numbers behind them, in decimal.
pub open spec fn is_name(
    name: Seq<char>,
    vendor_id: int,
    product_id: int,
    usage_page: int,
    usage: int,
) -> bool {
    exists|parts: Labelled|
        is_name_of_parts(name, parts, vendor_id, product_id, usage_page, usage)
}

/// The digits behind each label of a name give back the number that stands
/// there, whatever the four numbers are.
pub proof fn names_spell_their_numbers(
    vendor_id: i32,
    product_id: i32,
    usage_page: i32,
    usage: i32,
)
    ensures
        is_name(
            property::name_of(vendor_id, product_id, usage_page, usage),
            vendor_id as int,
            product_id as int,
            usage_page as int,
            usage as int,
        ),
{
    spelling::decimals_spell_their_number(vendor_id as int);
    spelling::decimals_spell_their_number(product_id as int);
    spelling::decimals_spell_their_number(usage_page as int);
    spelling::decimals_spell_their_number(usage as int);
    let parts = Labelled {
        vendor: text::decimal(vendor_id as int),
        product: text::decimal(product_id as int),
        page: text::decimal(usage_page as int),
        usage: text::decimal(usage as int),
    };
    assert(is_name_of_parts(
        property::name_of(vendor_id, product_id, usage_page, usage),
        parts,
        vendor_id as int,
        product_id as int,
        usage_page as int,
        usage as int,
    ));
}

/// Two texts that agree up to a space that the first parts do not have agree in
/// the first parts and in what follows.
proof fn texts_part_at_the_space(a: Seq<char>, b: Seq<char>, rest_a: Seq<char>, rest_b: Seq<char>)
    requires
        a + rest_a == b + rest_b,
        forall|k: int| 0 <= k < a.len() ==> #[trigger] a[k] != ' ',
        forall|k: int| 0 <= k < b.len() ==> #[trigger] b[k] != ' ',
        rest_a.len() > 0 && rest_a[0] == ' ',
        rest_b.len() > 0 && rest_b[0] == ' ',
    ensures
        a == b,
        rest_a == rest_b,
{
    let whole = a + rest_a;
    if a.len() < b.len() {
        assert(whole[a.len() as int] == ' ');
        assert((b + rest_b)[a.len() as int] == b[a.len() as int]);
    } else if b.len() < a.len() {
        assert((b + rest_b)[b.len() as int] == ' ');
        assert(whole[b.len() as int] == a[b.len() as int]);
    }
    assert(a =~= whole.take(a.len() as int));
    assert(b =~= (b + rest_b).take(b.len() as int));
    assert(rest_a =~= whole.skip(a.len() as int));
    assert(rest_b =~= (b + rest_b).skip(b.len() as int));
}

/// What follows a common beginning is the same where the whole is.
proof fn texts_go_on_alike(front: Seq<char>, rest_a: Seq<char>, rest_b: Seq<char>)
    requires
        front + rest_a == front + rest_b,
    ensures
        rest_a == rest_b,
{
    assert(rest_a =~= (front + rest_a).skip(front.len() as int));
    assert(rest_b =~= (front + rest_b).skip(front.len() as int));
}

/// The part of a name that begins with the label of the product.
spec fn from_product(parts: Labelled) -> Seq<char> {
    " Product="@ + (parts.product + from_page(parts))
}

/// The part of a name that begins with the label of the usage page.
spec fn from_page(parts: Labelled) -> Seq<char> {
    " Page="@ + (parts.page + from_usage(parts))
}

/// The part of a name that begins with the label of the usage.
spec fn from_usage(parts: Labelled) -> Seq<char> {
    " Usage="@ + parts.usage
}

/// A name is its parts, one behind another.
proof fn names_are_their_parts(
    name: Seq<char>,
    parts: Labelled,
    vendor_id: int,
    product_id: int,
    usage_page: int,
    usage: int,
)
    requires
        is_name_of_parts(name, parts, vendor_id, product_id, usage_page, usage),
    ensures
        name == "Vendor="@ + (parts.vendor + from_product(parts)),
        from_product(parts).len() > 0 && from_product(parts)[0] == ' ',
        from_page(parts).len() > 0 && from_page(parts)[0] == ' ',
        from_usage(parts).len() > 0 && from_usage(parts)[0] == ' ',
        forall|k: int| 0 <= k < parts.vendor.len() ==> #[trigger] parts.vendor[k] != ' ',
        forall|k: int| 0 <= k < parts.product.len() ==> #[trigger] parts.product[k] != ' ',
        forall|k: int| 0 <= k < parts.page.len() ==> #[trigger] parts.page[k] != ' ',
{
    reveal_strlit(" Product=");
    reveal_strlit(" Page=");
    reveal_strlit(" Usage=");
    spelling::a_text_spells_one_number(parts.vendor, vendor_id, vendor_id);
    spelling::a_text_spells_one_number(parts.product, product_id, product_id);
    spelling::a_text_spells_one_number(parts.page, usage_page, usage_page);
    assert(name =~= "Vendor="@ + (parts.vendor + from_product(parts)));
}

/// A text is the name of at most one vendor, product, usage page and usage.
pub proof fn a_name_tells_the_numbers_apart(name: Seq<char>, a: (int, int, int, int), b: (
    int,
    int,
    int,
    int,
))
    requires
        is_name(name, a.0, a.1, a.2, a.3),
        is_name(name, b.0, b.1, b.2, b.3),
    ensures
        a == b,
{
    let p = choose|p: Labelled| is_name_of_parts(name, p, a.0, a.1, a.2, a.3);
    let q = choose|q: Labelled| is_name_of_parts(name, q, b.0, b.1, b.2, b.3);
    names_are_their_parts(name, p, a.0, a.1, a.2, a.3);
    names_are_their_parts(name, q, b.0, b.1, b.2, b.3);
    texts_go_on_alike("Vendor="@, p.vendor + from_product(p), q.vendor + from_product(q));
    texts_part_at_the_space(p.vendor, q.vendor, from_product(p), from_product(q));
    texts_go_on_alike(" Product="@, p.product + from_page(p), q.product + from_page(q));
    texts_part_at_the_space(p.product, q.product, from_page(p), from_page(q));
    texts_go_on_alike(" Page="@, p.page + from_usage(p), q.page + from_usage(q));
    texts_part_at_the_space(p.page, q.page, from_usage(p), from_usage(q));
    texts_go_on_alike(" Usage="@, p.usage, q.usage);
    spelling::a_text_spells_one_number(p.vendor, a.0, b.0);
    spelling::a_text_spells_one_number(p.product, a.1, b.1);
    spelling::a_text_spells_one_number(p.page, a.2, b.2);
    spelling::a_text_spells_one_number(p.usage, a.3, b.3);
}

/// Names that are equal come of equal vendors, products, usage pages and usages.
pub proof fn equal_names_come_of_equal_numbers(a: (i32, i32, i32, i32), b: (i32, i32, i32, i32))
    requires
        property::name_of(a.0, a.1, a.2, a.3) == property::name_of(b.0, b.1, b.2, b.3),
    ensures
        a == b,
{
    names_spell_their_numbers(a.0, a.1, a.2, a.3);
    names_spell_their_numbers(b.0, b.1, b.2, b.3);
    a_name_tells_the_numbers_apart(
        property::name_of(a.0, a.1, a.2, a.3),
        (a.0 as int, a.1 as int, a.2 as int, a.3 as int),
        (b.0 as int, b.1 as int, b.2 as int, b.3 as int),
    );
}

/// Whether `name` is the name of a device with these properties.
pub open spec fn is_name_by(name: Seq<char>, properties: Properties) -> bool {
    is_name(
        name,
        number(properties(PropertyKey::VendorId)),
        number(properties(PropertyKey::ProductId)),
        number_or(
            properties(PropertyKey::DeviceUsagePage),
            properties(PropertyKey::PrimaryUsagePage),
        ),
        number_or(properties(PropertyKey::DeviceUsage), properties(PropertyKey::PrimaryUsage)),
    )
}

/// Asking a device for its name gives the four numbers that its properties
/// stand for, each behind its label.
pub proof fn names_spell_the_devices_properties(properties: Properties)
    ensures
        is_name_by(laws::name_asked(Readings::none(), properties), properties),
{
    laws::asking_ends_with_the_devices_answer(properties);
    names_spell_their_numbers(
        property::int_property(properties(PropertyKey::VendorId)),
        property::int_property(properties(PropertyKey::ProductId)),
        property::usage_page(properties),
        property::usage(properties),
    );
}

/// Once a device's four numbers have been read, its name spells them.
pub proof fn names_spell_the_readings(
    readings: Readings,
    vendor_id: i32,
    product_id: i32,
    usage_page: i32,
    usage: i32,
)
    requires
        readings.vendor_id == Some(vendor_id),
        readings.product_id == Some(product_id),
        readings.device_usage matches Some(own) && (own + 1 != 0 ==> own == usage) && (own + 1 == 0
            ==> readings.primary_usage == Some(usage)),
        readings.device_usage_page matches Some(own) && (own + 1 != 0 ==> own == usage_page) && (own
            + 1 == 0 ==> readings.primary_usage_page == Some(usage_page)),
    ensures
        property::name_answer(readings) matches Answer::Ready(name) && is_name(
            name,
            vendor_id as int,
            product_id as int,
            usage_page as int,
            usage as int,
        ),
{
    names_spell_their_numbers(vendor_id, product_id, usage_page, usage);
}

/// A device that is looked at is added behind those found before when it is a
/// U2F device, and changes nothing when it is not.
pub proof fn found_devices_are_added_last(
    device_refs: Seq<IOHIDDeviceRef>,
    device_ref: IOHIDDeviceRef,
)
    ensures
        property::located(device_refs, device_ref, true) == device_refs + seq![device_ref],
        property::located(device_refs, device_ref, false) == device_refs,
{
    assert(property::located(device_refs, device_ref, true) =~= device_refs + seq![device_ref]);
}

/// When the devices found are those that looking at `refs` finds, and each
/// device that is asked for its name gives the one that asking it gives, an
/// opened manager holds those of `refs` that say that they are U2F devices, all
/// of them and in order, and the name of each spells its own properties.
pub proof fn opened_managers_hold_the_devices_that_say_so(
    run: OpenRun,
    manager: PlatformManager,
    refs: Seq<IOHIDDeviceRef>,
    properties_of: spec_fn(IOHIDDeviceRef) -> Properties,
)
    requires
        run.possible(),
        run.events.len() > 0,
        run.actions.last() == OpenAction::Finish(manager),
        run.events[2] matches OpenEvent::DevicesFound(found) ==> found@ == laws::located_among(
            refs,
            properties_of,
        ),
        forall|i: int|
            0 <= i < run.events.len() - 1 ==> (#[trigger] run.actions[i] matches
                OpenAction::NameDevice(asked) ==> (run.events[i + 1] matches
                OpenEvent::DeviceNamed(name) ==> name@ == laws::name_asked(
                Readings::none(),
                properties_of(asked),
            ))),
    ensures
        manager.devices().map_values(|key: Device| key.device.device_ref) == refs.filter(
            |device_ref: IOHIDDeviceRef| says_u2f(properties_of(device_ref)),
        ),
        forall|k: int|
            0 <= k < manager.devices().len() ==> is_name_by(
                (#[trigger] manager.devices()[k]).device.name@,
                properties_of(manager.devices()[k].device.device_ref),
            ),
{
    laws::keys_are_the_devices_found(run, manager);
    laws::looking_finds_the_u2f_devices(refs, properties_of);
    let by_answer = |device_ref: IOHIDDeviceRef| property::is_u2f_by(properties_of(device_ref));
    let by_saying = |device_ref: IOHIDDeviceRef| says_u2f(properties_of(device_ref));
    assert forall|device_ref: IOHIDDeviceRef| #[trigger]
        by_answer(device_ref) == by_saying(device_ref) by {
        u2f_devices_are_those_that_say_so(properties_of(device_ref));
        laws::asking_ends_with_the_devices_answer(properties_of(device_ref));
    }
    assert(by_answer =~= by_saying);
    assert forall|k: int| 0 <= k < manager.devices().len() implies is_name_by(
        (#[trigger] manager.devices()[k]).device.name@,
        properties_of(manager.devices()[k].device.device_ref),
    ) by {
        laws::keys_bear_the_names_that_they_gave(run, manager, k);
        assert(run.actions[2 + 2 * k] is NameDevice);
        names_spell_the_devices_properties(
            properties_of(manager.devices()[k].device.device_ref),
        );
    }
}

/// A device is shown with its own name, with its whole reference in hexadecimal,
/// and with the four bytes of its channel, two digits each; a handle is shown
/// as its device is.
pub proof fn devices_are_shown_as_they_are(device: Device) -> (shown: (Seq<char>, Seq<char>))
    ensures
        device.shown() == "Device(InternalDevice("@ + device.device.name@ + ", ref:0x"@ + shown.0
            + ", cid: "@ + shown.1 + "))"@,
        device.device.shown() == "InternalDevice("@ + device.device.name@ + ", ref:0x"@ + shown.0
            + ", cid: "@ + shown.1 + ")"@,
        spelling::spells_natural(shown.0, device.device.device_ref as nat, 16),
        shown.1.len() == 8,
        forall|k: int|
            0 <= k < 4 ==> {
                &&& spelling::digit_value(shown.1[2 * k]) < 16
                &&& spelling::digit_value(shown.1[2 * k + 1]) < 16
                &&& spelling::digit_value(shown.1[2 * k]) * 16 + spelling::digit_value(
                    shown.1[2 * k + 1],
                ) == #[trigger] device.device.cid@[k]
            },
{
    let inner: InternalDevice = *device.device;
    let reference = text::digits(inner.device_ref as nat, 16);
    let b0 = text::hex_byte(inner.cid[0]);
    let b1 = text::hex_byte(inner.cid[1]);
    let b2 = text::hex_byte(inner.cid[2]);
    let b3 = text::hex_byte(inner.cid[3]);
    let channel = b0 + b1 + b2 + b3;
    spelling::digits_spell_their_number(inner.device_ref as nat, 16);
    spelling::hex_bytes_spell_their_byte(inner.cid[0]);
    spelling::hex_bytes_spell_their_byte(inner.cid[1]);
    spelling::hex_bytes_spell_their_byte(inner.cid[2]);
    spelling::hex_bytes_spell_their_byte(inner.cid[3]);
    reveal_strlit("Device(");
    reveal_strlit("InternalDevice(");
    reveal_strlit("Device(InternalDevice(");
    reveal_strlit(")");
    reveal_strlit("))");
    assert("Device(InternalDevice("@ =~= "Device("@ + "InternalDevice("@);
    assert("))"@ =~= ")"@ + ")"@);
    assert(inner.shown() =~= "InternalDevice("@ + inner.name@ + ", ref:0x"@ + reference + ", cid: "@
        + channel + ")"@);
    assert(device.shown() =~= "Device(InternalDevice("@ + inner.name@ + ", ref:0x"@ + reference
        + ", cid: "@ + channel + "))"@);
    assert forall|k: int| 0 <= k < 4 implies {
        &&& spelling::digit_value(channel[2 * k]) < 16
        &&& spelling::digit_value(channel[2 * k + 1]) < 16
        &&& spelling::digit_value(channel[2 * k]) * 16 + spelling::digit_value(channel[2 * k + 1])
            == #[trigger] device.device.cid@[k]
    } by {
        assert(k == 0 || k == 1 || k == 2 || k == 3);
        assert(channel[0] == b0[0] && channel[1] == b0[1]);
        assert(channel[2] == b1[0] && channel[3] == b1[1]);
        assert(channel[4] == b2[0] && channel[5] == b2[1]);
        assert(channel[6] == b3[0] && channel[7] == b3[1]);
    }
    (reference, channel)
}

} // verus!
