//! The macOS HID transport of a U2F library: finding security keys among the
//! HID devices that IOKit knows, opening a manager over them, and moving U2F
//! reports to and from a key.
//!
//! The library decides and computes; whoever uses it talks to IOKit. Where the
//! two take turns, the library says what to do next from what the system came
//! back with: see [`manager`], [`run_loop`] and [`property`]. What holds of the
//! whole is proved in [`laws`], and what the operations mean in plain numbers
//! and texts in [`meaning`].

pub mod consts;
pub mod device;
pub mod error;
pub mod laws;
pub mod manager;
pub mod meaning;
pub mod outside;
pub mod property;
pub mod report;
pub mod run_loop;
pub mod spelling;
pub mod text;

pub use consts::{
    IOHIDDeviceRef, IOHIDManagerRef, IOHIDReportType, CID_BROADCAST, FIDO_USAGE_PAGE,
    FIDO_USAGE_U2FHID, HID_RPT_SIZE, READ_TIMEOUT, REPORT_TYPE_OUTPUT,
};
pub use device::{assign_cid, Device, InternalDevice};
pub use error::{check_result, DeviceError, ReceiveError};
pub use manager::{
    open_platform_manager, AddedDevice, OpenAction, OpenEvent, OpenState, PlatformManager,
};
pub use property::{
    get_int_property, get_name, get_usage, get_usage_page, is_u2f_device, locate_hid_devices_cb,
    Answer, Property, PropertyKey, Readings, MISSING,
};
pub use report::{finish_read, input_len, set_report, Report, SetReport};
pub use run_loop::{next_action, LoopAction, LoopEvent};
