# u2fhid

The macOS HID transport of a U2F library, verified with Verus: finding security
keys among the HID devices that IOKit knows, opening a manager over them, and
moving reports to and from a key.

- `src/` is the verified library. It never calls IOKit. Where it takes turns
  with the system, it says what to do next from what the system came back with.
  - `report`: the reports that come in, and the requests that send them out
  - `device`: a key, its channel and its reports
  - `property`: whether a device is a U2F device, and its name
  - `manager`: opening the manager, and the keys that it knows
  - `run_loop`: the thread that listens to the devices
  - `text`, `error`, `consts`: what the others share
  - `outside`: what is believed of the standard library and of outside crates
  - `laws`: what holds of the whole
- `app/` joins the library to IOKit.
- `tests/` runs the library on concrete values.
