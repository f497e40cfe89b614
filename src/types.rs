//! Device identity and the decoded business records.
use vstd::prelude::*;

verus! {

/// MAC address of a device, as its six bytes in transmission order.
#[derive(Clone, Copy, Debug, PartialEq, Eq, Hash, PartialOrd, Ord)]
pub struct MacAddr(pub [u8; 6]);

/// Identifier of a device: its MAC address or its advertised name.
#[derive(Clone, Debug, PartialEq, Eq, Hash, PartialOrd, Ord)]
pub enum DeviceId {
    /// MAC address
    Mac(MacAddr),
    /// Device name
    Name(String),
}

/// BMS device information.
#[derive(Clone, Debug)]
pub struct DeviceInfo {
    /// Model name
    pub device_model: String,
    /// Hardware version
    pub hardware_version: String,
    /// Firmware version
    pub software_version: String,
    /// Time in seconds since power-on
    pub up_time: usize,
    /// Number of power-ons
    pub poweron_times: usize,
    /// Device name
    pub device_name: String,
    /// Device passcode
    pub device_passcode: String,
    /// Manufacturing date
    pub manufacturing_date: String,
    /// Serial number
    pub serial_number: String,
    /// Passcode
    pub passcode: String,
    /// User data
    pub userdata: String,
    /// Passcode to change settings
    pub setup_passcode: String,
    /// Second user data
    pub userdata2: String,
}

/// BMS cell telemetry, in the fixed-point units that the device sends.
#[derive(Clone, Debug)]
pub struct CellData {
    /// Voltages of the populated cells, in millivolts
    pub cell_voltage: Vec<i16>,
    /// Average cell voltage, in millivolts
    pub average_cell_voltage: i16,
    /// Largest voltage difference between cells, in millivolts
    pub delta_cell_voltage: i16,
    /// Balance current, in milliamperes
    pub balance_current: i16,
    /// Resistances of the populated cells, in milliohms
    pub cell_resistance: Vec<i16>,
    /// Battery voltage between the terminals, in millivolts
    pub battery_voltage: i32,
    /// Battery power, in milliwatts
    pub battery_power: i32,
    /// Battery current, in milliamperes
    pub battery_current: i32,
    /// Battery temperatures of the populated sensors, in tenths of a degree Celsius
    pub battery_temperature: Vec<i16>,
    /// Power MOSFET temperature, in tenths of a degree Celsius
    pub mosfet_temperature: i16,
    /// Remaining capacity, in percent
    pub remain_percent: u8,
    /// Remaining capacity, in milliampere-hours
    pub remain_capacity: u32,
    /// Nominal capacity, in milliampere-hours
    pub nominal_capacity: u32,
    /// Number of battery cycles
    pub cycle_count: usize,
    /// Cycle capacity, in milliampere-hours
    pub cycle_capacity: u32,
    /// Time in seconds since the last power-on
    pub up_time: usize,
}

} // verus!

verus! {

/// Options of a client: the bounds of its waits, in whole seconds.
#[derive(Clone, Copy, Debug, PartialEq, Eq, Hash, PartialOrd, Ord)]
pub struct Options {
    /// Bound of a scan for devices, in seconds
    pub scan_timeout: u64,
    /// Bound of one request/response exchange, in seconds
    pub request_timeout: u64,
}

impl Default for Options {
    /// Scans are bounded by 30 seconds, requests by 5.
    fn default() -> (r: Options)
        ensures
            r.scan_timeout == 30,
            r.request_timeout == 5,
    {
        Options { scan_timeout: 30, request_timeout: 5 }
    }
}

/// Upper-case hexadecimal digit of `v` (below 16).
pub open spec fn hex_upper(v: int) -> char {
    seq!['0', '1', '2', '3', '4', '5', '6', '7', '8', '9', 'A', 'B', 'C', 'D', 'E', 'F'][v]
}

/// A MAC address as text: six two-digit upper-case hexadecimal bytes separated by colons.
pub open spec fn mac_text(b: Seq<u8>) -> Seq<char> {
    Seq::new(
        17,
        |j: int|
            if j % 3 == 2 {
                ':'
            } else if j % 3 == 0 {
                hex_upper(b[j / 3] as int / 16)
            } else {
                hex_upper(b[j / 3] as int % 16)
            },
    )
}

/// The six bytes that the `macaddr` parser reads from `s`, or `None` when `s` is not a MAC
/// address in one of the notations it accepts.
pub uninterp spec fn mac_parse(s: Seq<char>) -> Option<Seq<u8>>;

/// Relies on `FromStr` for `macaddr::MacAddr6`: it either fails or gives six bytes, and
/// the outcome depends on the text alone.
#[verifier::external_body]
fn parse_mac(s: &str) -> (r: Option<[u8; 6]>)
    ensures
        match r {
            Some(b) => mac_parse(s@) == Some(b@),
            None => mac_parse(s@) is None,
        },
{
    match s.parse::<macaddr::MacAddr6>() {
        Ok(m) => Some(m.into_array()),
        Err(_) => None,
    }
}

/// Relies on `Display` for `macaddr::MacAddr6`, which writes the six bytes as `{:02X}`
/// separated by colons.
#[verifier::external_body]
fn mac_to_string(b: [u8; 6]) -> (r: String)
    ensures
        r@ == mac_text(b@),
{
    macaddr::MacAddr6::from(b).to_string()
}

/// The text of a device identifier: the MAC address in colon notation, or the name.
pub open spec fn device_id_text(d: DeviceId) -> Seq<char> {
    match d {
        DeviceId::Mac(m) => mac_text(m.0@),
        DeviceId::Name(n) => n@,
    }
}

impl DeviceId {
    /// The identifier for the text `s`, given what parsing `s` as a MAC address gave:
    /// the address when it parsed, else `s` taken as a name.
    pub fn from_parsed(s: &str, mac: Option<[u8; 6]>) -> (r: DeviceId)
        ensures
            match mac {
                Some(b) => r == DeviceId::Mac(MacAddr(b)),
                None => r matches DeviceId::Name(n) && n@ == s@,
            },
    {
        match mac {
            Some(b) => DeviceId::Mac(MacAddr(b)),
            None => DeviceId::Name(String::from_str(s)),
        }
    }

    /// Parses a device identifier: a MAC address when `s` is one, else a device name.
    pub fn from_text(s: &str) -> (r: DeviceId)
        ensures
            match mac_parse(s@) {
                Some(b) => r matches DeviceId::Mac(m) && m.0@ == b,
                None => r matches DeviceId::Name(n) && n@ == s@,
            },
    {
        DeviceId::from_parsed(s, parse_mac(s))
    }

    /// The identifier as text: the MAC address in colon notation, or the name.
    pub fn to_string(&self) -> (r: String)
        ensures
            r@ == device_id_text(*self),
    {
        match self {
            DeviceId::Mac(m) => mac_to_string(m.0),
            DeviceId::Name(n) => n.clone(),
        }
    }

    /// Whether a peripheral with Bluetooth address `address` and advertised name
    /// `local_name` is this device: by address for a MAC identifier, by name otherwise.
    pub fn match_periphery(&self, address: &[u8; 6], local_name: Option<&str>) -> (r: bool)
        ensures
            r == match *self {
                DeviceId::Mac(m) => m.0@ == address@,
                DeviceId::Name(n) => match local_name {
                    Some(l) => l@ == n@,
                    None => false,
                },
            },
    {
        match self {
            DeviceId::Mac(m) => {
                let mut i: usize = 0;
                while i < 6
                    invariant
                        i <= 6,
                        *self == DeviceId::Mac(*m),
                        forall|j: int| 0 <= j < i ==> m.0@[j] == address@[j],
                    decreases 6 - i,
                {
                    if m.0[i] != address[i] {
                        assert(m.0@[i as int] != address@[i as int]);
                        return false;
                    }
                    i = i + 1;
                }
                assert(m.0@ == address@);
                true
            },
            DeviceId::Name(n) => match local_name {
                Some(l) => crate::utils::str_eq(l, n.as_str()),
                None => false,
            },
        }
    }

    /// Whether the adapter description `adapter_info` mentions this device: its MAC
    /// address in colon notation, or its name.
    pub fn match_adapter(&self, adapter_info: &str) -> (r: bool)
        ensures
            r == crate::utils::contains_text(adapter_info@, device_id_text(*self)),
    {
        let text = self.to_string();
        crate::utils::str_contains(adapter_info, text.as_str())
    }
}

impl core::str::FromStr for DeviceId {
    type Err = crate::error::Error;

    fn from_str(s: &str) -> core::result::Result<DeviceId, crate::error::Error> {
        Ok(DeviceId::from_text(s))
    }
}

} // verus!
