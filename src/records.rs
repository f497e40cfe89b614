//! Decoding of the device-info and cell-data records from their fixed byte layouts.
use vstd::prelude::*;
use vstd::slice::slice_subrange;
use crate::error::Error;
use crate::types::{CellData, DeviceInfo};
use crate::utils::{
    ascii_to_string_safe, field_text, i16_le, i16le_to_int, i16les_to_ints, i32_le, i32le_to_int,
    populated_slots, u32_le, u32le_to_count, u32le_to_int,
};

verus! {

/// Record type of a device-info response.
pub const DEVICE_INFO_RECORD: u8 = 0x03;

/// Record type of a cell-data response.
pub const CELL_DATA_RECORD: u8 = 0x02;

/// Size of the device-info layout: record header and text and counter fields.
pub const DEVICE_INFO_LEN: usize = 150;

/// Size of the cell-data layout.
pub const CELL_DATA_LEN: usize = 256;

/// Text of the `width`-byte field at offset `off` of `b`.
pub open spec fn text_at(b: Seq<u8>, off: int, width: int) -> Seq<char> {
    field_text(b.subrange(off, off + width))
}

/// Little-endian unsigned 32-bit value at offset `off` of `b`.
pub open spec fn u32_at(b: Seq<u8>, off: int) -> int {
    u32_le(b[off], b[off + 1], b[off + 2], b[off + 3])
}

/// Little-endian signed 32-bit value at offset `off` of `b`.
pub open spec fn i32_at(b: Seq<u8>, off: int) -> int {
    i32_le(b[off], b[off + 1], b[off + 2], b[off + 3])
}

/// Little-endian signed 16-bit value at offset `off` of `b`.
pub open spec fn i16_at(b: Seq<u8>, off: int) -> int {
    i16_le(b[off], b[off + 1])
}

/// Whether the integers `v` are exactly the values `w`.
pub open spec fn same_values(v: Seq<i16>, w: Seq<int>) -> bool {
    v.len() == w.len() && forall|k: int| 0 <= k < v.len() ==> v[k] as int == #[trigger] w[k]
}

/// Whether `d` holds the fields of the device-info layout `b`.
pub open spec fn device_info_fields(b: Seq<u8>, d: DeviceInfo) -> bool {
    &&& d.device_model@ == text_at(b, 6, 16)
    &&& d.hardware_version@ == text_at(b, 22, 8)
    &&& d.software_version@ == text_at(b, 30, 8)
    &&& d.up_time as int == u32_at(b, 38)
    &&& d.poweron_times as int == u32_at(b, 42)
    &&& d.device_name@ == text_at(b, 46, 16)
    &&& d.device_passcode@ == text_at(b, 62, 16)
    &&& d.manufacturing_date@ == text_at(b, 78, 8)
    &&& d.serial_number@ == text_at(b, 86, 11)
    &&& d.passcode@ == text_at(b, 97, 5)
    &&& d.userdata@ == text_at(b, 102, 16)
    &&& d.setup_passcode@ == text_at(b, 118, 16)
    &&& d.userdata2@ == text_at(b, 134, 16)
}

/// The MOSFET temperature of the cell-data layout `b`: the primary field, or the secondary
/// one when the primary is all zero bytes.
pub open spec fn mosfet_temperature_of(b: Seq<u8>) -> int {
    if b[166] != 0 || b[167] != 0 {
        i16_at(b, 166)
    } else {
        i16_at(b, 254)
    }
}

/// Whether `c` holds the fields of the cell-data layout `b`.
pub open spec fn cell_data_fields(b: Seq<u8>, c: CellData) -> bool {
    &&& same_values(c.cell_voltage@, populated_slots(b.subrange(6, 70), 32))
    &&& c.average_cell_voltage as int == i16_at(b, 74)
    &&& c.delta_cell_voltage as int == i16_at(b, 76)
    &&& c.balance_current as int == i16_at(b, 78)
    &&& same_values(c.cell_resistance@, populated_slots(b.subrange(80, 144), 32))
    &&& c.battery_voltage as int == i32_at(b, 150)
    &&& c.battery_power as int == i32_at(b, 154)
    &&& c.battery_current as int == i32_at(b, 158)
    &&& same_values(c.battery_temperature@, populated_slots(b.subrange(162, 166), 2))
    &&& c.mosfet_temperature as int == mosfet_temperature_of(b)
    &&& c.remain_percent == b[173]
    &&& c.remain_capacity as int == u32_at(b, 174)
    &&& c.nominal_capacity as int == u32_at(b, 178)
    &&& c.cycle_count as int == u32_at(b, 182)
    &&& c.cycle_capacity as int == u32_at(b, 186)
    &&& c.up_time as int == u32_at(b, 194)
}

fn u32_at_exec(raw: &[u8], off: usize) -> (r: u32)
    requires
        off + 4 <= raw@.len(),
    ensures
        r as int == u32_at(raw@, off as int),
{
    u32le_to_int(&[raw[off], raw[off + 1], raw[off + 2], raw[off + 3]])
}

fn count_at(raw: &[u8], off: usize) -> (r: usize)
    requires
        off + 4 <= raw@.len(),
    ensures
        r as int == u32_at(raw@, off as int),
{
    u32le_to_count(&[raw[off], raw[off + 1], raw[off + 2], raw[off + 3]])
}

fn i32_at_exec(raw: &[u8], off: usize) -> (r: i32)
    requires
        off + 4 <= raw@.len(),
    ensures
        r as int == i32_at(raw@, off as int),
{
    i32le_to_int(&[raw[off], raw[off + 1], raw[off + 2], raw[off + 3]])
}

fn i16_at_exec(raw: &[u8], off: usize) -> (r: i16)
    requires
        off + 2 <= raw@.len(),
    ensures
        r as int == i16_at(raw@, off as int),
{
    i16le_to_int(&[raw[off], raw[off + 1]])
}

fn text_at_exec(field: &str, raw: &[u8], off: usize, width: usize) -> (r: String)
    requires
        off + width <= raw@.len(),
    ensures
        r@ == text_at(raw@, off as int, width as int),
{
    let len = raw.len();
    assert(off + width <= len);
    ascii_to_string_safe(field, slice_subrange(raw, off, off + width))
}

impl DeviceInfo {
    /// Decodes a device-info response (without its checksum byte).
    ///
    /// Fails with `NotEnoughData` when `raw` is shorter than the layout, and with
    /// `BadRecordType` when its record-type byte is not the device-info one.
    pub fn try_from(raw: &[u8]) -> (r: Result<DeviceInfo, Error>)
        ensures
            match r {
                Ok(d) => {
                    &&& raw@.len() >= DEVICE_INFO_LEN
                    &&& raw@[4] == DEVICE_INFO_RECORD
                    &&& device_info_fields(raw@, d)
                },
                Err(e) => if raw@.len() < DEVICE_INFO_LEN {
                    e == Error::NotEnoughData
                } else {
                    raw@[4] != DEVICE_INFO_RECORD && e == Error::BadRecordType
                },
            },
            raw@.len() > 4 && raw@[4] != DEVICE_INFO_RECORD ==> r is Err,
    {
        if raw.len() < DEVICE_INFO_LEN {
            return Err(Error::NotEnoughData);
        }
        if raw[4] != DEVICE_INFO_RECORD {
            return Err(Error::BadRecordType);
        }
        Ok(DeviceInfo {
            device_model: text_at_exec("device_model", raw, 6, 16),
            hardware_version: text_at_exec("hardware_version", raw, 22, 8),
            software_version: text_at_exec("software_version", raw, 30, 8),
            up_time: count_at(raw, 38),
            poweron_times: count_at(raw, 42),
            device_name: text_at_exec("device_name", raw, 46, 16),
            device_passcode: text_at_exec("device_passcode", raw, 62, 16),
            manufacturing_date: text_at_exec("manufacturing_date", raw, 78, 8),
            serial_number: text_at_exec("serial_number", raw, 86, 11),
            passcode: text_at_exec("passcode", raw, 97, 5),
            userdata: text_at_exec("userdata", raw, 102, 16),
            setup_passcode: text_at_exec("setup_passcode", raw, 118, 16),
            userdata2: text_at_exec("userdata2", raw, 134, 16),
        })
    }
}

impl CellData {
    /// Decodes a cell-data response (without its checksum byte).
    ///
    /// Fails with `NotEnoughData` when `raw` is shorter than the layout, and with
    /// `BadRecordType` when its record-type byte is not the cell-data one.
    pub fn try_from(raw: &[u8]) -> (r: Result<CellData, Error>)
        ensures
            match r {
                Ok(c) => {
                    &&& raw@.len() >= CELL_DATA_LEN
                    &&& raw@[4] == CELL_DATA_RECORD
                    &&& cell_data_fields(raw@, c)
                },
                Err(e) => if raw@.len() < CELL_DATA_LEN {
                    e == Error::NotEnoughData
                } else {
                    raw@[4] != CELL_DATA_RECORD && e == Error::BadRecordType
                },
            },
            raw@.len() > 4 && raw@[4] != CELL_DATA_RECORD ==> r is Err,
    {
        if raw.len() < CELL_DATA_LEN {
            return Err(Error::NotEnoughData);
        }
        if raw[4] != CELL_DATA_RECORD {
            return Err(Error::BadRecordType);
        }
        let mosfet_temperature = if raw[166] != 0 || raw[167] != 0 {
            i16_at_exec(raw, 166)
        } else {
            i16_at_exec(raw, 254)
        };
        Ok(CellData {
            cell_voltage: i16les_to_ints(slice_subrange(raw, 6, 70), 32),
            average_cell_voltage: i16_at_exec(raw, 74),
            delta_cell_voltage: i16_at_exec(raw, 76),
            balance_current: i16_at_exec(raw, 78),
            cell_resistance: i16les_to_ints(slice_subrange(raw, 80, 144), 32),
            battery_voltage: i32_at_exec(raw, 150),
            battery_power: i32_at_exec(raw, 154),
            battery_current: i32_at_exec(raw, 158),
            battery_temperature: i16les_to_ints(slice_subrange(raw, 162, 166), 2),
            mosfet_temperature,
            remain_percent: raw[173],
            remain_capacity: u32_at_exec(raw, 174),
            nominal_capacity: u32_at_exec(raw, 178),
            cycle_count: count_at(raw, 182),
            cycle_capacity: u32_at_exec(raw, 186),
            up_time: count_at(raw, 194),
        })
    }
}

} // verus!
