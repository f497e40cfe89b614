use ubmsc::records::{CELL_DATA_LEN, DEVICE_INFO_LEN};
use ubmsc::{CellData, DeviceInfo, Error};

fn device_info_fixture() -> Vec<u8> {
    let raw = [
                    0x55, 0xaa, 0xeb, 0x90, 0x03, 0x59, 0x4a, 0x4b, 0x5f, 0x42, 0x44, 0x34, 0x41, 0x38,
                    0x53, 0x34, 0x50, 0x00, 0x00, 0x00, 0x00, 0x00, 0x31, 0x35, 0x41, 0x00, 0x00, 0x00,
                    0x00, 0x00, 0x31, 0x35, 0x2e, 0x32, 0x36, 0x00, 0x00, 0x00, 0x7c, 0xe3, 0x18, 0x00,
                    0x01, 0x00, 0x00, 0x00, 0x61, 0x62, 0x63, 0x64, 0x65, 0x66, 0x67, 0x68, 0x00, 0x00,
                    0x00, 0x00, 0x00, 0x00, 0x00, 0x00, 0x31, 0x32, 0x33, 0x34, 0x00, 0x00, 0x00, 0x00,
                    0x00, 0x00, 0x00, 0x00, 0x00, 0x00, 0x00, 0x00, 0x32, 0x34, 0x30, 0x38, 0x31, 0x38,
                    0x00, 0x00, 0x34, 0x30, 0x35, 0x33, 0x31, 0x33, 0x31, 0x30, 0x36, 0x32, 0x39, 0x00,
                    0x30, 0x30, 0x30, 0x00, 0x4a, 0x4b, 0x2d, 0x42, 0x4d, 0x53, 0x00, 0x00, 0x00, 0x00,
                    0x00, 0x00, 0x00, 0x00, 0x00, 0x00, 0x31, 0x32, 0x33, 0x34, 0x35, 0x36, 0x37, 0x38,
                    0x39, 0x00, 0x00, 0x00, 0x00, 0x00, 0x00, 0x00, 0x4a, 0x4b, 0x2d, 0x42, 0x4d, 0x53,
                    0x00, 0x00, 0x00, 0x00, 0x00, 0x00, 0x00, 0x00, 0x00, 0x00, 0xfe, 0xff, 0xff, 0xff,
                    0x1f, 0xe9, 0x05, 0x02, 0x00, 0x00, 0x00, 0x00, 0x90, 0x1f, 0x00, 0x00, 0x00, 0x00,
                    0xc0, 0xd8, 0xe7, 0xf7, 0x3c, 0x00, 0x00, 0x01, 0x00, 0x00, 0x00, 0x00, 0x00, 0x00,
                    0x00, 0x00, 0x00, 0x00, 0xdf, 0x27, 0x00, 0x00, 0x00, 0x00, 0x00, 0x00, 0x00, 0x00,
                    0x00, 0x00, 0x00, 0x00, 0x00, 0x00, 0xdf, 0x0f, 0x00, 0x00, 0x00, 0x00, 0x00, 0x00,
                    0x00, 0x00, 0x00, 0x00, 0x00, 0x00, 0x00, 0x00, 0x03, 0xdf, 0x27, 0x00, 0x00, 0x00,
                    0x00, 0x00, 0x00, 0x00, 0x00, 0x00, 0x00, 0x00, 0x00, 0x00, 0x09, 0x08, 0x00, 0x01,
                    0x64, 0x00, 0x00, 0x00, 0x5f, 0x00, 0x00, 0x00, 0x3c, 0x00, 0x00, 0x00, 0x32, 0x00,
                    0x00, 0x00, 0x00, 0x00, 0x00, 0x00, 0x00, 0x00, 0x00, 0x00, 0x10, 0x0e, 0x00, 0x00,
                    0x32, 0x32, 0x01, 0x1e, 0x00, 0x00, 0x00, 0x00, 0x00, 0x00, 0x00, 0x00, 0x00, 0x00,
                    0x00, 0x00, 0x00, 0x00, 0x00, 0x00, 0x00, 0xfe, 0x9f, 0x69, 0x9f, 0x0f, 0x00, 0x00,
                    0x00, 0x00, 0x00, 0x00, 0x00, 0x08,
                ];
    raw.to_vec()
}

fn cell_data_fixture() -> Vec<u8> {
    let raw = [
                    0x55, 0xaa, 0xeb, 0x90, 0x02, 0x22, 0x50, 0x09, 0x50, 0x09, 0x50, 0x09, 0x50, 0x09,
                    0x50, 0x09, 0x4f, 0x09, 0x00, 0x00, 0x00, 0x00, 0x00, 0x00, 0x00, 0x00, 0x00, 0x00,
                    0x00, 0x00, 0x00, 0x00, 0x00, 0x00, 0x00, 0x00, 0x00, 0x00, 0x00, 0x00, 0x00, 0x00,
                    0x00, 0x00, 0x00, 0x00, 0x00, 0x00, 0x00, 0x00, 0x00, 0x00, 0x00, 0x00, 0x00, 0x00,
                    0x00, 0x00, 0x00, 0x00, 0x00, 0x00, 0x00, 0x00, 0x00, 0x00, 0x00, 0x00, 0x00, 0x00,
                    0x3f, 0x00, 0x00, 0x00, 0x50, 0x09, 0x00, 0x00, 0x00, 0x00, 0x8a, 0x00, 0x89, 0x00,
                    0x8c, 0x00, 0x8a, 0x00, 0x8b, 0x00, 0x8b, 0x00, 0x00, 0x00, 0x00, 0x00, 0x00, 0x00,
                    0x00, 0x00, 0x00, 0x00, 0x00, 0x00, 0x00, 0x00, 0x00, 0x00, 0x00, 0x00, 0x00, 0x00,
                    0x00, 0x00, 0x00, 0x00, 0x00, 0x00, 0x00, 0x00, 0x00, 0x00, 0x00, 0x00, 0x00, 0x00,
                    0x00, 0x00, 0x00, 0x00, 0x00, 0x00, 0x00, 0x00, 0x00, 0x00, 0x00, 0x00, 0x00, 0x00,
                    0x00, 0x00, 0x00, 0x00, 0x03, 0x01, 0x00, 0x00, 0x00, 0x00, 0xe2, 0x37, 0x00, 0x00,
                    0xb7, 0x08, 0x00, 0x00, 0x9c, 0x00, 0x00, 0x00, 0xee, 0x00, 0xf3, 0x00, 0x00, 0x00,
                    0x00, 0x00, 0x00, 0x00, 0x00, 0x64, 0xe0, 0x2e, 0x00, 0x00, 0xe0, 0x2e, 0x00, 0x00,
                    0x01, 0x00, 0x00, 0x00, 0x06, 0x41, 0x00, 0x00, 0x64, 0x00, 0x00, 0x00, 0x7c, 0x7c,
                    0x17, 0x00, 0x01, 0x01, 0x00, 0x00, 0x00, 0x00, 0x00, 0x00, 0x00, 0x00, 0x00, 0x00,
                    0x00, 0x00, 0x00, 0x00, 0x3f, 0x00, 0x01, 0x00, 0x00, 0x00, 0xd2, 0x03, 0x02, 0x00,
                    0x01, 0x00, 0xad, 0x69, 0x3e, 0x40, 0x00, 0x00, 0x00, 0x00, 0x96, 0x05, 0x00, 0x00,
                    0x00, 0x00, 0x00, 0x01, 0x03, 0x06, 0x01, 0x00, 0xd8, 0xdc, 0xea, 0x00, 0x00, 0x00,
                    0x00, 0x00, 0x03, 0x01, 0x30, 0xf8, 0x30, 0xf8, 0xcf, 0x03, 0xda, 0xe2, 0xcc, 0x08,
                    0x9e, 0x01, 0x00, 0x00, 0x80, 0x51, 0x01, 0x00, 0x00, 0x00, 0x00, 0x00, 0x00, 0x00,
                    0x00, 0x00, 0x00, 0x00, 0x00, 0x00, 0x00, 0xfe, 0xff, 0x7f, 0xdc, 0x0f, 0x01, 0x00,
                    0x80, 0x07, 0x00, 0x00, 0x00, 0x26,
                ];
    raw.to_vec()
}

#[test]
fn device_info() {
    let raw = device_info_fixture();

    let info = DeviceInfo::try_from(raw.as_slice()).unwrap();

    assert_eq!(info.device_model, "JK_BD4A8S4P");
    assert_eq!(info.hardware_version, "15A");
    assert_eq!(info.software_version, "15.26");
    assert_eq!(info.up_time, 1631100);
    assert_eq!(info.poweron_times, 1);
    assert_eq!(info.device_name, "abcdefgh");
    assert_eq!(info.device_passcode, "1234");
    assert_eq!(info.manufacturing_date, "240818");
    assert_eq!(info.serial_number, "40531310629");
    assert_eq!(info.passcode, "000");
    assert_eq!(info.userdata, "JK-BMS");
    assert_eq!(info.setup_passcode, "123456789");
    assert_eq!(info.userdata2, "JK-BMS");
}

fn scaled(v: &[i16], mul: f32) -> Vec<f32> {
    v.iter().map(|&x| x as f32 * mul).collect()
}

#[test]
fn cell_data() {
    let raw = cell_data_fixture();

    let info = CellData::try_from(raw.as_slice()).unwrap();

    assert_eq!(
        scaled(&info.cell_voltage, 1e-3),
        [2.384, 2.384, 2.384, 2.384, 2.384, 2.3830001]
    );
    assert_eq!(info.average_cell_voltage as f32 * 1e-3, 2.384);
    assert_eq!(info.delta_cell_voltage as f32 * 1e-3, 0.0);
    assert_eq!(info.balance_current as f32 * 1e-3, 0.0);
    assert_eq!(
        scaled(&info.cell_resistance, 1e-3),
        [0.13800001, 0.13700001, 0.14, 0.13800001, 0.13900001, 0.13900001]
    );
    assert_eq!(info.battery_voltage as f32 * 1e-3, 14.306001);
    assert_eq!(info.battery_power as f32 * 1e-3, 2.2310002);
    assert_eq!(info.battery_current as f32 * 1e-3, 0.156);
    assert_eq!(scaled(&info.battery_temperature, 1e-1), [23.800001, 24.300001]);
    assert_eq!(info.mosfet_temperature as f32 * 1e-1, 25.9);
    assert_eq!(info.remain_percent, 100);
    assert_eq!(info.remain_capacity as f32 * 1e-3, 12.000001);
    assert_eq!(info.nominal_capacity as f32 * 1e-3, 12.000001);
    assert_eq!(info.cycle_count, 1);
    assert_eq!(info.cycle_capacity as f32 * 1e-3, 16.646);
    assert_eq!(info.up_time, 1539196);
}

#[test]
fn cell_data_raw_units() {
    let info = CellData::try_from(cell_data_fixture().as_slice()).unwrap();
    assert_eq!(info.cell_voltage, vec![2384, 2384, 2384, 2384, 2384, 2383]);
    assert_eq!(info.cell_resistance, vec![138, 137, 140, 138, 139, 139]);
    assert_eq!(info.battery_voltage, 14306);
    assert_eq!(info.battery_temperature, vec![238, 243]);
    assert_eq!(info.mosfet_temperature, 259);
}

#[test]
fn device_info_rejects_other_record_type() {
    let mut raw = device_info_fixture();
    raw[4] = 0x02;
    assert_eq!(DeviceInfo::try_from(raw.as_slice()).unwrap_err(), Error::BadRecordType);
}

#[test]
fn cell_data_rejects_other_record_type() {
    let mut raw = cell_data_fixture();
    raw[4] = 0x03;
    assert_eq!(CellData::try_from(raw.as_slice()).unwrap_err(), Error::BadRecordType);
}

#[test]
fn records_need_their_whole_layout() {
    let raw = device_info_fixture();
    assert_eq!(
        DeviceInfo::try_from(&raw[..DEVICE_INFO_LEN - 1]).unwrap_err(),
        Error::NotEnoughData
    );
    assert!(DeviceInfo::try_from(&raw[..DEVICE_INFO_LEN]).is_ok());
    let raw = cell_data_fixture();
    assert_eq!(
        CellData::try_from(&raw[..CELL_DATA_LEN - 1]).unwrap_err(),
        Error::NotEnoughData
    );
    assert_eq!(CellData::try_from(&[]).unwrap_err(), Error::NotEnoughData);
}

#[test]
fn mosfet_temperature_falls_back_to_second_field() {
    let mut raw = cell_data_fixture();
    raw[166] = 0;
    raw[167] = 0;
    raw[254] = 0x2c;
    raw[255] = 0x01;
    let info = CellData::try_from(raw.as_slice()).unwrap();
    assert_eq!(info.mosfet_temperature, 300);
    raw[166] = 0xff;
    raw[167] = 0xff;
    let info = CellData::try_from(raw.as_slice()).unwrap();
    assert_eq!(info.mosfet_temperature, -1);
}

#[test]
fn zero_cell_slots_are_left_out() {
    let mut raw = cell_data_fixture();
    // empty the second voltage slot and populate the tenth with -2
    raw[8] = 0;
    raw[9] = 0;
    raw[24] = 0xfe;
    raw[25] = 0xff;
    let info = CellData::try_from(raw.as_slice()).unwrap();
    assert_eq!(info.cell_voltage, vec![2384, 2384, 2384, 2384, 2383, -2]);
}

#[test]
fn bad_text_degrades_to_empty() {
    let mut raw = device_info_fixture();
    raw[6] = 0xff;
    let info = DeviceInfo::try_from(raw.as_slice()).unwrap();
    assert_eq!(info.device_model, "");
    assert_eq!(info.hardware_version, "15A");
}
