use ubmsc::gatt::{JK_BMS_CHARACTERISTIC, JK_BMS_SERVICE};
use ubmsc::gatt::uuid_from_u16;
use ubmsc::protocol::{HEARTBEAT, REQUEST_HEADER, RESPONSE_HEADER};
use ubmsc::{checksum, DataBuffer, Error, MessageType, RawRecord, RawRequest, RawResponse, ResponseAssembler};

#[test]
fn checksum_wraps_around() {
    assert_eq!(checksum(None, &[]), 0);
    assert_eq!(checksum(None, &[1, 2, 3]), 6);
    assert_eq!(checksum(None, &[0xff, 0x02]), 0x01);
    assert_eq!(checksum(Some(0xfe), &[0x03]), 0x01);
}

#[test]
fn checksum_round_trip_and_bit_flips() {
    let s = [0x55u8, 0xaa, 0xeb, 0x90, 0x02, 0x10, 0x77];
    let mut b = DataBuffer::new();
    b.add_data(&s);
    b.add_crc();
    assert!(b.check_data_crc());
    for i in 0..b.len() {
        for k in 0..8 {
            let mut flipped = b.as_slice().to_vec();
            flipped[i] ^= 1 << k;
            let mut c = DataBuffer::new();
            c.add_data(&flipped);
            assert!(!c.check_data_crc(), "byte {i} bit {k}");
        }
    }
}

#[test]
fn short_frames_never_pass_the_checksum() {
    let mut b = DataBuffer::new();
    b.add_data(&[1, 2, 3]);
    b.add_crc();
    assert!(!b.check_data_crc());
}

#[test]
fn request_frame_layout() {
    let req = RawRequest::from(0x97);
    let mut b = DataBuffer::new();
    b.add_data(req.as_bytes().as_slice());
    b.add_crc();
    let bytes = b.as_slice();
    assert_eq!(bytes.len(), 20);
    assert_eq!(&bytes[..4], &REQUEST_HEADER);
    assert_eq!(bytes[4], 0x97);
    assert!(bytes[5..19].iter().all(|&x| x == 0));
    assert_eq!(bytes[19], (0xaau32 + 0x55 + 0x90 + 0xeb + 0x97) as u8);
    assert_eq!(b.crc(), bytes[19]);
    assert_eq!(b.data(), &bytes[..19]);
}

#[test]
fn buffer_init_empties() {
    let mut b = DataBuffer::new();
    b.add_data(&[1, 2]);
    b.init();
    assert_eq!(b.len(), 0);
    assert_eq!(b.data(), &[] as &[u8]);
}

#[test]
fn header_classification() {
    assert_eq!(RawResponse::try_from(&HEARTBEAT).unwrap().message_type(), Some(MessageType::Heartbeat));
    assert_eq!(RawResponse::try_from(&REQUEST_HEADER).unwrap().message_type(), Some(MessageType::Request));
    assert_eq!(RawResponse::try_from(&RESPONSE_HEADER).unwrap().message_type(), Some(MessageType::Response));
    assert_eq!(RawResponse::try_from(&[1, 2, 3, 4]).unwrap().message_type(), None);
    assert_eq!(RawResponse::try_from(&[1, 2, 3]).unwrap_err(), Error::NotEnoughData);
    let rec = RawRecord::try_from(&[0x55, 0xaa, 0xeb, 0x90, 0x03, 0x07]).unwrap();
    assert_eq!(rec.record_type, 0x03);
    assert_eq!(rec.record_number, 0x07);
    assert_eq!(RawRecord::try_from(&RESPONSE_HEADER).unwrap_err(), Error::NotEnoughData);
}

fn response(record_type: u8, payload: &[u8]) -> Vec<u8> {
    let mut m = RESPONSE_HEADER.to_vec();
    m.push(record_type);
    m.push(0x01);
    m.extend_from_slice(payload);
    m
}

#[test]
fn assembler_collects_fragments_until_next_header() {
    let ch = uuid_from_u16(JK_BMS_CHARACTERISTIC);
    let mut a = ResponseAssembler::new(ch, MessageType::Response, Some(0x03));
    let mut buf = DataBuffer::new();

    // a heartbeat and a response of another record type are ignored
    let mut n1 = HEARTBEAT.to_vec();
    n1.extend(response(0x02, &[9, 9]));
    assert!(!a.receive(ch, &n1, &mut buf));
    assert_eq!(buf.len(), 0);

    // notifications of another characteristic are dropped
    assert!(!a.receive(ch + 1, &response(0x03, &[1]), &mut buf));
    assert_eq!(buf.len(), 0);

    let first = response(0x03, &[1, 2]);
    assert!(!a.receive(ch, &first, &mut buf));
    assert!(a.started);
    assert_eq!(buf.as_slice(), first.as_slice());

    // continuation fragments, the short one included, are appended
    assert!(!a.receive(ch, &[7, 8, 9, 10, 11], &mut buf));
    assert!(!a.receive(ch, &[12], &mut buf));

    // a new header completes the response; the bytes after it are not taken
    let mut last = vec![13, 14];
    last.extend(&HEARTBEAT);
    last.extend(&[15]);
    assert!(a.receive(ch, &last, &mut buf));
    let mut expected = first.clone();
    expected.extend(&[7, 8, 9, 10, 11, 12, 13, 14]);
    assert_eq!(buf.as_slice(), expected.as_slice());
}

#[test]
fn check_response_verdicts() {
    let mut b = DataBuffer::new();
    assert_eq!(b.check_response(), Err(Error::LostConnection));
    b.add_data(&response(0x03, &[1, 2, 3]));
    b.add_crc();
    assert_eq!(b.check_response(), Ok(()));

    let mut bad = b.as_slice().to_vec();
    let last = bad.len() - 1;
    bad[last] ^= 0x01;
    let mut c = DataBuffer::new();
    c.add_data(&bad);
    assert_eq!(c.check_response(), Err(Error::BadCrc));

    let mut d = DataBuffer::new();
    d.add_data(&[REQUEST_HEADER.as_slice(), &[3, 1, 0]].concat());
    d.add_crc();
    assert_eq!(d.check_response(), Err(Error::LostConnection));
}

#[test]
fn vendor_uuids() {
    assert_eq!(uuid_from_u16(JK_BMS_SERVICE), 0x0000ffe0_0000_1000_8000_00805f9b34fb);
    assert_eq!(uuid_from_u16(JK_BMS_CHARACTERISTIC), 0x0000ffe1_0000_1000_8000_00805f9b34fb);
}
