//! The reusable scratch buffer that holds an outgoing request or an incoming response.
use vstd::prelude::*;
use crate::error::Error;
use crate::protocol::{kind_of, MessageType};
use crate::utils::{byte_sum, checksum, checksum_of};

verus! {

/// Whether `s` is a checksummed frame: at least a header and the checksum byte, the last
/// byte being the 8-bit sum of all the others.
pub open spec fn crc_ok(s: Seq<u8>) -> bool {
    &&& s.len() >= 5
    &&& s.last() == checksum_of(0, s.drop_last())
}

/// The bytes of `s` before its trailing checksum byte (nothing when `s` is empty).
pub open spec fn data_of(s: Seq<u8>) -> Seq<u8> {
    if s.len() == 0 {
        Seq::empty()
    } else {
        s.drop_last()
    }
}

/// Verdict on an assembled response: it must start with a response header, hold a record
/// header before its checksum byte, and carry a valid checksum.
pub open spec fn response_status(s: Seq<u8>) -> Result<(), Error> {
    if s.len() >= 7 && kind_of(s) == Some(MessageType::Response) {
        if crc_ok(s) {
            Ok(())
        } else {
            Err(Error::BadCrc)
        }
    } else {
        Err(Error::LostConnection)
    }
}

/// Scratch buffer for one request/response exchange.
pub struct DataBuffer {
    raw: Vec<u8>,
}

impl View for DataBuffer {
    type V = Seq<u8>;

    closed spec fn view(&self) -> Seq<u8> {
        self.raw@
    }
}

impl DataBuffer {
    /// An empty buffer, with room for a typical response.
    pub fn new() -> (r: Self)
        ensures
            r@ == Seq::<u8>::empty(),
    {
        DataBuffer { raw: Vec::with_capacity(512) }
    }

    /// Empties the buffer.
    pub fn init(&mut self)
        ensures
            final(self)@ == Seq::<u8>::empty(),
    {
        self.raw.clear();
    }

    /// Appends `data`.
    pub fn add_data(&mut self, data: &[u8])
        ensures
            final(self)@ == old(self)@ + data@,
    {
        let mut i: usize = 0;
        while i < data.len()
            invariant
                i <= data@.len(),
                self.raw@ == old(self).raw@ + data@.subrange(0, i as int),
            decreases data@.len() - i,
        {
            self.raw.push(data[i]);
            i = i + 1;
        }
        assert(data@.subrange(0, data@.len() as int) == data@);
    }

    /// Appends the checksum of everything held so far.
    pub fn add_crc(&mut self)
        ensures
            final(self)@ == old(self)@.push(checksum_of(0, old(self)@)),
    {
        let crc = checksum(None, self.raw.as_slice());
        self.raw.push(crc);
    }

    /// The trailing checksum byte.
    pub fn crc(&self) -> (r: u8)
        requires
            self@.len() >= 1,
        ensures
            r == self@.last(),
    {
        self.raw[self.raw.len() - 1]
    }

    /// Everything before the trailing checksum byte.
    pub fn data(&self) -> (r: &[u8])
        ensures
            r@ == data_of(self@),
    {
        let len = self.raw.len();
        if len == 0 {
            self.raw.as_slice()
        } else {
            let (d, _) = self.raw.as_slice().split_at(len - 1);
            assert(d@ == self@.drop_last());
            d
        }
    }

    /// All bytes held, checksum included.
    pub fn as_slice(&self) -> (r: &[u8])
        ensures
            r@ == self@,
    {
        self.raw.as_slice()
    }

    /// Number of bytes held.
    pub fn len(&self) -> (r: usize)
        ensures
            r == self@.len(),
    {
        self.raw.len()
    }

    /// Whether the trailing byte is the checksum of the bytes before it (and the buffer
    /// is long enough to hold a header and a checksum).
    pub fn check_data_crc(&self) -> (r: bool)
        ensures
            r == crc_ok(self@),
    {
        if self.raw.len() < 5 {
            return false;
        }
        self.crc() == checksum(None, self.data())
    }

    /// Checks an assembled response: `LostConnection` unless it starts with a response
    /// header and holds a record header, `BadCrc` unless its checksum is valid.
    pub fn check_response(&self) -> (r: Result<(), Error>)
        ensures
            r == response_status(self@),
    {
        let len = self.raw.len();
        if len >= 7 {
            let d = self.data();
            match crate::protocol::RawRecord::try_from(d) {
                Ok(rec) => {
                    assert(rec.response.header@ =~= self@.subrange(0, 4));
                    match rec.response.message_type() {
                        Some(MessageType::Response) => {
                            if self.check_data_crc() {
                                Ok(())
                            } else {
                                Err(Error::BadCrc)
                            }
                        },
                        _ => Err(Error::LostConnection),
                    }
                },
                Err(_) => Err(Error::LostConnection),
            }
        } else {
            Err(Error::LostConnection)
        }
    }
}

} // verus!

verus! {

proof fn lemma_byte_sum_update(s: Seq<u8>, i: int, x: u8)
    requires
        0 <= i < s.len(),
    ensures
        byte_sum(s.update(i, x)) == byte_sum(s) - s[i] + x,
    decreases s.len(),
{
    let t = s.update(i, x);
    if i == s.len() - 1 {
        assert(t.drop_last() == s.drop_last());
    } else {
        lemma_byte_sum_update(s.drop_last(), i, x);
        assert(t.drop_last() == s.drop_last().update(i, x));
    }
}

proof fn lemma_flip_bit(b: u8, k: u8)
    by (bit_vector)
    requires
        k < 8,
    ensures
        (b & (1u8 << k) == 0 && (b ^ (1u8 << k)) == b + (1u8 << k)) || (b & (1u8 << k) == (1u8
            << k) && (b ^ (1u8 << k)) == b - (1u8 << k)),
        1 <= (1u8 << k) <= 128,
        (b ^ (1u8 << k)) != b,
{
}

/// Checksum round trip: flipping any single bit of a byte sequence changes its checksum;
/// a frame of at least a header followed by its checksum passes the checksum check, and
/// flipping any single bit of the frame or of the checksum byte makes it fail.
pub proof fn lemma_checksum_round_trip(s: Seq<u8>, i: int, k: u8)
    requires
        0 <= i < s.len(),
        k < 8,
    ensures
        checksum_of(0, s.update(i, s[i] ^ (1u8 << k))) != checksum_of(0, s),
        (checksum_of(0, s) ^ (1u8 << k)) != checksum_of(0, s),
        s.len() >= 4 ==> crc_ok(s.push(checksum_of(0, s))),
        s.len() >= 4 ==> !crc_ok(s.update(i, s[i] ^ (1u8 << k)).push(checksum_of(0, s))),
        s.len() >= 4 ==> !crc_ok(s.push(checksum_of(0, s) ^ (1u8 << k))),
{
    let c = checksum_of(0, s);
    assert(s.push(c).drop_last() == s);
    let y = s[i] ^ (1u8 << k);
    let t = s.update(i, y);
    assert(t.push(c).drop_last() == t);
    lemma_byte_sum_update(s, i, y);
    lemma_flip_bit(s[i], k);
    lemma_flip_bit(c, k);
    let m = (1u8 << k) as int;
    let x = byte_sum(s);
    assert((x + m) % 256 != x % 256);
    assert((x - m) % 256 != x % 256);
    assert(s.push(c ^ (1u8 << k)).drop_last() == s);
}

} // verus!
