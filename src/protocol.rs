//! Wire protocol: message headers, the notification framer and the record headers.
use vstd::prelude::*;

verus! {

/// Header of a heartbeat message (`AT\r\n`).
pub const HEARTBEAT: [u8; 4] = [0x41, 0x54, 0x0d, 0x0a];

/// Header of a request frame.
pub const REQUEST_HEADER: [u8; 4] = [0xaa, 0x55, 0x90, 0xeb];

/// Header of a response frame.
pub const RESPONSE_HEADER: [u8; 4] = [0x55, 0xaa, 0xeb, 0x90];

/// Kind of a message, told by its four-byte header.
#[derive(Clone, Copy, Debug, PartialEq, Eq, Structural)]
pub enum MessageType {
    Request,
    Response,
    Heartbeat,
}

/// The kind of message whose header is the four bytes `b0 b1 b2 b3`, if any.
pub open spec fn header_kind(b0: u8, b1: u8, b2: u8, b3: u8) -> Option<MessageType> {
    if b0 == 0xaa && b1 == 0x55 && b2 == 0x90 && b3 == 0xeb {
        Some(MessageType::Request)
    } else if b0 == 0x55 && b1 == 0xaa && b2 == 0xeb && b3 == 0x90 {
        Some(MessageType::Response)
    } else if b0 == 0x41 && b1 == 0x54 && b2 == 0x0d && b3 == 0x0a {
        Some(MessageType::Heartbeat)
    } else {
        None
    }
}

/// The kind of message that `s` starts with (`None` when shorter than a header).
pub open spec fn kind_of(s: Seq<u8>) -> Option<MessageType> {
    if s.len() < 4 {
        None
    } else {
        header_kind(s[0], s[1], s[2], s[3])
    }
}

/// Whether one of the three known headers starts at offset `i` of `b`.
pub open spec fn header_at(b: Seq<u8>, i: int) -> bool {
    &&& 0 <= i
    &&& i + 4 <= b.len()
    &&& header_kind(b[i], b[i + 1], b[i + 2], b[i + 3]) is Some
}

/// Whether `h` is exactly one of the three known headers.
pub open spec fn is_header(h: Seq<u8>) -> bool {
    h.len() == 4 && kind_of(h) is Some
}

/// First offset at or after `i` where a header starts, or the length of `b` if none.
pub open spec fn boundary_from(b: Seq<u8>, i: int) -> int
    decreases b.len() - i,
{
    if i >= b.len() {
        b.len() as int
    } else if header_at(b, i) {
        i
    } else {
        boundary_from(b, i + 1)
    }
}

/// Where the first message of `b` ends: the first header after offset 0, or the end.
pub open spec fn first_message_end(b: Seq<u8>) -> int {
    boundary_from(b, 1)
}

pub proof fn lemma_boundary_bounds(b: Seq<u8>, i: int)
    requires
        i <= b.len(),
    ensures
        i <= boundary_from(b, i) <= b.len(),
    decreases b.len() - i,
{
    if i < b.len() && !header_at(b, i) {
        lemma_boundary_bounds(b, i + 1);
    }
}

/// The messages that the framer splits `b` into, in order: successive calls of
/// `MessageIter::next` on `b` yield exactly these.
pub open spec fn split_messages(b: Seq<u8>) -> Seq<Seq<u8>>
    decreases b.len(),
{
    if b.len() == 0 {
        Seq::empty()
    } else {
        let k = first_message_end(b);
        proof {
            lemma_boundary_bounds(b, 1);
        }
        seq![b.subrange(0, k)] + split_messages(b.subrange(k, b.len() as int))
    }
}

/// Concatenation of a sequence of messages.
pub open spec fn concat_messages(ms: Seq<Seq<u8>>) -> Seq<u8>
    decreases ms.len(),
{
    if ms.len() == 0 {
        Seq::empty()
    } else {
        ms[0] + concat_messages(ms.drop_first())
    }
}

/// Whether no known header starts anywhere inside `p`.
pub open spec fn free_of_headers(p: Seq<u8>) -> bool {
    forall|i: int| 0 <= i < p.len() ==> !#[trigger] header_at(p, i)
}

proof fn lemma_boundary_skip(b: Seq<u8>, i: int, j: int)
    requires
        i <= j <= b.len(),
        forall|k: int| i <= k < j ==> !#[trigger] header_at(b, k),
    ensures
        boundary_from(b, i) == boundary_from(b, j),
    decreases j - i,
{
    if i < j {
        lemma_boundary_skip(b, i + 1, j);
    }
}

/// Framer completeness: concatenating the messages of a payload gives the payload back
/// exactly; there are finitely many (no more than bytes), none is empty, and an empty
/// payload yields none.
pub proof fn lemma_framer_complete(b: Seq<u8>)
    ensures
        concat_messages(split_messages(b)) == b,
        split_messages(b).len() <= b.len(),
        b.len() == 0 ==> split_messages(b).len() == 0,
        forall|j: int|
            0 <= j < split_messages(b).len() ==> #[trigger] split_messages(b)[j].len() > 0,
    decreases b.len(),
{
    if b.len() > 0 {
        let k = first_message_end(b);
        lemma_boundary_bounds(b, 1);
        let rest = b.subrange(k, b.len() as int);
        lemma_framer_complete(rest);
        let ms = split_messages(b);
        assert(ms.drop_first() == split_messages(rest));
        assert(b.subrange(0, k) + rest == b);
        assert forall|j: int| 0 <= j < ms.len() implies #[trigger] ms[j].len() > 0 by {
            if j > 0 {
                assert(ms[j] == split_messages(rest)[j - 1]);
            }
        }
    }
}

/// No header starts at offsets 1 to 3 of a message that begins with a header, whatever
/// follows it: the known headers do not overlap themselves or each other.
proof fn lemma_no_header_inside_header(b: Seq<u8>, s: int, k: int)
    requires
        0 <= s,
        s + 4 <= b.len(),
        header_at(b, s),
        s < k < s + 4,
    ensures
        !header_at(b, k),
{
}

/// A header cannot start in the last three bytes before another header.
proof fn lemma_no_header_across(b: Seq<u8>, e: int, k: int)
    requires
        0 <= k < e,
        e < k + 4,
        header_at(b, e),
    ensures
        !header_at(b, k),
{
}

/// Framer boundary law: a header and payload followed by a header and payload split
/// into exactly those two messages, each starting with its header, provided neither
/// payload holds a header of its own.
pub proof fn lemma_framer_two_messages(h1: Seq<u8>, p1: Seq<u8>, h2: Seq<u8>, p2: Seq<u8>)
    requires
        is_header(h1),
        is_header(h2),
        free_of_headers(p1),
        free_of_headers(p2),
    ensures
        split_messages(h1 + p1 + h2 + p2) == seq![h1 + p1, h2 + p2],
{
    let m1 = h1 + p1;
    let m2 = h2 + p2;
    let b = m1 + m2;
    assert(h1 + p1 + h2 + p2 == b);
    let n1 = m1.len() as int;
    assert(header_at(b, 0));
    assert(header_at(b, n1));
    assert forall|k: int| 1 <= k < n1 implies !#[trigger] header_at(b, k) by {
        if k < 4 {
            lemma_no_header_inside_header(b, 0, k);
        } else if k + 4 > n1 {
            lemma_no_header_across(b, n1, k);
        } else {
            assert(!header_at(p1, k - 4));
            assert(b[k] == p1[k - 4] && b[k + 1] == p1[k - 3]);
            assert(b[k + 2] == p1[k - 2] && b[k + 3] == p1[k - 1]);
        }
    }
    lemma_boundary_skip(b, 1, n1);
    assert(first_message_end(b) == n1);
    assert(b.subrange(0, n1) == m1);
    assert(b.subrange(n1, b.len() as int) == m2);
    let n2 = m2.len() as int;
    assert(header_at(m2, 0));
    assert forall|k: int| 1 <= k < n2 implies !#[trigger] header_at(m2, k) by {
        if k < 4 {
            lemma_no_header_inside_header(m2, 0, k);
        } else if header_at(m2, k) {
            assert(m2[k] == p2[k - 4] && m2[k + 1] == p2[k - 3]);
            assert(m2[k + 2] == p2[k - 2] && m2[k + 3] == p2[k - 1]);
            assert(header_at(p2, k - 4));
        }
    }
    lemma_boundary_skip(m2, 1, n2);
    assert(first_message_end(m2) == n2);
    assert(m2.subrange(0, n2) == m2);
    assert(m2.subrange(n2, n2) == Seq::<u8>::empty());
    assert(split_messages(Seq::<u8>::empty()) == Seq::<Seq<u8>>::empty());
    assert(split_messages(m2) == seq![m2] + Seq::<Seq<u8>>::empty());
    assert(seq![m2] + Seq::<Seq<u8>>::empty() == seq![m2]);
    assert(split_messages(b) == seq![m1] + split_messages(m2));
}

/// Classifies the four bytes `b0 b1 b2 b3` as a header.
pub fn classify(b0: u8, b1: u8, b2: u8, b3: u8) -> (r: Option<MessageType>)
    ensures
        r == header_kind(b0, b1, b2, b3),
{
    if b0 == 0xaa && b1 == 0x55 && b2 == 0x90 && b3 == 0xeb {
        Some(MessageType::Request)
    } else if b0 == 0x55 && b1 == 0xaa && b2 == 0xeb && b3 == 0x90 {
        Some(MessageType::Response)
    } else if b0 == 0x41 && b1 == 0x54 && b2 == 0x0d && b3 == 0x0a {
        Some(MessageType::Heartbeat)
    } else {
        None
    }
}

/// Whether a known header starts at offset `i` of `raw`.
fn starts_header(raw: &[u8], i: usize) -> (r: bool)
    requires
        i <= raw@.len(),
    ensures
        r == header_at(raw@, i as int),
{
    if raw.len() - i < 4 {
        false
    } else {
        classify(raw[i], raw[i + 1], raw[i + 2], raw[i + 3]).is_some()
    }
}

/// Splits one raw notification payload into the messages it holds.
///
/// Each call to `next` yields the next message: it runs from the current position up to
/// the next offset (never the first) where a known header starts, or to the end.
pub struct MessageIter<'r> {
    raw: &'r [u8],
}

impl<'r> View for MessageIter<'r> {
    type V = Seq<u8>;

    /// The bytes not yet handed out.
    closed spec fn view(&self) -> Seq<u8> {
        self.raw@
    }
}

impl<'r> MessageIter<'r> {
    /// A framer over all of `raw`.
    pub fn from(raw: &'r [u8]) -> (r: Self)
        ensures
            r@ == raw@,
    {
        MessageIter { raw }
    }

    /// The next message, or `None` once the payload is used up.
    pub fn next(&mut self) -> (r: Option<&'r [u8]>)
        ensures
            match r {
                None => old(self)@.len() == 0 && final(self)@ == old(self)@,
                Some(m) => {
                    let k = first_message_end(old(self)@);
                    &&& old(self)@.len() > 0
                    &&& m@ == old(self)@.subrange(0, k)
                    &&& final(self)@ == old(self)@.subrange(k, old(self)@.len() as int)
                },
            },
    {
        let l = self.raw.len();
        if l == 0 {
            return None;
        }
        let mut i: usize = 1;
        while i < l
            invariant
                1 <= i <= l,
                l == self.raw@.len(),
                self.raw@ == old(self).raw@,
                boundary_from(self.raw@, 1) == boundary_from(self.raw@, i as int),
            decreases l - i,
        {
            if starts_header(self.raw, i) {
                let (item, rest) = self.raw.split_at(i);
                self.raw = rest;
                return Some(item);
            }
            i = i + 1;
        }
        let (item, rest) = self.raw.split_at(l);
        self.raw = rest;
        Some(item)
    }
}

} // verus!

verus! {

/// The bytes of the request header, as a sequence.
pub open spec fn request_header_seq() -> Seq<u8> {
    seq![0xaau8, 0x55u8, 0x90u8, 0xebu8]
}

/// A request frame without its checksum: header, command code and reserved bytes.
#[derive(Clone, Copy, Debug, Default)]
pub struct RawRequest {
    pub header: [u8; 4],
    pub command_code: u8,
    pub command_data: [u8; 14],
}

impl RawRequest {
    /// The request carrying `command_code`, with the request header and zeroed data.
    pub fn from(command_code: u8) -> (r: Self)
        ensures
            r.header@ == request_header_seq(),
            r.command_code == command_code,
            r.command_data@ == Seq::new(14, |i: int| 0u8),
    {
        let r = RawRequest { header: [0xaa, 0x55, 0x90, 0xeb], command_code, command_data: [0u8; 14] };
        assert(r.header@ == request_header_seq());
        assert(r.command_data@ == Seq::new(14, |i: int| 0u8));
        r
    }

    /// The wire bytes of the frame in field order (19 bytes; the checksum byte is added later).
    pub fn as_bytes(&self) -> (r: Vec<u8>)
        ensures
            r@ == self.header@ + seq![self.command_code] + self.command_data@,
            r@.len() == 19,
    {
        let mut r: Vec<u8> = Vec::with_capacity(20);
        let mut i: usize = 0;
        while i < 4
            invariant
                i <= 4,
                r@ == self.header@.subrange(0, i as int),
            decreases 4 - i,
        {
            r.push(self.header[i]);
            i = i + 1;
        }
        r.push(self.command_code);
        let mut j: usize = 0;
        while j < 14
            invariant
                j <= 14,
                r@ == self.header@ + seq![self.command_code] + self.command_data@.subrange(0, j as int),
            decreases 14 - j,
        {
            r.push(self.command_data[j]);
            j = j + 1;
        }
        assert(self.header@.subrange(0, 4) == self.header@);
        assert(self.command_data@.subrange(0, 14) == self.command_data@);
        assert(self.header@.len() == 4 && self.command_data@.len() == 14);
        r
    }
}

/// The header of a response message: its first four bytes.
#[derive(Clone, Copy, Debug, Default)]
pub struct RawResponse {
    pub header: [u8; 4],
}

impl RawResponse {
    /// Reads the header at the start of `raw`; fails when `raw` is shorter than a header.
    pub fn try_from(raw: &[u8]) -> (r: Result<RawResponse, crate::error::Error>)
        ensures
            match r {
                Ok(res) => raw@.len() >= 4 && res.header@ == raw@.subrange(0, 4),
                Err(e) => raw@.len() < 4 && e == crate::error::Error::NotEnoughData,
            },
    {
        if raw.len() < 4 {
            return Err(crate::error::Error::NotEnoughData);
        }
        let res = RawResponse { header: [raw[0], raw[1], raw[2], raw[3]] };
        assert(res.header@ == raw@.subrange(0, 4));
        Ok(res)
    }

    /// The kind of message this header announces, if it is one of the known headers.
    pub fn message_type(&self) -> (r: Option<MessageType>)
        ensures
            r == kind_of(self.header@),
    {
        classify(self.header[0], self.header[1], self.header[2], self.header[3])
    }
}

/// The header of a record: the response header, then the record type and number.
#[derive(Clone, Copy, Debug, Default)]
pub struct RawRecord {
    pub response: RawResponse,
    pub record_type: u8,
    pub record_number: u8,
}

impl RawRecord {
    /// Reads the record header at the start of `raw`; fails when `raw` is shorter than six bytes.
    pub fn try_from(raw: &[u8]) -> (r: Result<RawRecord, crate::error::Error>)
        ensures
            match r {
                Ok(rec) => {
                    &&& raw@.len() >= 6
                    &&& rec.response.header@ == raw@.subrange(0, 4)
                    &&& rec.record_type == raw@[4]
                    &&& rec.record_number == raw@[5]
                },
                Err(e) => raw@.len() < 6 && e == crate::error::Error::NotEnoughData,
            },
    {
        if raw.len() < 6 {
            return Err(crate::error::Error::NotEnoughData);
        }
        let response = RawResponse { header: [raw[0], raw[1], raw[2], raw[3]] };
        assert(response.header@ == raw@.subrange(0, 4));
        Ok(RawRecord { response, record_type: raw[4], record_number: raw[5] })
    }
}

} // verus!
