//! Byte-level helpers: the 8-bit checksum, little-endian integers and fixed-width text.
use vstd::prelude::*;
use vstd::utf8::{decode_utf8, valid_utf8};
use crate::error::Error;

verus! {

/// Sum of all bytes of `s`, as an unbounded integer.
pub open spec fn byte_sum(s: Seq<u8>) -> int
    decreases s.len(),
{
    if s.len() == 0 {
        0
    } else {
        byte_sum(s.drop_last()) + s.last()
    }
}

/// The 8-bit wrap-around sum of `s`, started at `init`.
pub open spec fn checksum_of(init: u8, s: Seq<u8>) -> u8 {
    ((init + byte_sum(s)) % 256) as u8
}

/// Unsigned 8-bit wrap-around sum of `data`, started at `init` (zero when absent).
pub fn checksum(init: Option<u8>, data: &[u8]) -> (r: u8)
    ensures
        r == checksum_of(
            match init {
                Some(v) => v,
                None => 0u8,
            },
            data@,
        ),
{
    let mut acc: u8 = match init {
        Some(v) => v,
        None => 0,
    };
    let ghost start = acc;
    let mut i: usize = 0;
    while i < data.len()
        invariant
            i <= data@.len(),
            acc == checksum_of(start, data@.subrange(0, i as int)),
        decreases data@.len() - i,
    {
        proof {
            let s = data@.subrange(0, i as int + 1);
            assert(s.drop_last() == data@.subrange(0, i as int));
        }
        acc = acc.wrapping_add(data[i]);
        i = i + 1;
    }
    proof {
        assert(data@.subrange(0, data@.len() as int) == data@);
    }
    acc
}


/// Index of the first non-NUL character of `s` at or after `i` (the length if none).
pub open spec fn first_non_nul(s: Seq<char>, i: int) -> int
    decreases s.len() - i,
{
    if i >= s.len() {
        s.len() as int
    } else if s[i] != '\0' {
        i
    } else {
        first_non_nul(s, i + 1)
    }
}

/// One past the last non-NUL character of `s` before `j` (zero if none).
pub open spec fn end_non_nul(s: Seq<char>, j: int) -> int
    decreases j,
{
    if j <= 0 {
        0
    } else if s[j - 1] != '\0' {
        j
    } else {
        end_non_nul(s, j - 1)
    }
}

/// `s` without its leading and trailing NUL characters.
pub open spec fn trim_nul(s: Seq<char>) -> Seq<char> {
    let a = first_non_nul(s, 0);
    let b = end_non_nul(s, s.len() as int);
    if a < b {
        s.subrange(a, b)
    } else {
        Seq::empty()
    }
}

/// Text of a fixed-width NUL-padded field: the decoded characters without their NUL
/// padding, or nothing when the bytes are not valid UTF-8.
pub open spec fn field_text(b: Seq<u8>) -> Seq<char> {
    if valid_utf8(b) {
        trim_nul(decode_utf8(b))
    } else {
        Seq::empty()
    }
}

/// Relies on `core::str::from_utf8`: it accepts exactly the valid UTF-8 byte sequences,
/// and the text it returns holds the characters that those bytes encode.
#[verifier::external_body]
fn str_from_utf8<'a>(bytes: &'a [u8]) -> (r: Option<&'a str>)
    ensures
        r is Some <==> valid_utf8(bytes@),
        r matches Some(s) ==> s@ == decode_utf8(bytes@),
{
    core::str::from_utf8(bytes).ok()
}

proof fn lemma_end_above(s: Seq<char>, j: int, a: int)
    requires
        0 <= a < j <= s.len(),
        s[a] != '\0',
    ensures
        end_non_nul(s, j) > a,
    decreases j,
{
    if s[j - 1] == '\0' {
        lemma_end_above(s, j - 1, a);
    }
}

proof fn lemma_end_at_most(s: Seq<char>, j: int)
    ensures
        end_non_nul(s, j) <= if j < 0 { 0 } else { j },
    decreases j,
{
    if j > 0 && s[j - 1] == '\0' {
        lemma_end_at_most(s, j - 1);
    }
}

/// `s` without leading and trailing NUL characters.
fn trim_nul_str(s: &str) -> (r: String)
    ensures
        r@ == trim_nul(s@),
{
    let n = s.unicode_len();
    let mut a: usize = 0;
    while a < n && s.get_char(a) == '\0'
        invariant
            a <= n,
            n == s@.len(),
            first_non_nul(s@, 0) == first_non_nul(s@, a as int),
        decreases n - a,
    {
        a = a + 1;
    }
    let mut b: usize = n;
    while b > a && s.get_char(b - 1) == '\0'
        invariant
            a <= b <= n,
            n == s@.len(),
            end_non_nul(s@, n as int) == end_non_nul(s@, b as int),
        decreases b,
    {
        b = b - 1;
    }
    proof {
        assert(first_non_nul(s@, a as int) == a);
        lemma_end_at_most(s@, b as int);
        if a < n {
            lemma_end_above(s@, n as int, a as int);
            assert(end_non_nul(s@, b as int) == b);
        }
    }
    let t = s.substring_char(a, b);
    String::from_str(t)
}

/// Text of a fixed-width NUL-padded field, trimmed of its NUL padding; fails with
/// `Utf8` when the bytes are not valid UTF-8.
pub fn ascii_to_string(ascii: &[u8]) -> (r: Result<String, Error>)
    ensures
        match r {
            Ok(s) => valid_utf8(ascii@) && s@ == trim_nul(decode_utf8(ascii@)),
            Err(e) => !valid_utf8(ascii@) && e == Error::Utf8,
        },
{
    match str_from_utf8(ascii) {
        Some(s) => Ok(trim_nul_str(s)),
        None => Err(Error::Utf8),
    }
}

/// Text of the fixed-width field `field`: as `ascii_to_string`, but text that is not valid
/// UTF-8 degrades to an empty string instead of failing the record.
pub fn ascii_to_string_safe(field: &str, ascii: &[u8]) -> (r: String)
    ensures
        r@ == field_text(ascii@),
{
    match ascii_to_string(ascii) {
        Ok(s) => s,
        Err(_) => String::new(),
    }
}

/// Value of the little-endian two's-complement 16-bit integer `b0 b1`.
pub open spec fn i16_le(b0: u8, b1: u8) -> int {
    let u = b0 + 256 * b1;
    if u >= 0x8000 {
        u - 0x10000
    } else {
        u
    }
}

/// Value of the little-endian unsigned 32-bit integer `b0 b1 b2 b3`.
pub open spec fn u32_le(b0: u8, b1: u8, b2: u8, b3: u8) -> int {
    b0 + 256 * b1 + 65536 * b2 + 16777216 * b3
}

/// Value of the little-endian two's-complement 32-bit integer `b0 b1 b2 b3`.
pub open spec fn i32_le(b0: u8, b1: u8, b2: u8, b3: u8) -> int {
    let u = u32_le(b0, b1, b2, b3);
    if u >= 0x8000_0000 {
        u - 0x1_0000_0000
    } else {
        u
    }
}

/// Reads a little-endian signed 16-bit integer.
pub fn i16le_to_int(raw: &[u8; 2]) -> (r: i16)
    ensures
        r as int == i16_le(raw[0], raw[1]),
{
    let u: u32 = raw[0] as u32 + 256 * raw[1] as u32;
    if u >= 0x8000 {
        (u as i32 - 0x10000) as i16
    } else {
        u as i16
    }
}

/// Reads a little-endian unsigned 32-bit integer.
pub fn u32le_to_int(raw: &[u8; 4]) -> (r: u32)
    ensures
        r as int == u32_le(raw[0], raw[1], raw[2], raw[3]),
{
    raw[0] as u32 + 256 * raw[1] as u32 + 65536 * raw[2] as u32 + 16777216 * raw[3] as u32
}

/// Reads a little-endian signed 32-bit integer.
pub fn i32le_to_int(raw: &[u8; 4]) -> (r: i32)
    ensures
        r as int == i32_le(raw[0], raw[1], raw[2], raw[3]),
{
    let u = u32le_to_int(raw);
    if u >= 0x8000_0000 {
        (u as i64 - 0x1_0000_0000) as i32
    } else {
        u as i32
    }
}

/// Reads a little-endian unsigned 32-bit counter.
pub fn u32le_to_count(raw: &[u8; 4]) -> (r: usize)
    ensures
        r as int == u32_le(raw[0], raw[1], raw[2], raw[3]),
{
    u32le_to_int(raw) as usize
}

/// Whether slot `k` (bytes `2k` and `2k + 1`) of `s` is the all-zero "unpopulated" marker.
pub open spec fn slot_is_empty(s: Seq<u8>, k: int) -> bool {
    s[2 * k] == 0 && s[2 * k + 1] == 0
}

/// Values of the populated ones among the first `n` two-byte slots of `s`, in order.
pub open spec fn populated_slots(s: Seq<u8>, n: int) -> Seq<int>
    decreases n,
{
    if n <= 0 {
        Seq::empty()
    } else if slot_is_empty(s, n - 1) {
        populated_slots(s, n - 1)
    } else {
        populated_slots(s, n - 1).push(i16_le(s[2 * (n - 1)], s[2 * (n - 1) + 1]))
    }
}

/// Number of unpopulated ones among the first `n` two-byte slots of `s`.
pub open spec fn empty_slots(s: Seq<u8>, n: int) -> int
    decreases n,
{
    if n <= 0 {
        0
    } else {
        empty_slots(s, n - 1) + if slot_is_empty(s, n - 1) {
            1int
        } else {
            0
        }
    }
}

/// Reads `count` little-endian signed 16-bit slots from `raw`, leaving out the slots that
/// are all zero bytes (they mark unpopulated entries, not zero values).
pub fn i16les_to_ints(raw: &[u8], count: usize) -> (r: Vec<i16>)
    requires
        2 * count <= raw@.len(),
    ensures
        r@.len() == populated_slots(raw@, count as int).len(),
        forall|k: int| 0 <= k < r@.len() ==> r@[k] as int == #[trigger] populated_slots(raw@, count as int)[k],
{
    let mut r: Vec<i16> = Vec::new();
    let len = raw.len();
    let mut k: usize = 0;
    while k < count
        invariant
            k <= count,
            len == raw@.len(),
            2 * count <= raw@.len(),
            r@.len() == populated_slots(raw@, k as int).len(),
            forall|j: int| 0 <= j < r@.len() ==> r@[j] as int == #[trigger] populated_slots(raw@, k as int)[j],
        decreases count - k,
    {
        let b0 = raw[2 * k];
        let b1 = raw[2 * k + 1];
        if b0 != 0 || b1 != 0 {
            r.push(i16le_to_int(&[b0, b1]));
        }
        k = k + 1;
    }
    r
}

/// Sentinel filtering: decoding `n` two-byte slots yields exactly one value per populated
/// slot, so every all-zero slot shortens the list by one.
pub proof fn lemma_sentinel_filtering(s: Seq<u8>, n: int)
    requires
        0 <= n,
    ensures
        populated_slots(s, n).len() + empty_slots(s, n) == n,
        empty_slots(s, n) > 0 ==> populated_slots(s, n).len() < n,
    decreases n,
{
    if n > 0 {
        lemma_sentinel_filtering(s, n - 1);
    }
}


/// Whether `needle` occurs in `hay` starting at offset `i`.
pub open spec fn occurs_at(hay: Seq<char>, needle: Seq<char>, i: int) -> bool {
    &&& 0 <= i
    &&& i + needle.len() <= hay.len()
    &&& hay.subrange(i, i + needle.len()) == needle
}

/// Whether `needle` occurs anywhere in `hay`.
pub open spec fn contains_text(hay: Seq<char>, needle: Seq<char>) -> bool {
    exists|i: int| occurs_at(hay, needle, i)
}

/// Whether two strings hold the same characters.
pub fn str_eq(a: &str, b: &str) -> (r: bool)
    ensures
        r == (a@ == b@),
{
    let n = a.unicode_len();
    if n != b.unicode_len() {
        return false;
    }
    let mut i: usize = 0;
    while i < n
        invariant
            i <= n,
            n == a@.len(),
            n == b@.len(),
            forall|j: int| 0 <= j < i ==> a@[j] == b@[j],
        decreases n - i,
    {
        if a.get_char(i) != b.get_char(i) {
            return false;
        }
        i = i + 1;
    }
    assert(a@ == b@);
    true
}

/// Whether `needle` occurs in `hay`.
pub fn str_contains(hay: &str, needle: &str) -> (r: bool)
    ensures
        r == contains_text(hay@, needle@),
{
    let n = hay.unicode_len();
    let m = needle.unicode_len();
    if m > n {
        return false;
    }
    let last = n - m;
    let mut i: usize = 0;
    loop
        invariant
            n == hay@.len(),
            m == needle@.len(),
            m <= n,
            last == n - m,
            i <= last,
            forall|k: int| 0 <= k < i ==> !occurs_at(hay@, needle@, k),
        decreases last - i,
    {
        let mut j: usize = 0;
        let mut same = true;
        while j < m
            invariant
                n == hay@.len(),
                m == needle@.len(),
                i + m <= n,
                j <= m,
                same ==> forall|t: int| 0 <= t < j ==> hay@[i + t] == needle@[t],
                !same ==> !occurs_at(hay@, needle@, i as int),
            decreases m - j,
        {
            if same && hay.get_char(i + j) != needle.get_char(j) {
                assert(hay@.subrange(i as int, i + m)[j as int] == hay@[i + j]);
                same = false;
            }
            j = j + 1;
        }
        if same {
            assert(hay@.subrange(i as int, i + m) == needle@);
            assert(occurs_at(hay@, needle@, i as int));
            return true;
        }
        if i == last {
            assert forall|k: int| !occurs_at(hay@, needle@, k) by {
                if 0 <= k && k <= i {
                }
            }
            return false;
        }
        i = i + 1;
    }
}

} // verus!
