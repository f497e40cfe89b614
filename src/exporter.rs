//! Helpers of the metrics exporter: content negotiation and request routing.
use vstd::prelude::*;
use crate::utils::str_eq;

verus! {

/// Media type of the protobuf exposition format (`application/vnd.google.protobuf`).
pub const PROTOBUF_MEDIA_TYPE: [u8; 31] = [0x61, 0x70, 0x70, 0x6c, 0x69, 0x63, 0x61, 0x74, 0x69, 0x6f, 0x6e, 0x2f, 0x76, 0x6e, 0x64, 0x2e, 0x67, 0x6f, 0x6f, 0x67, 0x6c, 0x65, 0x2e, 0x70, 0x72, 0x6f, 0x74, 0x6f, 0x62, 0x75, 0x66];

/// Media type of the text exposition format (`text/plain`).
pub const TEXT_MEDIA_TYPE: [u8; 10] = [0x74, 0x65, 0x78, 0x74, 0x2f, 0x70, 0x6c, 0x61, 0x69, 0x6e];

/// Encoding of the exported metrics.
#[derive(Clone, Copy, Debug, Default, PartialEq, Eq, Structural)]
pub enum Encoding {
    #[default]
    Text,
    Protobuf,
}

/// Whether `sub` occurs in `s` at offset `i`.
pub open spec fn occurs_in(s: Seq<u8>, sub: Seq<u8>, i: int) -> bool {
    &&& 0 <= i
    &&& i + sub.len() <= s.len()
    &&& s.subrange(i, i + sub.len()) == sub
}

/// The encoding that an `Accept` header value asks for: protobuf when it mentions the
/// protobuf media type, else text when it mentions `text/plain`, else none.
pub open spec fn accepted_encoding(accept: Seq<u8>) -> Option<Encoding> {
    if exists|i: int| occurs_in(accept, PROTOBUF_MEDIA_TYPE@, i) {
        Some(Encoding::Protobuf)
    } else if exists|i: int| occurs_in(accept, TEXT_MEDIA_TYPE@, i) {
        Some(Encoding::Text)
    } else {
        None
    }
}

/// Offset of the first occurrence of `sub` in `seq`.
pub fn find_seq(seq: &[u8], sub: &[u8]) -> (r: Option<usize>)
    requires
        sub@.len() > 0,
    ensures
        match r {
            Some(i) => occurs_in(seq@, sub@, i as int) && forall|j: int| 0 <= j < i ==> !occurs_in(seq@, sub@, j),
            None => forall|j: int| !occurs_in(seq@, sub@, j),
        },
{
    let n = seq.len();
    let m = sub.len();
    if m > n {
        return None;
    }
    let last = n - m;
    let mut i: usize = 0;
    loop
        invariant
            n == seq@.len(),
            m == sub@.len(),
            m <= n,
            last == n - m,
            i <= last,
            forall|k: int| 0 <= k < i ==> !occurs_in(seq@, sub@, k),
        decreases last - i,
    {
        let mut j: usize = 0;
        let mut same = true;
        while j < m
            invariant
                n == seq@.len(),
                m == sub@.len(),
                i + m <= n,
                j <= m,
                same ==> forall|t: int| 0 <= t < j ==> seq@[i + t] == sub@[t],
                !same ==> !occurs_in(seq@, sub@, i as int),
            decreases m - j,
        {
            if same && seq[i + j] != sub[j] {
                assert(seq@.subrange(i as int, i + m)[j as int] == seq@[i + j]);
                same = false;
            }
            j = j + 1;
        }
        if same {
            assert(seq@.subrange(i as int, i + m) == sub@);
            return Some(i);
        }
        if i == last {
            return None;
        }
        i = i + 1;
    }
}

impl Encoding {
    /// The encoding that an `Accept` header value asks for, if any.
    pub fn from_accept(accept: &[u8]) -> (r: Option<Encoding>)
        ensures
            r == accepted_encoding(accept@),
    {
        let protobuf: [u8; 31] = PROTOBUF_MEDIA_TYPE;
        let text: [u8; 10] = TEXT_MEDIA_TYPE;
        assert(protobuf@.len() > 0 && text@.len() > 0);
        if find_seq(accept, protobuf.as_slice()).is_some() {
            Some(Encoding::Protobuf)
        } else if find_seq(accept, text.as_slice()).is_some() {
            Some(Encoding::Text)
        } else {
            None
        }
    }
}

/// How the exporter answers an HTTP request.
#[derive(Clone, Copy, Debug, PartialEq, Eq, Structural)]
pub enum Route {
    /// Serve the metrics.
    Metrics,
    /// Any method but `GET` (status 405).
    MethodNotAllowed,
    /// Any path but `/metrics` (status 404).
    NotFound,
}

/// How a request with method `method` for path `path` is answered.
pub open spec fn route_of(method: Seq<char>, path: Seq<char>) -> Route {
    if method != "GET"@ {
        Route::MethodNotAllowed
    } else if path != "/metrics"@ {
        Route::NotFound
    } else {
        Route::Metrics
    }
}

impl Route {
    /// Routes a request: only `GET /metrics` is served.
    pub fn of(method: &str, path: &str) -> (r: Route)
        ensures
            r == route_of(method@, path@),
    {
        if !str_eq(method, "GET") {
            Route::MethodNotAllowed
        } else if !str_eq(path, "/metrics") {
            Route::NotFound
        } else {
            Route::Metrics
        }
    }

    /// The HTTP status code of the answer.
    pub fn status(&self) -> (r: u16)
        ensures
            r == match *self {
                Route::Metrics => 200u16,
                Route::MethodNotAllowed => 405u16,
                Route::NotFound => 404u16,
            },
    {
        match self {
            Route::Metrics => 200,
            Route::MethodNotAllowed => 405,
            Route::NotFound => 404,
        }
    }
}

} // verus!

verus! {

/// Decimal digit character of `d` (below 10).
pub open spec fn digit_char(d: int) -> char {
    seq!['0', '1', '2', '3', '4', '5', '6', '7', '8', '9'][d]
}

/// Label of the cell at `index`: its decimal number for the 32 cell slots, `N` beyond.
pub open spec fn cell_label(index: int) -> Seq<char> {
    if index < 10 {
        seq![digit_char(index)]
    } else if index < 32 {
        seq![digit_char(index / 10), digit_char(index % 10)]
    } else {
        seq!['N']
    }
}

/// Label of the cell at `index` in per-cell metrics.
pub fn idx2str(index: usize) -> (r: &'static str)
    ensures
        r@ == cell_label(index as int),
{
    match index {
        0 => {
            proof {
                reveal_strlit("0");
            }
            "0"
        },
        1 => {
            proof {
                reveal_strlit("1");
            }
            "1"
        },
        2 => {
            proof {
                reveal_strlit("2");
            }
            "2"
        },
        3 => {
            proof {
                reveal_strlit("3");
            }
            "3"
        },
        4 => {
            proof {
                reveal_strlit("4");
            }
            "4"
        },
        5 => {
            proof {
                reveal_strlit("5");
            }
            "5"
        },
        6 => {
            proof {
                reveal_strlit("6");
            }
            "6"
        },
        7 => {
            proof {
                reveal_strlit("7");
            }
            "7"
        },
        8 => {
            proof {
                reveal_strlit("8");
            }
            "8"
        },
        9 => {
            proof {
                reveal_strlit("9");
            }
            "9"
        },
        10 => {
            proof {
                reveal_strlit("10");
            }
            "10"
        },
        11 => {
            proof {
                reveal_strlit("11");
            }
            "11"
        },
        12 => {
            proof {
                reveal_strlit("12");
            }
            "12"
        },
        13 => {
            proof {
                reveal_strlit("13");
            }
            "13"
        },
        14 => {
            proof {
                reveal_strlit("14");
            }
            "14"
        },
        15 => {
            proof {
                reveal_strlit("15");
            }
            "15"
        },
        16 => {
            proof {
                reveal_strlit("16");
            }
            "16"
        },
        17 => {
            proof {
                reveal_strlit("17");
            }
            "17"
        },
        18 => {
            proof {
                reveal_strlit("18");
            }
            "18"
        },
        19 => {
            proof {
                reveal_strlit("19");
            }
            "19"
        },
        20 => {
            proof {
                reveal_strlit("20");
            }
            "20"
        },
        21 => {
            proof {
                reveal_strlit("21");
            }
            "21"
        },
        22 => {
            proof {
                reveal_strlit("22");
            }
            "22"
        },
        23 => {
            proof {
                reveal_strlit("23");
            }
            "23"
        },
        24 => {
            proof {
                reveal_strlit("24");
            }
            "24"
        },
        25 => {
            proof {
                reveal_strlit("25");
            }
            "25"
        },
        26 => {
            proof {
                reveal_strlit("26");
            }
            "26"
        },
        27 => {
            proof {
                reveal_strlit("27");
            }
            "27"
        },
        28 => {
            proof {
                reveal_strlit("28");
            }
            "28"
        },
        29 => {
            proof {
                reveal_strlit("29");
            }
            "29"
        },
        30 => {
            proof {
                reveal_strlit("30");
            }
            "30"
        },
        31 => {
            proof {
                reveal_strlit("31");
            }
            "31"
        },
        _ => {
            proof {
                reveal_strlit("N");
            }
            "N"
        },
    }
}

} // verus!
