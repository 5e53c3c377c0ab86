use vstd::prelude::*;

use crate::error::Error;
use crate::miner::Pool;
use crate::text::{chars_of, first_capture, spec_first_capture};

verus! {

/// A configuration field that firmwares send as text or as a number.
#[derive(Debug, Clone)]
pub enum StringOrInt {
    String(String),
    Int(u8),
    BigInt(u64),
}

/// A configuration flag that firmwares send as a boolean, a number or text.
#[derive(Debug, Clone)]
pub enum BoolIntStr {
    Bool(bool),
    Int(u8),
    String(String),
}

/// The writable part of an Antminer's configuration.
#[derive(Debug, Clone)]
pub struct SetConf {
    /// 0 is normal, 1 is sleep.
    pub miner_mode: u8,
    pub pools: Vec<Pool>,
}

pub open spec fn is_digit(c: char) -> bool {
    '0' <= c <= '9'
}

/// The number written by the decimal digits `d`.
pub open spec fn digits_value(d: Seq<char>) -> int
    decreases d.len(),
{
    if d.len() == 0 {
        0
    } else {
        digits_value(d.drop_last()) * 10 + (d.last() as int - '0' as int)
    }
}

/// The digits of `s` after an optional leading `+`.
pub open spec fn unsigned_digits(s: Seq<char>) -> Seq<char> {
    if s.len() > 0 && s[0] == '+' {
        s.drop_first()
    } else {
        s
    }
}

/// `s` read as a decimal `u8` the way `str::parse::<u8>` reads it: an
/// optional `+`, then at least one digit, with a value of at most 255.
pub open spec fn parsed_u8(s: Seq<char>) -> Option<u8> {
    let d = unsigned_digits(s);
    if d.len() > 0 && (forall|i: int| 0 <= i < d.len() ==> is_digit(#[trigger] d[i]))
        && digits_value(d) <= 255 {
        Some(digits_value(d) as u8)
    } else {
        None
    }
}

proof fn lemma_prefix_value(d: Seq<char>, k: int)
    requires
        0 <= k <= d.len(),
        forall|i: int| 0 <= i < d.len() ==> is_digit(#[trigger] d[i]),
    ensures
        0 <= digits_value(d.subrange(0, k)) <= digits_value(d),
    decreases d.len(),
{
    if d.len() > 0 {
        let p = d.drop_last();
        assert forall|i: int| 0 <= i < p.len() implies is_digit(#[trigger] p[i]) by {
            assert(p[i] == d[i]);
        }
        if k == d.len() {
            assert(d.subrange(0, k) =~= d);
            lemma_prefix_value(p, p.len() as int);
            assert(p.subrange(0, p.len() as int) =~= p);
            assert(is_digit(d.last()));
        } else {
            lemma_prefix_value(p, k);
            assert(p.subrange(0, k) =~= d.subrange(0, k));
            lemma_prefix_value(p, p.len() as int);
            assert(p.subrange(0, p.len() as int) =~= p);
            assert(is_digit(d.last()));
        }
    }
}

/// Reads `s` as `str::parse::<u8>` does.
pub fn parse_u8(s: &str) -> (r: Option<u8>)
    ensures
        r == parsed_u8(s@),
{
    let c = chars_of(s);
    let n = c.len();
    let mut i: usize = 0;
    if n > 0 && c[0] == '+' {
        i = 1;
    }
    let ghost d = unsigned_digits(s@);
    assert(d =~= c@.subrange(i as int, n as int));
    if i >= n {
        return None;
    }
    let mut acc: u32 = 0;
    let mut j: usize = i;
    while j < n
        invariant
            c@ == s@,
            n == c@.len(),
            i <= j <= n,
            d == c@.subrange(i as int, n as int),
            d == unsigned_digits(s@),
            d.len() > 0,
            acc as int == digits_value(d.subrange(0, j - i)),
            acc <= 255,
            forall|k: int| 0 <= k < j - i ==> is_digit(#[trigger] d[k]),
        decreases n - j,
    {
        let ch = c[j];
        if !('0' <= ch && ch <= '9') {
            assert(!is_digit(d[j - i]));
            return None;
        }
        let v = (ch as u32) - ('0' as u32);
        assert(d.subrange(0, j + 1 - i).drop_last() =~= d.subrange(0, j - i));
        assert(d.subrange(0, j + 1 - i).last() == ch);
        acc = acc * 10 + v;
        if acc > 255 {
            proof {
                if forall|k: int| 0 <= k < d.len() ==> is_digit(#[trigger] d[k]) {
                    lemma_prefix_value(d, j + 1 - i);
                }
            }
            return None;
        }
        j = j + 1;
    }
    assert(d.subrange(0, n - i) =~= d);
    Some(acc as u8)
}

impl StringOrInt {
    /// The field as a small number: text is parsed (0 when it is not a
    /// number that fits), a large number is reduced modulo 256.
    pub fn as_int(&self) -> (r: u8)
        ensures
            r == self.as_int_spec(),
    {
        match self {
            StringOrInt::String(s) => match parse_u8(s.as_str()) {
                Some(v) => v,
                None => 0,
            },
            StringOrInt::Int(i) => *i,
            StringOrInt::BigInt(i) => (*i % 256) as u8,
        }
    }
}

impl SetConf {
    /// The configuration to write back: the current work mode (0 when the
    /// firmware left it empty) and the given pools.
    pub fn new(work_mode: &StringOrInt, pools: Vec<Pool>) -> (r: SetConf)
        ensures
            r.miner_mode == work_mode.as_int_spec(),
            r.pools == pools,
    {
        SetConf { miner_mode: work_mode.as_int(), pools }
    }
}

impl StringOrInt {
    pub open spec fn as_int_spec(&self) -> u8 {
        match self {
            StringOrInt::String(s) => match parsed_u8(s@) {
                Some(v) => v,
                None => 0,
            },
            StringOrInt::Int(i) => *i,
            StringOrInt::BigInt(i) => (*i % 256) as u8,
        }
    }
}

/// The log line that names the hashboard type; the name is its first group.
pub const HASHBOARD_PATTERN: &'static str = "machine : ([\\w\\d]+)";

/// Reads the hashboard type from the device log.
pub fn hashboard_from_logs(logs: &str) -> (r: Result<String, Error>)
    ensures
        match spec_first_capture(HASHBOARD_PATTERN@, logs@) {
            Some(m) => r matches Ok(s) && s@ == m,
            None => r == Err::<String, Error>(Error::ExpectedReturn),
        },
{
    match first_capture(HASHBOARD_PATTERN, logs) {
        Some(m) => Ok(m),
        None => Err(Error::ExpectedReturn),
    }
}

/// The failure that an HTTP status of the CGI interface stands for: none
/// for a success (2xx), `Unauthorized` for 401, a failed request otherwise.
pub open spec fn spec_cgi_status(status: u16) -> Option<Error> {
    if 200 <= status <= 299 {
        None
    } else if status == 401 {
        Some(Error::Unauthorized)
    } else {
        Some(Error::HttpRequestFailed)
    }
}

/// Checks the HTTP status of a CGI request.
pub fn cgi_status(status: u16) -> (r: Result<(), Error>)
    ensures
        match spec_cgi_status(status) {
            None => r is Ok,
            Some(e) => r == Err::<(), Error>(e),
        },
{
    if 200 <= status && status <= 299 {
        Ok(())
    } else if status == 401 {
        Err(Error::Unauthorized)
    } else {
        Err(Error::HttpRequestFailed)
    }
}

} // verus!
