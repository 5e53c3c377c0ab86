use vstd::prelude::*;

use crate::antminer::{parse_u8, parsed_u8};
use crate::error::Error;
use crate::text::{first_capture, spec_first_capture};
use crate::whatsminer::Status;

verus! {

/// A pool as the socket protocol lists it.
#[derive(Debug, Clone)]
pub struct Pool {
    pub pool: u8,
    pub url: String,
    pub user: String,
}

/// Reply to the pools command.
#[derive(Debug, Clone)]
pub struct PoolResp {
    pub status: Vec<Status>,
    pub pools: Vec<Pool>,
}

/// The library's pool for a listed pool: the URL and user, with no
/// password (the protocol does not disclose it).
pub open spec fn spec_listed_pool(p: Pool, r: crate::miner::Pool) -> bool {
    r.url == p.url && r.username == p.user && r.password is None
}

impl Pool {
    /// Converts a listed pool.
    pub fn into_pool(self) -> (r: crate::miner::Pool)
        ensures
            spec_listed_pool(self, r),
    {
        crate::miner::Pool { url: self.url, username: self.user, password: None }
    }
}

impl PoolResp {
    /// Converts every listed pool, in order.
    pub fn into_pools(self) -> (r: Vec<crate::miner::Pool>)
        ensures
            r@.len() == self.pools@.len(),
            forall|i: int| 0 <= i < r@.len() ==> spec_listed_pool(self.pools@[i], #[trigger] r@[i]),
    {
        let mut out: Vec<crate::miner::Pool> = Vec::new();
        let mut i: usize = 0;
        while i < self.pools.len()
            invariant
                i <= self.pools@.len(),
                out@.len() == i,
                forall|k: int| 0 <= k < i ==> spec_listed_pool(self.pools@[k], #[trigger] out@[k]),
            decreases self.pools@.len() - i,
        {
            let p = &self.pools[i];
            out.push(crate::miner::Pool { url: p.url.clone(), username: p.user.clone(), password: None });
            i = i + 1;
        }
        out
    }
}

/// The LED field of the reply to the LED query; its digit is the first group.
pub const LED_PATTERN: &'static str = "LED\\[(\\d)\\]";

/// Whether the locate LED is lit, from the message of the LED query: the
/// digit in `LED[d]` is non-zero. A message without it is an invalid
/// response.
pub fn led_lit(msg: &str) -> (r: Result<bool, Error>)
    ensures
        match spec_first_capture(LED_PATTERN@, msg@) {
            Some(d) => match parsed_u8(d) {
                Some(v) => r == Ok::<bool, Error>(v > 0),
                None => r == Err::<bool, Error>(Error::InvalidResponse),
            },
            None => r == Err::<bool, Error>(Error::InvalidResponse),
        },
{
    match first_capture(LED_PATTERN, msg) {
        None => Err(Error::InvalidResponse),
        Some(d) => match parse_u8(d.as_str()) {
            Some(v) => Ok(v > 0),
            None => Err(Error::InvalidResponse),
        },
    }
}

} // verus!
