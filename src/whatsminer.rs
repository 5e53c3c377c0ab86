use vstd::prelude::*;

use crate::detect::{text_matches, matches_text, StatusCode};
use crate::error::Error;
use crate::text::{first_capture, same_text, spec_first_capture};

verus! {

/// Length of the log file that the firmware is about to send.
#[derive(Debug, Clone)]
pub struct LogLen {
    pub logfilelen: String,
}

/// Status reply to the log download command.
#[derive(Debug, Clone)]
pub struct LogsResponse {
    pub status: StatusCode,
    pub when: usize,
    pub code: usize,
    pub msg: Option<LogLen>,
    pub description: String,
}

/// A bare status envelope of the socket protocol.
#[derive(Debug, Clone)]
pub struct Status {
    pub status: StatusCode,
    pub when: Option<usize>,
    pub code: Option<usize>,
    pub msg: String,
    pub description: Option<String>,
}

/// Miner status as older firmware reports it.
#[derive(Debug, Clone)]
pub struct BtStatus1 {
    pub btmineroff: bool,
    pub firmware_version: String,
}

/// Miner status as newer firmware reports it.
#[derive(Debug, Clone)]
pub struct BtStatus2 {
    pub mineroff: bool,
    pub firmware_version: String,
    pub power_mode: String,
    pub hash_percent: String,
}

/// Miner status in either firmware generation.
#[derive(Debug, Clone)]
pub enum BtStatus {
    V1(BtStatus1),
    V2(BtStatus2),
}

/// Reply to the status command.
#[derive(Debug, Clone)]
pub struct BtStatusResp {
    pub status: StatusCode,
    pub when: Option<usize>,
    pub code: Option<usize>,
    pub msg: BtStatus,
    pub description: Option<String>,
}

impl BtStatus {
    /// The firmware version, whichever generation reported it.
    pub fn firmware_version(&self) -> (r: &str)
        ensures
            r@ == match self {
                BtStatus::V1(s) => s.firmware_version@,
                BtStatus::V2(s) => s.firmware_version@,
            },
    {
        match self {
            BtStatus::V1(s) => s.firmware_version.as_str(),
            BtStatus::V2(s) => s.firmware_version.as_str(),
        }
    }

    /// Whether the mining process is off, whichever generation reported it.
    pub fn mineroff(&self) -> (r: bool)
        ensures
            r == match self {
                BtStatus::V1(s) => s.btmineroff,
                BtStatus::V2(s) => s.mineroff,
            },
    {
        match self {
            BtStatus::V1(s) => s.btmineroff,
            BtStatus::V2(s) => s.mineroff,
        }
    }
}

/// The boolean written as the text `true` or `false`.
pub open spec fn spec_flag(text: Seq<char>) -> Option<bool> {
    if text == "true"@ {
        Some(true)
    } else if text == "false"@ {
        Some(false)
    } else {
        None
    }
}

/// Reads a boolean that the firmware writes as text; `None` for any other
/// text.
pub fn flag_from_text(text: &str) -> (r: Option<bool>)
    ensures
        r == spec_flag(text@),
{
    if same_text(text, "true") {
        Some(true)
    } else if same_text(text, "false") {
        Some(false)
    } else {
        None
    }
}

/// The model row of the status overview page; the model is its first group.
pub const MODEL_PATTERN: &'static str = "<td.+>Model</td>\\s*<td>WhatsMiner ([a-zA-Z0-9\\+]+)(?:_V.+)?</td>";

/// Reads the model from the status overview page.
pub fn model_from_overview(page: &str) -> (r: Result<String, Error>)
    ensures
        match spec_first_capture(MODEL_PATTERN@, page@) {
            Some(m) => r matches Ok(s) && s@ == m,
            None => r == Err::<String, Error>(Error::ExpectedReturn),
        },
{
    match first_capture(MODEL_PATTERN, page) {
        Some(m) => Ok(m),
        None => Err(Error::ExpectedReturn),
    }
}

/// The process list line of a running mining process.
pub const MINER_PROCESS_PATTERN: &'static str = ".COMMAND\" value=\"(cg|bt)miner\" />";

/// What the status command says about sleep.
pub enum SleepReading {
    /// Settled: the miner sleeps (`true`) or not.
    Known(bool),
    /// The status claims sleep; the process list must confirm it.
    CheckProcesses,
}

/// The sleep state from the status reply (`None` when the command failed or
/// its reply could not be read): newer firmware is trusted as it is; older
/// firmware that reports the miner off must be confirmed by the process list.
pub open spec fn spec_sleep_reading(status: Option<BtStatus>) -> SleepReading {
    match status {
        Some(BtStatus::V2(s)) => SleepReading::Known(s.mineroff),
        Some(BtStatus::V1(s)) => if s.btmineroff {
            SleepReading::CheckProcesses
        } else {
            SleepReading::Known(false)
        },
        None => SleepReading::CheckProcesses,
    }
}

/// Reads the sleep state from the status reply, if there is one.
pub fn sleep_reading(status: &Option<BtStatus>) -> (r: SleepReading)
    ensures
        r == spec_sleep_reading(*status),
{
    match status {
        Some(BtStatus::V2(s)) => SleepReading::Known(s.mineroff),
        Some(BtStatus::V1(s)) => if s.btmineroff {
            SleepReading::CheckProcesses
        } else {
            SleepReading::Known(false)
        },
        None => SleepReading::CheckProcesses,
    }
}

/// Whether the process list page shows that no mining process runs.
pub fn asleep_by_processes(page: &str) -> (r: bool)
    ensures
        r == !text_matches(MINER_PROCESS_PATTERN@, page@),
{
    !matches_text(MINER_PROCESS_PATTERN, page)
}

/// The result of a power command: a sleep command whose exchange timed out
/// counts as done (the device powers off before answering); otherwise the
/// reply's status decides.
pub open spec fn spec_power_outcome(sleep: bool, reply: Result<Status, Error>, r: Result<(), Error>) -> bool {
    match reply {
        Err(e) => if sleep && e is Timeout {
            r is Ok
        } else {
            r == Err::<(), Error>(e)
        },
        Ok(s) => if s.status == StatusCode::Succ {
            r is Ok
        } else {
            r == Err::<(), Error>(Error::ApiCallFailed(s.msg))
        },
    }
}

/// Decides the result of a power (sleep or wake) command from its reply.
pub fn power_outcome(sleep: bool, reply: Result<Status, Error>) -> (r: Result<(), Error>)
    ensures
        spec_power_outcome(sleep, reply, r),
{
    match reply {
        Err(e) => {
            if sleep && matches!(e, Error::Timeout) {
                Ok(())
            } else {
                Err(e)
            }
        },
        Ok(s) => {
            if s.status == StatusCode::Succ {
                Ok(())
            } else {
                Err(Error::ApiCallFailed(s.msg))
            }
        },
    }
}

} // verus!
