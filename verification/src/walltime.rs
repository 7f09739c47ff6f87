//! The wall clock against the chain's clock: when the latest block was
//! seen, and what time it claims.

use vstd::prelude::*;
use std::time::{Duration, SystemTime};
use vstd::string::*;
use crate::error::ErrorObject;

verus! {

/// The JSON-RPC error code for a failure inside the server.
pub const INTERNAL_ERROR_CODE: i32 = -32603;

/// Time data about the last block.
#[derive(Debug, Copy, Clone, PartialEq, Eq)]
pub struct BlockTimeData {
    /// Wall time of last block
    pub wall_time_ms: u64,
    /// Timestamp of last block (chain time)
    pub block_timestamp: u64,
}

/// Data about the current time and the last block's.
#[derive(Debug, Copy, Clone, PartialEq, Eq)]
pub struct WallTimeData {
    /// Wall time right now
    pub current_wall_time_ms: u64,
    /// Wall time of last block
    pub last_block_wall_time_ms: u64,
    /// Timestamp of last block (chain time)
    pub last_block_timestamp: u64,
}

impl Default for BlockTimeData {
    fn default() -> (data: BlockTimeData)
        ensures
            data == (BlockTimeData { wall_time_ms: 0, block_timestamp: 0 }),
    {
        BlockTimeData { wall_time_ms: 0, block_timestamp: 0 }
    }
}

impl Default for WallTimeData {
    fn default() -> (data: WallTimeData)
        ensures
            data == (WallTimeData {
                current_wall_time_ms: 0,
                last_block_wall_time_ms: 0,
                last_block_timestamp: 0,
            }),
    {
        WallTimeData { current_wall_time_ms: 0, last_block_wall_time_ms: 0, last_block_timestamp: 0 }
    }
}

/// The system's clock type. Nothing is known of a value of it.
#[verifier::external_type_specification]
#[verifier::external_body]
pub struct ExSystemTime(std::time::SystemTime);

/// Reads the system clock with `SystemTime::now`. Nothing is claimed of the
/// time that comes back.
#[verifier::external_body]
fn system_time_now() -> (now: SystemTime) {
    SystemTime::now()
}

/// The time elapsed from the Unix epoch to the given time, by
/// `SystemTime::duration_since`, or nothing where the time lies before the
/// epoch. Nothing is claimed of the duration.
#[verifier::external_body]
fn duration_since_epoch(time: &SystemTime) -> (elapsed: Option<Duration>) {
    time.duration_since(SystemTime::UNIX_EPOCH).ok()
}

/// The whole milliseconds in a duration, by `Duration::as_millis`. Nothing
/// is claimed of their number.
#[verifier::external_body]
fn duration_as_millis(duration: &Duration) -> (millis: u128) {
    duration.as_millis()
}

/// A count of milliseconds cut down to 64 bits.
pub fn millis_to_u64(millis: u128) -> (cut: u64)
    ensures
        cut == millis % 0x1_0000_0000_0000_0000,
{
    (millis % 0x1_0000_0000_0000_0000u128) as u64
}

/// Returns the current unix epoch in milliseconds, cut down to 64 bits.
///
/// There is none where the system clock stands before the epoch. What time
/// it is cannot be known here, so nothing more is stated.
pub fn unix_epoch_ms() -> (now_ms: Option<u64>) {
    let now = system_time_now();
    match duration_since_epoch(&now) {
        Some(elapsed) => Some(millis_to_u64(duration_as_millis(&elapsed))),
        None => None,
    }
}

/// The text of the error for a node that has seen no block yet.
pub open spec fn not_synced_text() -> Seq<char> {
    "node is not synced"@
}

/// The time report at a given moment: the moment itself, and when the last
/// block was seen and what time it claims.
///
/// Where no block was seen yet, the report is an internal error that says
/// that the node is not synced.
pub fn wall_time_data(current: Option<BlockTimeData>, now_ms: u64) -> (report: Result<
    WallTimeData,
    ErrorObject,
>)
    ensures
        match current {
            Some(tip) => report == Ok::<WallTimeData, ErrorObject>(
                WallTimeData {
                    current_wall_time_ms: now_ms,
                    last_block_wall_time_ms: tip.wall_time_ms,
                    last_block_timestamp: tip.block_timestamp,
                },
            ),
            None => report is Err && report.unwrap_err().code == INTERNAL_ERROR_CODE
                && report.unwrap_err().message@ == not_synced_text(),
        },
{
    match current {
        Some(tip) => Ok(
            WallTimeData {
                current_wall_time_ms: now_ms,
                last_block_wall_time_ms: tip.wall_time_ms,
                last_block_timestamp: tip.block_timestamp,
            },
        ),
        None => Err(
            ErrorObject {
                code: INTERNAL_ERROR_CODE,
                message: String::from_str("node is not synced"),
            },
        ),
    }
}

} // verus!
