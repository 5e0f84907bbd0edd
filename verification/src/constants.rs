//! The fixed bounds of a plan and the units they are measured in.

use vstd::prelude::*;

verus! {

/// Seconds in one hour.
pub const HOUR_IN_SECONDS: i64 = 60 * 60;

/// Seconds in one day of 24 hours. The days of a plan are this long and are
/// counted from the plan's own start, not from midnight.
pub const DAY_IN_SECONDS: i64 = 86_400;

/// Shortest schedule, in days.
pub const MIN_NUMBER_OF_DAYS: u8 = 7;

/// Longest schedule, in days.
pub const MAX_NUMBER_OF_DAYS: u8 = 30;

/// Fewest sessions a plan may ask for per day.
pub const MIN_DAILY_FREQUENCY: u8 = 1;

/// Most sessions a plan may ask for per day.
pub const MAX_DAILY_FREQUENCY: u8 = 4;

/// Shortest session length a plan may ask for, in minutes.
pub const MIN_DURATION_MINUTES: u8 = 5;

/// Longest session length a plan may ask for, in minutes.
pub const MAX_DURATION_MINUTES: u8 = 60;

/// Base units in one whole USDC (six decimals).
pub const USDC_TOKEN: u64 = 1_000_000;

/// Smallest stake, in base units: 10 USDC.
pub const MIN_COMMITMENT_STAKE: u64 = 10 * USDC_TOKEN;

/// Largest stake, in base units: 500 USDC.
pub const MAX_COMMITMENT_STAKE: u64 = 500 * USDC_TOKEN;

/// The one mint in which stakes are accepted
/// (`4zMMC9srt5Ri5X14GAgXhaHii3GnPAEERYPJgZJDncDU`).
pub const USDC_MINT: [u8; 32] = [
    59, 68, 44, 179, 145, 33, 87, 241, 58, 147, 61, 1, 52, 40, 45, 3,
    43, 95, 254, 205, 1, 162, 219, 241, 183, 121, 6, 8, 223, 0, 46, 167,
];

} // verus!
