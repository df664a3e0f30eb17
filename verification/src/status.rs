//! Status bitmask constants of the cluster manager, their symbolic names,
//! and the pass/fail verdict derived from a status code.

use vstd::prelude::*;

verus! {

// LSF status flags
pub const LIM_OK: i32 = 0x00000000;
pub const LIM_UNAVAIL: i32 = 0x00010000;
pub const LIM_LOCKEDU: i32 = 0x00020000;
pub const LIM_LOCKEDW: i32 = 0x00040000;
pub const LIM_BUSY: i32 = 0x00080000;
pub const LIM_RESDOWN: i32 = 0x00100000;
pub const LIM_UNLICENSED: i32 = 0x00200000;
pub const LIM_SBDDOWN: i32 = 0x00400000;
pub const LIM_LOCKEDM: i32 = 0x00800000;
pub const LIM_PEMDOWN: i32 = 0x01000000;
pub const LIM_EXPIRED: i32 = 0x02000000;
pub const LIM_RLAUP: i32 = 0x04000000;
pub const LIM_LOCKEDU_RMS: i32 = -0x80000000;

// status values of a record
pub const PASSED: i32 = 0;
pub const FAILED: i32 = 2;

// process exit codes
pub const NORMAL: i32 = 0;
pub const ERROR: i32 = 127;

/// The symbolic name of a status code: one name per known constant, and
/// `UNKNOWN` for every other value. The whole mask is compared for equality;
/// a value combining several known flags is not decomposed.
pub open spec fn spec_status_str(status: i32) -> Seq<char> {
    if status == LIM_OK {
        "LIM_OK"@
    } else if status == LIM_UNAVAIL {
        "LIM_UNAVAIL"@
    } else if status == LIM_LOCKEDU {
        "LIM_LOCKEDU"@
    } else if status == LIM_LOCKEDW {
        "LIM_LOCKEDW"@
    } else if status == LIM_BUSY {
        "LIM_BUSY"@
    } else if status == LIM_RESDOWN {
        "LIM_RESDOWN"@
    } else if status == LIM_UNLICENSED {
        "LIM_UNLICENSED"@
    } else if status == LIM_SBDDOWN {
        "LIM_SBDDOWN"@
    } else if status == LIM_LOCKEDM {
        "LIM_LOCKEDM"@
    } else if status == LIM_PEMDOWN {
        "LIM_PEMDOWN"@
    } else if status == LIM_EXPIRED {
        "LIM_EXPIRED"@
    } else if status == LIM_RLAUP {
        "LIM_RLAUP"@
    } else if status == LIM_LOCKEDU_RMS {
        "LIM_LOCKEDU_RMS"@
    } else {
        "UNKNOWN"@
    }
}

/// Translate a status bitmask to its symbolic name. Total: every input has a
/// defined output, unrecognized values map to `UNKNOWN`.
pub fn to_status_str(status: i32) -> (r: &'static str)
    ensures
        r@ == spec_status_str(status),
{
    if status == LIM_OK {
        "LIM_OK"
    } else if status == LIM_UNAVAIL {
        "LIM_UNAVAIL"
    } else if status == LIM_LOCKEDU {
        "LIM_LOCKEDU"
    } else if status == LIM_LOCKEDW {
        "LIM_LOCKEDW"
    } else if status == LIM_BUSY {
        "LIM_BUSY"
    } else if status == LIM_RESDOWN {
        "LIM_RESDOWN"
    } else if status == LIM_UNLICENSED {
        "LIM_UNLICENSED"
    } else if status == LIM_SBDDOWN {
        "LIM_SBDDOWN"
    } else if status == LIM_LOCKEDM {
        "LIM_LOCKEDM"
    } else if status == LIM_PEMDOWN {
        "LIM_PEMDOWN"
    } else if status == LIM_EXPIRED {
        "LIM_EXPIRED"
    } else if status == LIM_RLAUP {
        "LIM_RLAUP"
    } else if status == LIM_LOCKEDU_RMS {
        "LIM_LOCKEDU_RMS"
    } else {
        "UNKNOWN"
    }
}

/// The verdict of a status code: `PASSED` iff the code equals `LIM_OK`,
/// `FAILED` for every other code. There is no third state.
pub open spec fn spec_verdict(status: i32) -> i32 {
    if status == LIM_OK {
        PASSED
    } else {
        FAILED
    }
}

/// Derive the pass/fail verdict from a status bitmask.
pub fn to_verdict(status: i32) -> (r: i32)
    ensures
        r == spec_verdict(status),
        r == PASSED <==> status == LIM_OK,
{
    if status == LIM_OK {
        PASSED
    } else {
        FAILED
    }
}

} // verus!
