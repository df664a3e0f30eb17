use lsf_agent::status::{to_status_str, to_verdict, FAILED, PASSED};

#[test]
fn known_status_names() {
    assert_eq!(to_status_str(0x00000000), "LIM_OK");
    assert_eq!(to_status_str(0x00010000), "LIM_UNAVAIL");
    assert_eq!(to_status_str(0x00020000), "LIM_LOCKEDU");
    assert_eq!(to_status_str(0x00040000), "LIM_LOCKEDW");
    assert_eq!(to_status_str(0x00080000), "LIM_BUSY");
    assert_eq!(to_status_str(0x00100000), "LIM_RESDOWN");
    assert_eq!(to_status_str(0x00200000), "LIM_UNLICENSED");
    assert_eq!(to_status_str(0x00400000), "LIM_SBDDOWN");
    assert_eq!(to_status_str(0x00800000), "LIM_LOCKEDM");
    assert_eq!(to_status_str(0x01000000), "LIM_PEMDOWN");
    assert_eq!(to_status_str(0x02000000), "LIM_EXPIRED");
    assert_eq!(to_status_str(0x04000000), "LIM_RLAUP");
    assert_eq!(to_status_str(i32::MIN), "LIM_LOCKEDU_RMS");
}

#[test]
fn unknown_status_names() {
    assert_eq!(to_status_str(1), "UNKNOWN");
    assert_eq!(to_status_str(-1), "UNKNOWN");
    assert_eq!(to_status_str(0x00030000), "UNKNOWN");
    // a bitwise OR of two known flags is not decomposed: it is UNKNOWN
    assert_eq!(to_status_str(0x00080000 | 0x00100000), "UNKNOWN");
    assert_eq!(to_status_str(i32::MAX), "UNKNOWN");
}

#[test]
fn verdict_passed_iff_ok() {
    assert_eq!(to_verdict(0), PASSED);
    assert_eq!(to_verdict(0x00010000), FAILED);
    assert_eq!(to_verdict(0x00080000), FAILED);
    assert_eq!(to_verdict(i32::MIN), FAILED);
    // UNKNOWN codes also fail
    assert_eq!(to_verdict(1), FAILED);
    assert_eq!(to_verdict(0x00030000), FAILED);
}
