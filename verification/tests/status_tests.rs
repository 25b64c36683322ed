use slowpty::checkerr;
use slowpty::status::{exit_code_for_status, signal_desc_short};

#[test]
fn checkerr_classifies_results() {
    assert_eq!(checkerr(0, "call").unwrap(), 0);
    assert_eq!(checkerr(7, "call").unwrap(), 7);
    let err = checkerr(-1, "fork").unwrap_err();
    assert_eq!(err.msg, "fork");
}

#[test]
fn clean_exit_propagates_child_code() {
    // Wait status of an ordinary exit: the code sits in the second byte.
    assert_eq!(exit_code_for_status(0), 0);
    assert_eq!(exit_code_for_status(42 << 8), 42);
    assert_eq!(exit_code_for_status(1 << 8), 1);
}

#[test]
fn signal_death_propagates_128_plus_signal() {
    // Killed by signal 9: reported exit code is 137.
    assert_eq!(exit_code_for_status(9), 137);
    // Terminated by signal 15.
    assert_eq!(exit_code_for_status(15), 143);
}

#[test]
fn unrecognized_status_yields_sentinel() {
    // 0x7f in the low bits marks a stopped child: neither an exit nor a
    // signal death.
    assert_eq!(exit_code_for_status(0x7f), -1);
}

#[test]
fn signal_description_cut_at_separator() {
    let desc: Vec<u8> = b"Interrupt: 2".to_vec();
    assert_eq!(signal_desc_short(&desc), b"Interrupt".to_vec());

    let desc: Vec<u8> = b"Killed: 9".to_vec();
    assert_eq!(signal_desc_short(&desc), b"Killed".to_vec());
}

#[test]
fn signal_description_without_separator_kept() {
    let desc: Vec<u8> = b"Killed".to_vec();
    assert_eq!(signal_desc_short(&desc), b"Killed".to_vec());
}

#[test]
fn unknown_signal_description_kept_verbatim() {
    // "Unknown signal <n>" keeps its number, even with a separator variant.
    let desc: Vec<u8> = b"Unknown signal 999".to_vec();
    assert_eq!(signal_desc_short(&desc), b"Unknown signal 999".to_vec());

    let desc: Vec<u8> = b"Unknown signal: 999".to_vec();
    assert_eq!(signal_desc_short(&desc), b"Unknown signal: 999".to_vec());
}
