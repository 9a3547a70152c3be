//! How the terminal's mode changes while a password is typed.

use vstd::prelude::*;

verus! {

/// The local mode flags of a POSIX terminal with echo of the typed
/// characters turned off and echo of the newline turned on.
///
/// `echo` and `echo_newline` are the platform's masks for the two flags
/// (`ECHO` and `ECHONL`). Every bit of `echo_newline` is set in the result,
/// every other bit of `echo` is cleared, and all remaining bits are kept.
pub fn hidden_local_flags(flags: u64, echo: u64, echo_newline: u64) -> (r: u64)
    ensures
        r & echo_newline == echo_newline,
        r & (echo & !echo_newline) == 0,
        r & !(echo | echo_newline) == flags & !(echo | echo_newline),
{
    let r = (flags & !echo) | echo_newline;
    assert(r & echo_newline == echo_newline) by (bit_vector)
        requires
            r == (flags & !echo) | echo_newline,
    ;
    assert(r & (echo & !echo_newline) == 0) by (bit_vector)
        requires
            r == (flags & !echo) | echo_newline,
    ;
    assert(r & !(echo | echo_newline) == flags & !(echo | echo_newline)) by (bit_vector)
        requires
            r == (flags & !echo) | echo_newline,
    ;
    r
}

/// The console input mode of Windows under which a password is typed: line
/// input, so that editing keys work, and processed input. It replaces the
/// whole mode, so every other flag, echo among them, is off.
pub fn hidden_console_mode(line_input: u32, processed_input: u32) -> (r: u32)
    ensures
        r & line_input == line_input,
        r & processed_input == processed_input,
        r & !(line_input | processed_input) == 0,
{
    let r = line_input | processed_input;
    assert(r & line_input == line_input && r & processed_input == processed_input && r & !(
    line_input | processed_input) == 0) by (bit_vector)
        requires
            r == line_input | processed_input,
    ;
    r
}

} // verus!
