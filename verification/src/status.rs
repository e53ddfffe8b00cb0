use vstd::prelude::*;

verus! {

/// The exit code field of a wait status: the second byte of the word.
pub open spec fn spec_exit_code(status: i32) -> i32 {
    (status >> 8) & 0xff
}

/// The signal field of a wait status: the low seven bits of the word.
pub open spec fn spec_term_signal(status: i32) -> i32 {
    status & 0x7f
}

/// Whether the status is that of a child that returned from `main` or called
/// `exit`: no signal field.
pub open spec fn spec_exited(status: i32) -> bool {
    spec_term_signal(status) == 0
}

/// Whether the status is that of a child that exited with code zero.
pub open spec fn spec_clean_exit(status: i32) -> bool {
    spec_exited(status) && spec_exit_code(status) == 0
}

/// Calls `WEXITSTATUS` of libc, which shifts the status right by eight bits
/// and keeps the low byte.
#[verifier::external_body]
fn wexitstatus(status: i32) -> (code: i32)
    ensures
        code == spec_exit_code(status),
{
    nix::libc::WEXITSTATUS(status)
}

/// Calls `WTERMSIG` of libc, which keeps the low seven bits of the status.
#[verifier::external_body]
fn wtermsig(status: i32) -> (signal: i32)
    ensures
        signal == spec_term_signal(status),
{
    nix::libc::WTERMSIG(status)
}

/// The exit code that a wait status carries, a number from 0 to 255.
pub fn exit_code(status: i32) -> (code: i32)
    ensures
        code == spec_exit_code(status),
        0 <= code <= 255,
{
    assert(0 <= ((status >> 8) & 0xff) <= 255) by (bit_vector);
    wexitstatus(status)
}

/// The signal that a wait status carries, a number from 0 to 127; zero where
/// the child exited by itself.
pub fn exit_signal(status: i32) -> (signal: i32)
    ensures
        signal == spec_term_signal(status),
        0 <= signal <= 127,
{
    assert(0 <= (status & 0x7f) <= 127) by (bit_vector);
    wtermsig(status)
}

/// Whether the child exited by itself with code zero.
pub fn clean_exit(status: i32) -> (clean: bool)
    ensures
        clean == spec_clean_exit(status),
{
    exit_signal(status) == 0 && exit_code(status) == 0
}

/// The status of a child that exited by itself with `code` carries that code
/// and no signal.
pub proof fn lemma_status_of_exit(code: i32)
    requires
        0 <= code <= 255,
    ensures
        spec_exit_code(code << 8) == code,
        spec_term_signal(code << 8) == 0,
        spec_clean_exit(code << 8) <==> code == 0,
{
    assert(((code << 8) >> 8) & 0xff == code && (code << 8) & 0x7f == 0) by (bit_vector)
        requires
            0 <= code <= 255,
    ;
}

/// The status of a child that a signal ended carries that signal and is no
/// clean exit.
pub proof fn lemma_status_of_signal(signal: i32)
    requires
        1 <= signal <= 127,
    ensures
        spec_term_signal(signal) == signal,
        !spec_exited(signal),
        !spec_clean_exit(signal),
{
    assert(signal & 0x7f == signal) by (bit_vector)
        requires
            1 <= signal <= 127,
    ;
}

/// A clean exit is the status zero on its low sixteen bits, and the status
/// zero is a clean exit.
pub proof fn lemma_clean_exit_is_zero(status: i32)
    ensures
        spec_clean_exit(status) <==> status & 0xff7f == 0,
        status == 0 ==> spec_clean_exit(status),
{
    assert(((status & 0x7f) == 0 && ((status >> 8) & 0xff) == 0) <==> (status & 0xff7f == 0))
        by (bit_vector);
    assert(0i32 & 0xff7f == 0) by (bit_vector);
}

} // verus!
