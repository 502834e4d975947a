//! The raw status word that `waitpid` fills in, and how to read it.

use vstd::prelude::*;

verus! {

/// The value a status word is given before the operating system is asked. No
/// reading applies to it, so a poll that leaves the word untouched reports a
/// child that is still running.
pub const UNSET: i32 = -1;

/// The process exited normally: the low seven bits are clear.
pub open spec fn exited(status: i32) -> bool {
    status & 0x7f == 0
}

/// The exit code of a process that exited normally: the second byte.
pub open spec fn exit_status(status: i32) -> i32 {
    (status >> 8) & 0xff
}

/// The process was ended by a signal: the low seven bits hold a signal
/// number, which is neither zero nor `0x7f`.
pub open spec fn signaled(status: i32) -> bool {
    0 < status & 0x7f < 0x7f
}

/// The number of the signal that ended the process: the low seven bits.
pub open spec fn term_signal(status: i32) -> i32 {
    status & 0x7f
}

/// The process was stopped: the low byte is `0x7f`.
pub open spec fn stopped(status: i32) -> bool {
    status & 0xff == 0x7f
}

/// The number of the signal that stopped the process: the second byte.
pub open spec fn stop_signal(status: i32) -> i32 {
    (status >> 8) & 0xff
}

/// The status word of a process that exited normally with `code`.
pub open spec fn exit_word(code: i32) -> i32 {
    code << 8
}

/// The test that `libc` makes for a terminating signal, on the low seven
/// bits plus one cut to a signed byte, says the same as `signaled`.
pub proof fn lemma_signaled_by_cast(status: i32)
    ensures
        ((((status & 0x7f) + 1) as i8) >= 2) == signaled(status),
{
    assert(((((status & 0x7f) + 1) as i8) >= 2) == (0 < status & 0x7f < 0x7f)) by (bit_vector);
}

/// At most one of the three readings applies to a status word.
pub proof fn lemma_readings_exclusive(status: i32)
    ensures
        !(exited(status) && signaled(status)),
        !(exited(status) && stopped(status)),
        !(signaled(status) && stopped(status)),
{
    assert(!((status & 0x7f == 0) && (0 < status & 0x7f < 0x7f)));
    assert(!((status & 0x7f == 0) && (status & 0xff == 0x7f))) by (bit_vector);
    assert(!((0 < status & 0x7f < 0x7f) && (status & 0xff == 0x7f))) by (bit_vector);
}

/// The numbers read from a status word are small: an exit code and a stop
/// signal fit in a byte, a terminating signal in seven bits.
pub proof fn lemma_reading_ranges(status: i32)
    ensures
        0 <= exit_status(status) <= 255,
        0 <= stop_signal(status) <= 255,
        0 <= term_signal(status) <= 127,
        signaled(status) ==> 1 <= term_signal(status) <= 126,
{
    assert(0 <= (status >> 8) & 0xff <= 255) by (bit_vector);
    assert(0 <= status & 0x7f <= 127) by (bit_vector);
}

/// No reading applies to the unset word.
pub proof fn lemma_unset_has_no_reading()
    ensures
        !exited(UNSET),
        !signaled(UNSET),
        !stopped(UNSET),
{
    assert((-1i32) & 0x7f == 0x7f) by (bit_vector);
    assert((-1i32) & 0xff == 0xff) by (bit_vector);
}

/// The word of a normal exit reads back as that exit, with the same code.
pub proof fn lemma_exit_word_reads_back(code: i32)
    requires
        0 <= code <= 255,
    ensures
        exited(exit_word(code)),
        exit_status(exit_word(code)) == code,
{
    assert((code << 8) & 0x7f == 0 && ((code << 8) >> 8) & 0xff == code) by (bit_vector)
        requires
            0 <= code <= 255,
    ;
}

} // verus!
