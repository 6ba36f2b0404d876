//! Constants of the kernel's interface, read from the `linux_raw_sys` crate.
//!
//! Verus does not look into that crate. Each function here reads one of its
//! constants, and its contract states the value that the crate's source gives
//! the constant on every architecture it covers. These contracts are believed,
//! not proved.

use vstd::prelude::*;

verus! {

/// Reads `linux_raw_sys::general::PRIO_PROCESS`, the `which` argument that
/// makes `who` the identifier of a process. It is 0 on every architecture.
#[verifier::external_body]
pub(crate) fn prio_process() -> (which: u32)
    ensures
        which == 0,
{
    linux_raw_sys::general::PRIO_PROCESS
}

/// Reads `linux_raw_sys::general::PRIO_PGRP`, the `which` argument that makes
/// `who` the identifier of a process group. It is 1 on every architecture.
#[verifier::external_body]
pub(crate) fn prio_pgrp() -> (which: u32)
    ensures
        which == 1,
{
    linux_raw_sys::general::PRIO_PGRP
}

/// Reads `linux_raw_sys::general::PRIO_USER`, the `which` argument that makes
/// `who` the identifier of a user. It is 2 on every architecture.
#[verifier::external_body]
pub(crate) fn prio_user() -> (which: u32)
    ensures
        which == 2,
{
    linux_raw_sys::general::PRIO_USER
}

/// Reads `linux_raw_sys::general::RLIM64_INFINITY`, the value with which a
/// 64-bit limit says that there is no limit. The crate gives it as -1 on every
/// architecture, which is all ones at 64 bits.
#[verifier::external_body]
pub(crate) fn rlim64_infinity() -> (marker: u64)
    ensures
        marker == u64::MAX,
{
    linux_raw_sys::general::RLIM64_INFINITY as u64
}

/// Reads `linux_raw_sys::general::RLIM_INFINITY`, the value with which a limit
/// of the width of a word says that there is no limit. The crate gives it as
/// -1, which is all ones at the width of the word, on every architecture with
/// 64-bit words and on most with 32-bit words. On 32-bit MIPS and 32-bit SPARC
/// it gives the largest signed 32-bit number.
#[verifier::external_body]
pub(crate) fn rlim_infinity() -> (marker: usize)
    ensures
        marker == usize::MAX || marker == 0x7fff_ffff,
        usize::BITS == 64 ==> marker == usize::MAX,
{
    linux_raw_sys::general::RLIM_INFINITY as usize
}

/// Reads `linux_raw_sys::general::membarrier_cmd::MEMBARRIER_CMD_QUERY`, the
/// barrier command that asks which commands the kernel supports. It is 0 on
/// every architecture.
#[verifier::external_body]
pub(crate) fn membarrier_cmd_query() -> (cmd: i32)
    ensures
        cmd == 0,
{
    linux_raw_sys::general::membarrier_cmd::MEMBARRIER_CMD_QUERY as i32
}

/// Reads `linux_raw_sys::general::membarrier_cmd_flag::MEMBARRIER_CMD_FLAG_CPU`,
/// the flag that limits a barrier command to one processor. It is 1 on every
/// architecture.
#[verifier::external_body]
pub(crate) fn membarrier_cmd_flag_cpu() -> (flag: u32)
    ensures
        flag == 1,
{
    linux_raw_sys::general::membarrier_cmd_flag::MEMBARRIER_CMD_FLAG_CPU as u32
}

} // verus!
