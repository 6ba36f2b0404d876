//! The process operations. Each one is a function that encodes its arguments
//! into a [`Call`], and, where the outcome is more than [`crate::conv`] decodes
//! by itself, a function with the suffix `_ret` that decodes the raw outcome.
//!
//! Two operations are more than one call. [`nice`] may have to ask for the
//! current priority before it sets the new one, and [`getrlimit`] falls back to
//! an older call where the kernel lacks the newer one. Their functions hand
//! out one call at a time and take every raw outcome as an argument.
//!
//! A parameter that is an address is the address of memory that the caller
//! owns, and that no one else reads or writes, until the call has come back.
//! What the kernel wrote to such memory is read only after a decoder has
//! reported success.

use crate::abi;
use crate::conv::{
    borrowed_fd, c_int, c_uint, fits_c_int, fits_c_uint, is_negative, pass_usize, ret, ret_c_int,
    ret_c_uint, ret_usize, ret_usize_infallible, same_bits, spec_c_int, spec_c_uint, spec_ret,
    spec_ret_c_int, spec_ret_c_uint, spec_ret_usize, spec_same_bits, zero,
};
use crate::errno::{lemma_known_failure_decodes_exactly, magnitude, Errno};
use crate::fd::BorrowedFd;
use crate::process::{
    Cpuid, Gid, IdFamily, MembarrierCommand, MembarrierQuery, Pid, RawCpuSet, RawPid, RawRlimit,
    RawRlimit64, Resource, Rlimit, Uid, WaitOptions, WaitStatus, CPU_SET_BYTES,
};
use crate::reg::{Call, CallKind, CallView, Sysno};
use vstd::prelude::*;

verus! {

/// What is to be done after the first answer to a limit query.
#[derive(Clone, Copy, Debug, PartialEq, Eq)]
pub enum RlimitStep {
    /// The kernel has answered, and these are the limits.
    Done(Rlimit),
    /// The kernel lacks the 64-bit query. This older call is to be made, once,
    /// and its outcome handed to [`getrlimit_legacy_ret`].
    Fallback(Call),
}

/// What a [`RlimitStep`] holds, as a mathematical value.
pub enum RlimitStepView {
    Done(Rlimit),
    Fallback(CallView),
}

impl View for RlimitStep {
    type V = RlimitStepView;

    open spec fn view(&self) -> RlimitStepView {
        match *self {
            RlimitStep::Done(limits) => RlimitStepView::Done(limits),
            RlimitStep::Fallback(call) => RlimitStepView::Fallback(call@),
        }
    }
}

/// One bound of a limit that the kernel wrote at 64 bits: all ones says that
/// there is no bound.
pub open spec fn spec_bound_from_raw64(raw: u64) -> Option<u64> {
    if raw == u64::MAX {
        None
    } else {
        Some(raw)
    }
}

/// One bound of a limit that the kernel wrote at the width of a word: `marker`
/// says that there is no bound.
pub open spec fn spec_bound_from_legacy(raw: usize, marker: usize) -> Option<u64> {
    if raw == marker {
        None
    } else {
        Some(raw as u64)
    }
}

/// The limits that the kernel wrote at 64 bits.
pub open spec fn spec_rlimit_from_raw64(raw: RawRlimit64) -> Rlimit {
    Rlimit { current: spec_bound_from_raw64(raw.cur), maximum: spec_bound_from_raw64(raw.max) }
}

/// The limits that the kernel wrote at the width of a word.
pub open spec fn spec_rlimit_from_legacy(raw: RawRlimit, marker: usize) -> Rlimit {
    Rlimit {
        current: spec_bound_from_legacy(raw.cur, marker),
        maximum: spec_bound_from_legacy(raw.max, marker),
    }
}

/// The 64-bit limit query on the calling process: no process, the resource, no
/// new limits, and the address at which the kernel is to write the limits.
pub open spec fn spec_getrlimit_call(limit: Resource, result: usize) -> CallView {
    CallView {
        nr: Sysno::Prlimit64,
        kind: CallKind::Ordinary,
        args: seq![spec_c_uint(0), spec_c_uint(limit.spec_as_raw()), 0usize, result],
    }
}

/// The older limit query: the resource, and the address at which the kernel is
/// to write the limits.
pub open spec fn spec_getrlimit_legacy_call(limit: Resource, result: usize) -> CallView {
    CallView {
        nr: Sysno::Getrlimit,
        kind: CallKind::Ordinary,
        args: seq![spec_c_uint(limit.spec_as_raw()), result],
    }
}

/// Reads the limits that the kernel wrote at 64 bits.
pub fn rlimit_from_raw64(raw: RawRlimit64) -> (limits: Rlimit)
    ensures
        limits == spec_rlimit_from_raw64(raw),
{
    let marker = abi::rlim64_infinity();
    let current = if raw.cur == marker {
        None
    } else {
        Some(raw.cur)
    };
    let maximum = if raw.max == marker {
        None
    } else {
        Some(raw.max)
    };
    Rlimit { current, maximum }
}

/// Reads the limits that the kernel wrote at the width of a word, where
/// `marker` is the value that says "no bound". Every other value is kept as it
/// is: a word always fits in 64 bits.
pub fn rlimit_from_legacy(raw: RawRlimit, marker: usize) -> (limits: Rlimit)
    ensures
        limits == spec_rlimit_from_legacy(raw, marker),
        raw.cur == marker ==> limits.current is None,
        raw.max == marker ==> limits.maximum is None,
{
    let current = if raw.cur == marker {
        None
    } else {
        Some(raw.cur as u64)
    };
    let maximum = if raw.max == marker {
        None
    } else {
        Some(raw.max as u64)
    };
    Rlimit { current, maximum }
}

/// Starts a query for the limits on `limit`: the 64-bit call, which is to
/// write to the [`RawRlimit64`] at the address `result`. Its outcome goes to
/// [`getrlimit_ret`].
pub fn getrlimit(limit: Resource, result: usize) -> (call: Call)
    ensures
        call@ == spec_getrlimit_call(limit, result),
{
    let call = Call::new(Sysno::Prlimit64, CallKind::Ordinary).with_arg(c_uint(0)).with_arg(
        c_uint(limit.as_raw()),
    ).with_arg(zero()).with_arg(pass_usize(result));
    assert(call@.args =~= spec_getrlimit_call(limit, result).args);
    call
}

/// What follows from the outcome `raw` of the 64-bit query: the limits that
/// it wrote if it succeeded, and the older call if it did not.
pub open spec fn spec_getrlimit_ret(
    limit: Resource,
    raw: usize,
    result: RawRlimit64,
    legacy: usize,
) -> RlimitStepView {
    if spec_ret(raw) is Ok {
        RlimitStepView::Done(spec_rlimit_from_raw64(result))
    } else {
        RlimitStepView::Fallback(spec_getrlimit_legacy_call(limit, legacy))
    }
}

/// Decides on the outcome `raw` of the call that [`getrlimit`] made, where
/// `result` is what the memory at its address holds after the call.
///
/// On success `result` holds the limits. If the kernel reports that it lacks
/// the call, `result` is not looked at, and the answer is the older call, which
/// is to write to the [`RawRlimit`] at the address `legacy`. The query cannot
/// fail in any other way.
pub fn getrlimit_ret(limit: Resource, raw: usize, result: RawRlimit64, legacy: usize) -> (step:
    RlimitStep)
    requires
        spec_ret(raw) is Ok || spec_ret(raw) == Err::<(), Errno>(Errno::NoSys),
    ensures
        step@ == spec_getrlimit_ret(limit, raw, result, legacy),
{
    match ret(raw) {
        Ok(()) => RlimitStep::Done(rlimit_from_raw64(result)),
        Err(_) => {
            let call = Call::new(Sysno::Getrlimit, CallKind::Ordinary).with_arg(
                c_uint(limit.as_raw()),
            ).with_arg(pass_usize(legacy));
            assert(call@.args =~= spec_getrlimit_legacy_call(limit, legacy).args);
            RlimitStep::Fallback(call)
        },
    }
}

/// Where the kernel answers the 64-bit query with "not implemented", the
/// outcome is one that [`getrlimit_ret`] accepts, and the query goes on with
/// the older call, whatever the memory of the first call holds. The answer to
/// that call is final. In it, a bound that is the marker reads as "no bound",
/// and every other bound is kept.
pub proof fn lemma_not_implemented_falls_back(
    limit: Resource,
    raw: usize,
    result: RawRlimit64,
    legacy: usize,
    written: RawRlimit,
    marker: usize,
)
    requires
        Errno::NoSys.spec_code() matches Some(code) && magnitude(raw) == code,
    ensures
        spec_ret(raw) == Err::<(), Errno>(Errno::NoSys),
        spec_getrlimit_ret(limit, raw, result, legacy) == RlimitStepView::Fallback(
            spec_getrlimit_legacy_call(limit, legacy),
        ),
        written.cur == marker <==> spec_rlimit_from_legacy(written, marker).current is None,
        written.max == marker <==> spec_rlimit_from_legacy(written, marker).maximum is None,
        written.cur != marker ==> spec_rlimit_from_legacy(written, marker).current == Some(
            written.cur as u64,
        ),
        written.max != marker ==> spec_rlimit_from_legacy(written, marker).maximum == Some(
            written.max as u64,
        ),
{
    lemma_known_failure_decodes_exactly(raw, Errno::NoSys);
}

/// Reads the limits after the older call, where `raw` is its outcome and
/// `result` is what the memory at its address holds. The call cannot fail.
///
/// The value that says "no bound" is all ones wherever the word has 64 bits.
/// Where it has 32 bits it is all ones on most architectures and the largest
/// signed 32-bit number on some; which of the two applies is fixed when the
/// program is built.
pub fn getrlimit_legacy_ret(raw: usize, result: RawRlimit) -> (limits: Rlimit)
    requires
        spec_ret(raw) is Ok,
    ensures
        limits == spec_rlimit_from_legacy(result, usize::MAX) || limits == spec_rlimit_from_legacy(
            result,
            0x7fff_ffff,
        ),
        usize::BITS == 64 ==> limits == spec_rlimit_from_legacy(result, usize::MAX),
{
    rlimit_from_legacy(result, abi::rlim_infinity())
}

/// A query for a priority: what kind of identifier `who` is, and the
/// identifier.
pub open spec fn spec_getpriority_call(which: u32, who: u32) -> CallView {
    CallView {
        nr: Sysno::Getpriority,
        kind: CallKind::ReadOnly,
        args: seq![spec_c_uint(which), spec_c_uint(who)],
    }
}

/// A request to set a priority: what kind of identifier `who` is, the
/// identifier, and the priority.
pub open spec fn spec_setpriority_call(which: u32, who: u32, priority: i32) -> CallView {
    CallView {
        nr: Sysno::Setpriority,
        kind: CallKind::ReadOnly,
        args: seq![spec_c_uint(which), spec_c_uint(who), spec_c_int(priority)],
    }
}

/// The priority in the outcome of a priority query. The kernel reports 20 minus
/// the priority, so that the payload is never negative.
pub open spec fn spec_getpriority_ret(raw: usize) -> Result<i32, Errno> {
    match spec_ret_c_int(raw) {
        Ok(payload) => Ok((20 - payload) as i32),
        Err(errno) => Err(errno),
    }
}

fn getpriority(which: u32, who: u32) -> (call: Call)
    ensures
        call@ == spec_getpriority_call(which, who),
{
    let call = Call::new(Sysno::Getpriority, CallKind::ReadOnly).with_arg(c_uint(which)).with_arg(
        c_uint(who),
    );
    assert(call@.args =~= spec_getpriority_call(which, who).args);
    call
}

fn setpriority(which: u32, who: u32, priority: i32) -> (call: Call)
    ensures
        call@ == spec_setpriority_call(which, who, priority),
{
    let call = Call::new(Sysno::Setpriority, CallKind::ReadOnly).with_arg(c_uint(which)).with_arg(
        c_uint(who),
    ).with_arg(c_int(priority));
    assert(call@.args =~= spec_setpriority_call(which, who, priority).args);
    call
}

/// Decodes the outcome of a priority query.
pub fn getpriority_ret(raw: usize) -> (outcome: Result<i32, Errno>)
    requires
        fits_c_int(raw),
    ensures
        outcome == spec_getpriority_ret(raw),
        is_negative(raw) <==> outcome is Err,
{
    match ret_c_int(raw) {
        Ok(payload) => Ok(20 - payload),
        Err(errno) => Err(errno),
    }
}

/// Asks for the priority of the user `uid`. The outcome goes to
/// [`getpriority_ret`].
pub fn getpriority_user(uid: Uid) -> (call: Call)
    ensures
        call@ == spec_getpriority_call(2, uid@),
{
    getpriority(abi::prio_user(), uid.as_raw())
}

/// Asks for the priority of the process group `pgid`, of the caller's own
/// group for `None`. The outcome goes to [`getpriority_ret`].
pub fn getpriority_pgrp(pgid: Option<Pid>) -> (call: Call)
    ensures
        call@ == spec_getpriority_call(1, Pid::spec_as_raw(pgid)),
{
    getpriority(abi::prio_pgrp(), Pid::as_raw(pgid))
}

/// Asks for the priority of the process `pid`, of the caller itself for
/// `None`. The outcome goes to [`getpriority_ret`].
pub fn getpriority_process(pid: Option<Pid>) -> (call: Call)
    ensures
        call@ == spec_getpriority_call(0, Pid::spec_as_raw(pid)),
{
    getpriority(abi::prio_process(), Pid::as_raw(pid))
}

/// Sets the priority of the user `uid`. The outcome goes to
/// [`crate::conv::ret`].
pub fn setpriority_user(uid: Uid, priority: i32) -> (call: Call)
    ensures
        call@ == spec_setpriority_call(2, uid@, priority),
{
    setpriority(abi::prio_user(), uid.as_raw(), priority)
}

/// Sets the priority of the process group `pgid`, of the caller's own group
/// for `None`. The outcome goes to [`crate::conv::ret`].
pub fn setpriority_pgrp(pgid: Option<Pid>, priority: i32) -> (call: Call)
    ensures
        call@ == spec_setpriority_call(1, Pid::spec_as_raw(pgid), priority),
{
    setpriority(abi::prio_pgrp(), Pid::as_raw(pgid), priority)
}

/// Sets the priority of the process `pid`, of the caller itself for `None`.
/// The outcome goes to [`crate::conv::ret`].
pub fn setpriority_process(pid: Option<Pid>, priority: i32) -> (call: Call)
    ensures
        call@ == spec_setpriority_call(0, Pid::spec_as_raw(pid), priority),
{
    setpriority(abi::prio_process(), Pid::as_raw(pid), priority)
}

/// One step of changing the caller's priority.
#[derive(Clone, Copy, Debug, PartialEq, Eq)]
pub enum NiceStep {
    /// The current priority is to be asked for with this call, and the outcome
    /// handed to [`nice_adjust`].
    GetPriority(Call),
    /// The priority in the second place is to be set with this call, and the
    /// outcome handed to [`nice_ret`] together with that priority.
    SetPriority(Call, i32),
}

/// What a [`NiceStep`] holds, as a mathematical value.
pub enum NiceStepView {
    GetPriority(CallView),
    SetPriority(CallView, i32),
}

impl View for NiceStep {
    type V = NiceStepView;

    open spec fn view(&self) -> NiceStepView {
        match *self {
            NiceStep::GetPriority(call) => NiceStepView::GetPriority(call@),
            NiceStep::SetPriority(call, priority) => NiceStepView::SetPriority(call@, priority),
        }
    }
}

/// Whether `inc` is taken as an increment to the current priority. Outside
/// this range it is taken as the priority itself.
pub open spec fn nice_is_relative(inc: i32) -> bool {
    -40 <= inc < 40
}

/// The nearest priority that a process can have.
pub open spec fn spec_clamp_priority(priority: int) -> i32 {
    if priority < -20 {
        -20i32
    } else if priority > 19 {
        19i32
    } else {
        priority as i32
    }
}

/// The step that sets the caller's priority to `priority`.
pub open spec fn spec_nice_set(priority: i32) -> NiceStepView {
    NiceStepView::SetPriority(spec_setpriority_call(0, 0, priority), priority)
}

/// The first step of a change by `inc`.
pub open spec fn spec_nice(inc: i32) -> NiceStepView {
    if nice_is_relative(inc) {
        NiceStepView::GetPriority(spec_getpriority_call(0, 0))
    } else {
        spec_nice_set(inc)
    }
}

/// The step after the query for the current priority has come back with `raw`.
pub open spec fn spec_nice_adjust(inc: i32, raw: usize) -> Result<NiceStepView, Errno> {
    match spec_getpriority_ret(raw) {
        Ok(current) => Ok(spec_nice_set(spec_clamp_priority(inc + current))),
        Err(errno) => Err(errno),
    }
}

/// Starts a change of the caller's priority by `inc`.
///
/// An increment in `-40..40` is relative, so the current priority has to be
/// found first. Any other value is handed to the kernel as it is.
pub fn nice(inc: i32) -> (step: NiceStep)
    ensures
        step@ == spec_nice(inc),
{
    if inc >= -40 && inc < 40 {
        NiceStep::GetPriority(getpriority_process(None))
    } else {
        NiceStep::SetPriority(setpriority_process(None, inc), inc)
    }
}

/// Goes on with a relative change by `inc`, where `raw` is the outcome of the
/// query for the current priority.
///
/// A failed query ends the change with its error. Otherwise the new priority
/// is the sum of the current one and `inc`, brought into `-20..=19`, and the
/// answer is the call that sets it.
pub fn nice_adjust(inc: i32, raw: usize) -> (outcome: Result<NiceStep, Errno>)
    requires
        fits_c_int(raw),
    ensures
        match outcome {
            Ok(step) => spec_nice_adjust(inc, raw) == Ok::<NiceStepView, Errno>(step@),
            Err(errno) => spec_nice_adjust(inc, raw) == Err::<NiceStepView, Errno>(errno),
        },
        outcome matches Ok(NiceStep::SetPriority(_, priority)) ==> -20 <= priority <= 19,
{
    match getpriority_ret(raw) {
        Ok(current) => {
            let sum: i64 = inc as i64 + current as i64;
            let priority: i32 = if sum < -20 {
                -20
            } else if sum > 19 {
                19
            } else {
                sum as i32
            };
            Ok(NiceStep::SetPriority(setpriority_process(None, priority), priority))
        },
        Err(errno) => Err(errno),
    }
}

/// Ends a change of the caller's priority, where `raw` is the outcome of the
/// call that set `priority`: the priority that is now in force, or the error.
pub fn nice_ret(priority: i32, raw: usize) -> (outcome: Result<i32, Errno>)
    ensures
        outcome == match spec_ret(raw) {
            Ok(()) => Ok::<i32, Errno>(priority),
            Err(errno) => Err(errno),
        },
{
    match ret(raw) {
        Ok(()) => Ok(priority),
        Err(errno) => Err(errno),
    }
}

/// A wait: the raw identifier of what to wait for, the address at which the
/// kernel is to write the state, the options, and no resource usage.
pub open spec fn spec_waitpid_call(pid: RawPid, waitopts: WaitOptions, status: usize) -> CallView {
    CallView {
        nr: Sysno::Wait4,
        kind: CallKind::Ordinary,
        args: seq![
            spec_c_int(spec_same_bits(pid)),
            status,
            spec_c_int(waitopts.spec_bits() as i32),
            0usize,
        ],
    }
}

/// What a wait has found, where `raw` is its outcome and `status` is what the
/// memory at its address holds: an error, no child (a payload of 0), or a
/// child and its state.
pub open spec fn spec_waitpid_ret(raw: usize, status: u32) -> Result<Option<(RawPid, u32)>, Errno> {
    match spec_ret_c_uint(raw) {
        Ok(pid) => if pid == 0 {
            Ok(None)
        } else {
            Ok(Some((pid, status)))
        },
        Err(errno) => Err(errno),
    }
}

/// Waits for any child. The kernel is to write the child's state to the `u32`
/// at the address `status`. The outcome goes to [`waitpid_ret`].
pub fn wait(waitopts: WaitOptions, status: usize) -> (call: Call)
    ensures
        call@ == spec_waitpid_call(u32::MAX, waitopts, status),
        call@.args[0] == usize::MAX,
{
    _waitpid(u32::MAX, waitopts, status)
}

/// Waits for the child `pid`, or for any child of the caller's process group
/// for `None`. The kernel is to write the child's state to the `u32` at the
/// address `status`. The outcome goes to [`waitpid_ret`].
pub fn waitpid(pid: Option<Pid>, waitopts: WaitOptions, status: usize) -> (call: Call)
    ensures
        call@ == spec_waitpid_call(Pid::spec_as_raw(pid), waitopts, status),
{
    _waitpid(Pid::as_raw(pid), waitopts, status)
}

/// Waits for what the raw identifier `pid` selects. The kernel is to write the
/// child's state to the `u32` at the address `status`. The outcome goes to
/// [`waitpid_ret`].
pub fn _waitpid(pid: RawPid, waitopts: WaitOptions, status: usize) -> (call: Call)
    ensures
        call@ == spec_waitpid_call(pid, waitopts, status),
{
    let call = Call::new(Sysno::Wait4, CallKind::Ordinary).with_arg(
        c_int(same_bits(pid)),
    ).with_arg(pass_usize(status)).with_arg(c_int(waitopts.bits() as i32)).with_arg(zero());
    assert(call@.args =~= spec_waitpid_call(pid, waitopts, status).args);
    call
}

/// Decodes the outcome `raw` of a wait, where `status` is what the memory at
/// its address holds after the call.
///
/// A payload of 0 says that no child has a state to report. This is neither a
/// child nor an error, and comes out as `Ok(None)`. `status` is looked at only
/// where there is a child.
pub fn waitpid_ret(raw: usize, status: u32) -> (outcome: Result<Option<(Pid, WaitStatus)>, Errno>)
    requires
        fits_c_uint(raw),
    ensures
        match spec_waitpid_ret(raw, status) {
            Ok(Some((pid, state))) => outcome matches Ok(Some((found, reported))) && found@ == pid
                && reported@ == state,
            Ok(None) => outcome matches Ok(None),
            Err(errno) => outcome matches Err(e) && e == errno,
        },
{
    match ret_c_uint(raw) {
        Ok(pid) => match Pid::from_raw(pid) {
            Some(found) => Ok(Some((found, WaitStatus::new(status)))),
            None => Ok(None),
        },
        Err(errno) => Err(errno),
    }
}

/// A barrier call: the command, its flags, and the processor that the flags may
/// ask for.
pub open spec fn spec_membarrier_call(cmd: i32, flags: u32, cpu: Option<u32>) -> CallView {
    CallView {
        nr: Sysno::Membarrier,
        kind: CallKind::Ordinary,
        args: match cpu {
            Some(cpu) => seq![spec_c_int(cmd), spec_c_uint(flags), spec_c_uint(cpu)],
            None => seq![spec_c_int(cmd), spec_c_uint(flags)],
        },
    }
}

/// Asks which barrier commands the kernel supports. The outcome goes to
/// [`membarrier_query_ret`].
pub fn membarrier_query() -> (call: Call)
    ensures
        call@ == spec_membarrier_call(0, 0, None),
{
    let call = Call::new(Sysno::Membarrier, CallKind::Ordinary).with_arg(
        c_int(abi::membarrier_cmd_query()),
    ).with_arg(c_uint(0));
    assert(call@.args =~= spec_membarrier_call(0, 0, None).args);
    call
}

/// Decodes the outcome of [`membarrier_query`]: the kernel's answer bit for
/// bit, and the empty set if the query failed. A kernel without barriers is
/// nothing out of the ordinary, so no error comes out of this.
pub fn membarrier_query_ret(raw: usize) -> (query: MembarrierQuery)
    requires
        fits_c_uint(raw),
    ensures
        query@ == match spec_ret_c_uint(raw) {
            Ok(bits) => bits,
            Err(_) => 0,
        },
        is_negative(raw) ==> query@ == 0,
{
    match ret_c_uint(raw) {
        Ok(bits) => MembarrierQuery::from_bits_unchecked(bits),
        Err(_) => MembarrierQuery::empty(),
    }
}

/// Issues the barrier command `cmd`. The outcome goes to
/// [`crate::conv::ret`].
pub fn membarrier(cmd: MembarrierCommand) -> (call: Call)
    ensures
        call@ == spec_membarrier_call(cmd.spec_as_raw() as i32, 0, None),
{
    let call = Call::new(Sysno::Membarrier, CallKind::Ordinary).with_arg(
        c_int(cmd.as_raw() as i32),
    ).with_arg(c_uint(0));
    assert(call@.args =~= spec_membarrier_call(cmd.spec_as_raw() as i32, 0, None).args);
    call
}

/// Issues the barrier command `cmd` for the processor `cpu` alone: the
/// command with the flag that says so, and the processor as one more argument.
/// The outcome goes to [`crate::conv::ret`].
pub fn membarrier_cpu(cmd: MembarrierCommand, cpu: Cpuid) -> (call: Call)
    ensures
        call@ == spec_membarrier_call(cmd.spec_as_raw() as i32, 1, Some(cpu@)),
{
    let call = Call::new(Sysno::Membarrier, CallKind::Ordinary).with_arg(
        c_int(cmd.as_raw() as i32),
    ).with_arg(c_uint(abi::membarrier_cmd_flag_cpu())).with_arg(c_uint(cpu.as_raw()));
    assert(call@.args =~= spec_membarrier_call(cmd.spec_as_raw() as i32, 1, Some(cpu@)).args);
    call
}

/// A call without arguments that writes none of the caller's memory.
pub open spec fn spec_query_call(nr: Sysno) -> CallView {
    CallView { nr, kind: CallKind::ReadOnly, args: Seq::empty() }
}

/// The low 32 bits of a payload.
pub open spec fn spec_low_32(raw: usize) -> u32 {
    (raw as int % 0x1_0000_0000) as u32
}

fn low_32(raw: usize) -> (low: u32)
    ensures
        low == spec_low_32(raw),
{
    ((raw as u64) % 0x1_0000_0000) as u32
}

/// Asks for the identifier of the calling process. The outcome goes to
/// [`getpid_ret`].
pub fn getpid() -> (call: Call)
    ensures
        call@ == spec_query_call(Sysno::Getpid),
{
    Call::new(Sysno::Getpid, CallKind::ReadOnly)
}

/// Decodes the outcome of [`getpid`]: the identifier is the low 32 bits of the
/// payload. The call cannot fail, and every process has an identifier.
pub fn getpid_ret(raw: usize) -> (pid: Pid)
    requires
        spec_ret_usize(raw) is Ok,
        spec_low_32(raw) != 0,
    ensures
        pid@ == spec_low_32(raw),
{
    Pid::from_raw_nonzero(low_32(ret_usize_infallible(raw)))
}

/// Asks for the identifier of the parent of the calling process. The outcome
/// goes to [`getppid_ret`].
pub fn getppid() -> (call: Call)
    ensures
        call@ == spec_query_call(Sysno::Getppid),
{
    Call::new(Sysno::Getppid, CallKind::ReadOnly)
}

/// Decodes the outcome of [`getppid`]: the identifier is the low 32 bits of
/// the payload, and 0 says that there is no parent to name. The call cannot
/// fail.
pub fn getppid_ret(raw: usize) -> (ppid: Option<Pid>)
    requires
        spec_ret_usize(raw) is Ok,
    ensures
        Pid::spec_as_raw(ppid) == spec_low_32(raw),
        ppid is None <==> spec_low_32(raw) == 0,
{
    Pid::from_raw(low_32(ret_usize_infallible(raw)))
}

/// Asks for the real group of the calling process. The outcome goes to
/// [`gid_ret`].
pub fn getgid(family: IdFamily) -> (call: Call)
    ensures
        call@ == spec_query_call(
            match family {
                IdFamily::Suffixed => Sysno::Getgid32,
                IdFamily::Plain => Sysno::Getgid,
            },
        ),
{
    match family {
        IdFamily::Suffixed => Call::new(Sysno::Getgid32, CallKind::ReadOnly),
        IdFamily::Plain => Call::new(Sysno::Getgid, CallKind::ReadOnly),
    }
}

/// Asks for the effective group of the calling process. The outcome goes to
/// [`gid_ret`].
pub fn getegid(family: IdFamily) -> (call: Call)
    ensures
        call@ == spec_query_call(
            match family {
                IdFamily::Suffixed => Sysno::Getegid32,
                IdFamily::Plain => Sysno::Getegid,
            },
        ),
{
    match family {
        IdFamily::Suffixed => Call::new(Sysno::Getegid32, CallKind::ReadOnly),
        IdFamily::Plain => Call::new(Sysno::Getegid, CallKind::ReadOnly),
    }
}

/// Asks for the real user of the calling process. The outcome goes to
/// [`uid_ret`].
pub fn getuid(family: IdFamily) -> (call: Call)
    ensures
        call@ == spec_query_call(
            match family {
                IdFamily::Suffixed => Sysno::Getuid32,
                IdFamily::Plain => Sysno::Getuid,
            },
        ),
{
    match family {
        IdFamily::Suffixed => Call::new(Sysno::Getuid32, CallKind::ReadOnly),
        IdFamily::Plain => Call::new(Sysno::Getuid, CallKind::ReadOnly),
    }
}

/// Asks for the effective user of the calling process. The outcome goes to
/// [`uid_ret`].
pub fn geteuid(family: IdFamily) -> (call: Call)
    ensures
        call@ == spec_query_call(
            match family {
                IdFamily::Suffixed => Sysno::Geteuid32,
                IdFamily::Plain => Sysno::Geteuid,
            },
        ),
{
    match family {
        IdFamily::Suffixed => Call::new(Sysno::Geteuid32, CallKind::ReadOnly),
        IdFamily::Plain => Call::new(Sysno::Geteuid, CallKind::ReadOnly),
    }
}

/// Decodes the outcome of [`getgid`] or [`getegid`], of either family: the
/// identifier is the low 32 bits of the payload, so that every identifier the
/// kernel can report comes out whole. The call cannot fail.
pub fn gid_ret(raw: usize) -> (gid: Gid)
    requires
        spec_ret_usize(raw) is Ok,
    ensures
        gid@ == spec_low_32(raw),
        raw <= u32::MAX ==> gid@ == raw,
{
    Gid::from_raw(low_32(ret_usize_infallible(raw)))
}

/// Decodes the outcome of [`getuid`] or [`geteuid`], of either family: the
/// identifier is the low 32 bits of the payload, so that every identifier the
/// kernel can report comes out whole. The call cannot fail.
pub fn uid_ret(raw: usize) -> (uid: Uid)
    requires
        spec_ret_usize(raw) is Ok,
    ensures
        uid@ == spec_low_32(raw),
        raw <= u32::MAX ==> uid@ == raw,
{
    Uid::from_raw(low_32(ret_usize_infallible(raw)))
}

/// A call that reads or writes the processor set of a process: the raw
/// identifier of the process, the size of the set in bytes, and its address.
pub open spec fn spec_affinity_call(nr: Sysno, pid: RawPid, cpuset: usize) -> CallView {
    CallView {
        nr,
        kind: CallKind::Ordinary,
        args: seq![spec_c_uint(pid), CPU_SET_BYTES, cpuset],
    }
}

fn affinity(nr: Sysno, pid: Option<Pid>, cpuset: usize) -> (call: Call)
    ensures
        call@ == spec_affinity_call(nr, Pid::spec_as_raw(pid), cpuset),
{
    let call = Call::new(nr, CallKind::Ordinary).with_arg(c_uint(Pid::as_raw(pid))).with_arg(
        pass_usize(CPU_SET_BYTES),
    ).with_arg(pass_usize(cpuset));
    assert(call@.args =~= spec_affinity_call(nr, Pid::spec_as_raw(pid), cpuset).args);
    call
}

/// Asks on which processors the process `pid`, or the caller for `None`, may
/// run. The kernel is to write the set to the [`RawCpuSet`] at the address
/// `cpuset`. The outcome goes to [`sched_getaffinity_ret`].
pub fn sched_getaffinity(pid: Option<Pid>, cpuset: usize) -> (call: Call)
    ensures
        call@ == spec_affinity_call(Sysno::SchedGetaffinity, Pid::spec_as_raw(pid), cpuset),
{
    affinity(Sysno::SchedGetaffinity, pid, cpuset)
}

/// Decodes the outcome `raw` of [`sched_getaffinity`], where `cpuset` is what
/// the memory at its address holds after the call.
///
/// The payload is the number of bytes that the kernel wrote, which is at most
/// the number it was given room for. The bytes behind them are set to zero, so
/// that the whole set can be read. On failure the set is left as it is.
pub fn sched_getaffinity_ret(raw: usize, cpuset: &mut RawCpuSet) -> (outcome: Result<(), Errno>)
    requires
        spec_ret_usize(raw) is Ok ==> raw <= CPU_SET_BYTES,
    ensures
        match spec_ret_usize(raw) {
            Ok(size) => {
                &&& outcome == Ok::<(), Errno>(())
                &&& forall|i: int| 0 <= i < size ==> final(cpuset).bytes@[i] == old(cpuset).bytes@[i]
                &&& forall|i: int| size <= i < CPU_SET_BYTES ==> final(cpuset).bytes@[i] == 0
            },
            Err(errno) => outcome == Err::<(), Errno>(errno) && *final(cpuset) == *old(cpuset),
        },
{
    match ret_usize(raw) {
        Ok(size) => {
            let mut at: usize = size;
            while at < CPU_SET_BYTES
                invariant
                    size <= at <= CPU_SET_BYTES,
                    forall|i: int| 0 <= i < size ==> cpuset.bytes@[i] == old(cpuset).bytes@[i],
                    forall|i: int| size <= i < at ==> cpuset.bytes@[i] == 0,
                decreases CPU_SET_BYTES - at,
            {
                cpuset.bytes[at] = 0;
                at = at + 1;
            }
            Ok(())
        },
        Err(errno) => Err(errno),
    }
}

/// Sets the processors on which the process `pid`, or the caller for `None`,
/// may run, to the [`RawCpuSet`] at the address `cpuset`. The outcome goes to
/// [`crate::conv::ret`].
pub fn sched_setaffinity(pid: Option<Pid>, cpuset: usize) -> (call: Call)
    ensures
        call@ == spec_affinity_call(Sysno::SchedSetaffinity, Pid::spec_as_raw(pid), cpuset),
{
    affinity(Sysno::SchedSetaffinity, pid, cpuset)
}

/// Gives up the processor. The outcome carries nothing.
pub fn sched_yield() -> (call: Call)
    ensures
        call@ == spec_query_call(Sysno::SchedYield),
{
    Call::new(Sysno::SchedYield, CallKind::ReadOnly)
}

/// A call whose one argument is a word.
pub open spec fn spec_unary_call(nr: Sysno, kind: CallKind, word: usize) -> CallView {
    CallView { nr, kind, args: seq![word] }
}

fn unary(nr: Sysno, kind: CallKind, word: usize) -> (call: Call)
    ensures
        call@ == spec_unary_call(nr, kind, word),
{
    let call = Call::new(nr, kind).with_arg(word);
    assert(call@.args =~= spec_unary_call(nr, kind, word).args);
    call
}

/// Asks for the names of the system. The kernel is to write them to the memory
/// at the address `name`. The call cannot fail: the outcome goes to
/// [`crate::conv::ret_infallible`].
pub fn uname(name: usize) -> (call: Call)
    ensures
        call@ == spec_unary_call(Sysno::Uname, CallKind::Ordinary, name),
{
    unary(Sysno::Uname, CallKind::Ordinary, pass_usize(name))
}

/// Changes the working directory to the path whose bytes, ended by a zero
/// byte, lie at the address `filename`. The outcome goes to
/// [`crate::conv::ret`].
pub fn chdir(filename: usize) -> (call: Call)
    ensures
        call@ == spec_unary_call(Sysno::Chdir, CallKind::ReadOnly, filename),
{
    unary(Sysno::Chdir, CallKind::ReadOnly, pass_usize(filename))
}

/// Changes the working directory to the directory that `fd` is open on. The
/// outcome goes to [`crate::conv::ret`].
pub fn fchdir(fd: BorrowedFd<'_>) -> (call: Call)
    ensures
        call@ == spec_unary_call(Sysno::Fchdir, CallKind::ReadOnly, spec_c_int(fd@)),
{
    unary(Sysno::Fchdir, CallKind::ReadOnly, borrowed_fd(fd))
}

/// Asks for the path of the working directory. The kernel is to write it to
/// the `len` bytes at the address `buf`. The outcome goes to
/// [`crate::conv::ret_usize`]: its payload is the number of bytes written.
pub fn getcwd(buf: usize, len: usize) -> (call: Call)
    ensures
        call@ == (CallView {
            nr: Sysno::Getcwd,
            kind: CallKind::Ordinary,
            args: seq![buf, len],
        }),
{
    let call = Call::new(Sysno::Getcwd, CallKind::Ordinary).with_arg(pass_usize(buf)).with_arg(
        pass_usize(len),
    );
    assert(call@.args =~= seq![buf, len]);
    call
}

/// Ends every thread of the calling process with the exit status `code`. The
/// call does not come back, so there is no outcome.
pub fn exit_group(code: i32) -> (call: Call)
    ensures
        call@ == spec_unary_call(Sysno::ExitGroup, CallKind::NoReturn, spec_c_int(code)),
{
    unary(Sysno::ExitGroup, CallKind::NoReturn, c_int(code))
}

} // verus!
