//! The values that the process operations take and return, each with the raw
//! form in which it crosses the kernel's interface.

use vstd::prelude::*;

verus! {

/// The raw form of a process identifier; 0 stands for "none".
pub type RawPid = u32;

/// The raw form of a user identifier.
pub type RawUid = u32;

/// The raw form of a group identifier.
pub type RawGid = u32;

/// The identifier of a process or of a process group. It is never 0.
#[derive(Clone, Copy, Debug, PartialEq, Eq, Hash)]
pub struct Pid {
    raw: RawPid,
}

impl View for Pid {
    type V = RawPid;

    closed spec fn view(&self) -> RawPid {
        self.raw
    }
}

impl Pid {
    #[verifier::type_invariant]
    spec fn inv(self) -> bool {
        self.raw != 0
    }

    /// The raw form of an optional identifier: 0 for `None`.
    pub open spec fn spec_as_raw(pid: Option<Pid>) -> RawPid {
        match pid {
            Some(pid) => pid@,
            None => 0,
        }
    }

    /// The identifier with the raw form `raw`, `None` for 0.
    pub fn from_raw(raw: RawPid) -> (pid: Option<Pid>)
        ensures
            Pid::spec_as_raw(pid) == raw,
            pid is None <==> raw == 0,
    {
        if raw == 0 {
            None
        } else {
            Some(Pid { raw })
        }
    }

    /// The identifier with the raw form `raw`.
    pub fn from_raw_nonzero(raw: RawPid) -> (pid: Pid)
        requires
            raw != 0,
        ensures
            pid@ == raw,
    {
        Pid { raw }
    }

    /// The raw form of an optional identifier: 0 for `None`.
    pub fn as_raw(pid: Option<Pid>) -> (raw: RawPid)
        ensures
            raw == Pid::spec_as_raw(pid),
            raw == 0 <==> pid is None,
    {
        match pid {
            Some(pid) => {
                proof {
                    use_type_invariant(&pid);
                }
                pid.raw
            },
            None => 0,
        }
    }

    /// The raw form of the identifier.
    pub fn as_raw_nonzero(self) -> (raw: RawPid)
        ensures
            raw == self@,
            raw != 0,
    {
        proof {
            use_type_invariant(&self);
        }
        self.raw
    }
}

/// The identifier of a user.
#[derive(Clone, Copy, Debug, PartialEq, Eq, Hash)]
pub struct Uid {
    raw: RawUid,
}

impl View for Uid {
    type V = RawUid;

    closed spec fn view(&self) -> RawUid {
        self.raw
    }
}

impl Uid {
    /// The identifier with the raw form `raw`.
    pub fn from_raw(raw: RawUid) -> (uid: Uid)
        ensures
            uid@ == raw,
    {
        Uid { raw }
    }

    /// The raw form of the identifier.
    pub fn as_raw(self) -> (raw: RawUid)
        ensures
            raw == self@,
    {
        self.raw
    }
}

/// The identifier of a group.
#[derive(Clone, Copy, Debug, PartialEq, Eq, Hash)]
pub struct Gid {
    raw: RawGid,
}

impl View for Gid {
    type V = RawGid;

    closed spec fn view(&self) -> RawGid {
        self.raw
    }
}

impl Gid {
    /// The identifier with the raw form `raw`.
    pub fn from_raw(raw: RawGid) -> (gid: Gid)
        ensures
            gid@ == raw,
    {
        Gid { raw }
    }

    /// The raw form of the identifier.
    pub fn as_raw(self) -> (raw: RawGid)
        ensures
            raw == self@,
    {
        self.raw
    }
}

/// The number of a processor.
#[derive(Clone, Copy, Debug, PartialEq, Eq, Hash)]
pub struct Cpuid {
    raw: u32,
}

impl View for Cpuid {
    type V = u32;

    closed spec fn view(&self) -> u32 {
        self.raw
    }
}

impl Cpuid {
    /// The processor with the number `raw`.
    pub fn from_raw(raw: u32) -> (cpu: Cpuid)
        ensures
            cpu@ == raw,
    {
        Cpuid { raw }
    }

    /// The processor's number.
    pub fn as_raw(self) -> (raw: u32)
        ensures
            raw == self@,
    {
        self.raw
    }
}

/// The two families of calls that ask for a user or group identifier. Which one
/// a program uses is fixed by its target architecture and never changes while
/// it runs. The family selects the name of the operation and nothing else:
/// both report identifiers of 32 bits, and their outcomes are decoded alike.
#[derive(Clone, Copy, Debug, PartialEq, Eq, Hash, Structural)]
pub enum IdFamily {
    /// The calls whose names end in `32`, for the architectures (x86, Arm,
    /// SPARC) on which the calls of the plain names report 16 bits only.
    Suffixed,
    /// The calls of the plain names, for every other architecture.
    Plain,
}

/// A resource whose use the kernel limits.
#[derive(Clone, Copy, Debug, PartialEq, Eq, Hash, Structural)]
pub enum Resource {
    /// Processor time, in seconds.
    Cpu,
    /// The size of a file.
    Fsize,
    /// The size of the data segment.
    Data,
    /// The size of the stack.
    Stack,
    /// The size of a core file.
    Core,
    /// The resident set size.
    Rss,
    /// The number of processes.
    Nproc,
    /// The number of open files.
    Nofile,
    /// The memory that may be locked.
    Memlock,
    /// The size of the address space.
    As,
    /// The number of file locks.
    Locks,
    /// The number of pending signals.
    Sigpending,
    /// The bytes in message queues.
    Msgqueue,
    /// The ceiling of the nice value.
    Nice,
    /// The ceiling of the real-time priority.
    Rtprio,
    /// Processor time under real-time scheduling, in microseconds.
    Rttime,
}

impl Resource {
    /// The number that stands for the resource, in the numbering that every
    /// architecture but MIPS and SPARC uses.
    pub open spec fn spec_as_raw(self) -> u32 {
        match self {
            Resource::Cpu => 0,
            Resource::Fsize => 1,
            Resource::Data => 2,
            Resource::Stack => 3,
            Resource::Core => 4,
            Resource::Rss => 5,
            Resource::Nproc => 6,
            Resource::Nofile => 7,
            Resource::Memlock => 8,
            Resource::As => 9,
            Resource::Locks => 10,
            Resource::Sigpending => 11,
            Resource::Msgqueue => 12,
            Resource::Nice => 13,
            Resource::Rtprio => 14,
            Resource::Rttime => 15,
        }
    }

    /// The number that stands for the resource.
    pub fn as_raw(self) -> (raw: u32)
        ensures
            raw == self.spec_as_raw(),
    {
        match self {
            Resource::Cpu => 0,
            Resource::Fsize => 1,
            Resource::Data => 2,
            Resource::Stack => 3,
            Resource::Core => 4,
            Resource::Rss => 5,
            Resource::Nproc => 6,
            Resource::Nofile => 7,
            Resource::Memlock => 8,
            Resource::As => 9,
            Resource::Locks => 10,
            Resource::Sigpending => 11,
            Resource::Msgqueue => 12,
            Resource::Nice => 13,
            Resource::Rtprio => 14,
            Resource::Rttime => 15,
        }
    }
}

/// The limits on a resource. `None` says that there is no limit.
#[derive(Clone, Copy, Debug, PartialEq, Eq)]
pub struct Rlimit {
    /// The limit in force.
    pub current: Option<u64>,
    /// The ceiling up to which the limit in force may be raised.
    pub maximum: Option<u64>,
}

/// What the kernel writes for a 64-bit limit query.
#[derive(Clone, Copy, Debug, PartialEq, Eq)]
pub struct RawRlimit64 {
    pub cur: u64,
    pub max: u64,
}

/// What the kernel writes for an older limit query, whose fields have the width
/// of a word.
#[derive(Clone, Copy, Debug, PartialEq, Eq)]
pub struct RawRlimit {
    pub cur: usize,
    pub max: usize,
}

/// What a wait reports besides states that have ended.
#[derive(Clone, Copy, Debug, PartialEq, Eq)]
pub struct WaitOptions {
    /// Come back at once if no child has changed state.
    pub nohang: bool,
    /// Report children that have stopped.
    pub untraced: bool,
    /// Report stopped children that have been continued.
    pub continued: bool,
}

impl WaitOptions {
    /// The flag word of the options.
    pub open spec fn spec_bits(self) -> u32 {
        ((if self.nohang { 1int } else { 0 }) + (if self.untraced { 2int } else { 0 }) + (
        if self.continued { 8int } else { 0 })) as u32
    }

    /// No option.
    pub fn empty() -> (options: WaitOptions)
        ensures
            options == (WaitOptions { nohang: false, untraced: false, continued: false }),
    {
        WaitOptions { nohang: false, untraced: false, continued: false }
    }

    /// The flag word of the options.
    pub fn bits(&self) -> (bits: u32)
        ensures
            bits == self.spec_bits(),
            bits <= 11,
    {
        let mut bits: u32 = 0;
        if self.nohang {
            bits = bits + 1;
        }
        if self.untraced {
            bits = bits + 2;
        }
        if self.continued {
            bits = bits + 8;
        }
        bits
    }
}

/// The state of a child as a wait reports it, undecoded.
#[derive(Clone, Copy, Debug, PartialEq, Eq)]
pub struct WaitStatus {
    raw: u32,
}

impl View for WaitStatus {
    type V = u32;

    closed spec fn view(&self) -> u32 {
        self.raw
    }
}

impl WaitStatus {
    /// The state with the raw form `raw`.
    pub fn new(raw: u32) -> (status: WaitStatus)
        ensures
            status@ == raw,
    {
        WaitStatus { raw }
    }

    /// The raw form of the state.
    pub fn as_raw(self) -> (raw: u32)
        ensures
            raw == self@,
    {
        self.raw
    }
}

/// A memory barrier command.
#[derive(Clone, Copy, Debug, PartialEq, Eq, Hash, Structural)]
pub enum MembarrierCommand {
    Global,
    GlobalExpedited,
    RegisterGlobalExpedited,
    PrivateExpedited,
    RegisterPrivateExpedited,
    PrivateExpeditedSyncCore,
    RegisterPrivateExpeditedSyncCore,
    PrivateExpeditedRseq,
    RegisterPrivateExpeditedRseq,
}

impl MembarrierCommand {
    /// The number that stands for the command. Each command is one bit, so
    /// that a set of commands is a word.
    pub open spec fn spec_as_raw(self) -> u32 {
        match self {
            MembarrierCommand::Global => 1,
            MembarrierCommand::GlobalExpedited => 2,
            MembarrierCommand::RegisterGlobalExpedited => 4,
            MembarrierCommand::PrivateExpedited => 8,
            MembarrierCommand::RegisterPrivateExpedited => 16,
            MembarrierCommand::PrivateExpeditedSyncCore => 32,
            MembarrierCommand::RegisterPrivateExpeditedSyncCore => 64,
            MembarrierCommand::PrivateExpeditedRseq => 128,
            MembarrierCommand::RegisterPrivateExpeditedRseq => 256,
        }
    }

    /// The number that stands for the command.
    pub fn as_raw(self) -> (raw: u32)
        ensures
            raw == self.spec_as_raw(),
            0 < raw <= 256,
    {
        match self {
            MembarrierCommand::Global => 1,
            MembarrierCommand::GlobalExpedited => 2,
            MembarrierCommand::RegisterGlobalExpedited => 4,
            MembarrierCommand::PrivateExpedited => 8,
            MembarrierCommand::RegisterPrivateExpedited => 16,
            MembarrierCommand::PrivateExpeditedSyncCore => 32,
            MembarrierCommand::RegisterPrivateExpeditedSyncCore => 64,
            MembarrierCommand::PrivateExpeditedRseq => 128,
            MembarrierCommand::RegisterPrivateExpeditedRseq => 256,
        }
    }
}

/// The set of barrier commands that the running kernel supports.
///
/// Only the kernel's own answer becomes a set, taken bit for bit, so that
/// commands which a later kernel adds are kept. No public function makes a set
/// from a word.
#[derive(Clone, Copy, Debug, PartialEq, Eq)]
pub struct MembarrierQuery {
    bits: u32,
}

impl View for MembarrierQuery {
    type V = u32;

    closed spec fn view(&self) -> u32 {
        self.bits
    }
}

impl MembarrierQuery {
    /// Takes the kernel's answer as a set without looking at it.
    pub(crate) fn from_bits_unchecked(bits: u32) -> (query: MembarrierQuery)
        ensures
            query@ == bits,
    {
        MembarrierQuery { bits }
    }

    /// The set without commands.
    pub fn empty() -> (query: MembarrierQuery)
        ensures
            query@ == 0,
    {
        MembarrierQuery { bits: 0 }
    }

    /// The set as a word, one bit for each command.
    pub fn bits(&self) -> (bits: u32)
        ensures
            bits == self@,
    {
        self.bits
    }

    /// Whether the set has no command.
    pub fn is_empty(&self) -> (empty: bool)
        ensures
            empty == (self@ == 0),
    {
        self.bits == 0
    }

    /// Whether `cmd` is in the set.
    pub fn contains_command(&self, cmd: MembarrierCommand) -> (found: bool)
        ensures
            found == (self@ & cmd.spec_as_raw() != 0),
    {
        self.bits & cmd.as_raw() != 0
    }
}

/// The number of bytes in a [`RawCpuSet`].
pub const CPU_SET_BYTES: usize = 128;

/// A set of processors as the kernel reads and writes it: one bit for each of
/// 1024 processors, the lowest numbers first.
#[derive(Clone, Copy, Debug, PartialEq, Eq)]
pub struct RawCpuSet {
    pub bytes: [u8; CPU_SET_BYTES],
}

} // verus!
