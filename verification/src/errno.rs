//! The error domain: the closed set of errors that the kernel reports, and the
//! mapping between its members and the codes that stand for them on the wire.
//!
//! The kernel reports a failure as a negative machine word whose magnitude is
//! the error's code. The codes are those of the generic Linux numbering, which
//! x86, Arm, RISC-V, PowerPC and s390x share.

use vstd::prelude::*;

verus! {

/// The largest magnitude that the kernel uses for the code of an error: the
/// failures that it reports lie, read as signed words, in `-MAX_ERRNO..0`.
pub const MAX_ERRNO: usize = 4095;

/// An error reported by the kernel.
///
/// Every code has exactly one member: the codes that are in use have a member
/// each, and all the others share [`Errno::Unrecognized`], so that a code which
/// a later kernel introduces is still decoded.
#[derive(Clone, Copy, Debug, PartialEq, Eq, Hash, Structural)]
pub enum Errno {
    /// `EPERM`: operation not permitted.
    Perm,
    /// `ENOENT`: no such file or directory.
    NoEnt,
    /// `ESRCH`: no such process.
    Srch,
    /// `EINTR`: interrupted system call.
    Intr,
    /// `EIO`: input/output error.
    Io,
    /// `ENXIO`: no such device or address.
    Nxio,
    /// `E2BIG`: argument list too long.
    TooBig,
    /// `ENOEXEC`: exec format error.
    NoExec,
    /// `EBADF`: bad file descriptor.
    BadF,
    /// `ECHILD`: no child processes.
    Child,
    /// `EAGAIN`: resource temporarily unavailable.
    Again,
    /// `ENOMEM`: cannot allocate memory.
    NoMem,
    /// `EACCES`: permission denied.
    Access,
    /// `EFAULT`: bad address.
    Fault,
    /// `ENOTBLK`: block device required.
    NotBlk,
    /// `EBUSY`: device or resource busy.
    Busy,
    /// `EEXIST`: file exists.
    Exist,
    /// `EXDEV`: invalid cross-device link.
    XDev,
    /// `ENODEV`: no such device.
    NoDev,
    /// `ENOTDIR`: not a directory.
    NotDir,
    /// `EISDIR`: is a directory.
    IsDir,
    /// `EINVAL`: invalid argument.
    Inval,
    /// `ENFILE`: too many open files in system.
    NFile,
    /// `EMFILE`: too many open files.
    MFile,
    /// `ENOTTY`: inappropriate ioctl for device.
    NoTty,
    /// `ETXTBSY`: text file busy.
    TxtBsy,
    /// `EFBIG`: file too large.
    FBig,
    /// `ENOSPC`: no space left on device.
    NoSpc,
    /// `ESPIPE`: illegal seek.
    SPipe,
    /// `EROFS`: read-only file system.
    RoFs,
    /// `EMLINK`: too many links.
    MLink,
    /// `EPIPE`: broken pipe.
    Pipe,
    /// `EDOM`: numerical argument out of domain.
    Dom,
    /// `ERANGE`: numerical result out of range.
    Range,
    /// `EDEADLK`: resource deadlock avoided.
    DeadLk,
    /// `ENAMETOOLONG`: file name too long.
    NameTooLong,
    /// `ENOLCK`: no locks available.
    NoLck,
    /// `ENOSYS`: function not implemented.
    NoSys,
    /// `ENOTEMPTY`: directory not empty.
    NotEmpty,
    /// `ELOOP`: too many levels of symbolic links.
    Loop,
    /// `ENOMSG`: no message of desired type.
    NoMsg,
    /// `EIDRM`: identifier removed.
    IdRm,
    /// `ECHRNG`: channel number out of range.
    ChRng,
    /// `EL2NSYNC`: level 2 not synchronized.
    L2NSync,
    /// `EL3HLT`: level 3 halted.
    L3Hlt,
    /// `EL3RST`: level 3 reset.
    L3Rst,
    /// `ELNRNG`: link number out of range.
    LNRng,
    /// `EUNATCH`: protocol driver not attached.
    Unatch,
    /// `ENOCSI`: no CSI structure available.
    NoCsi,
    /// `EL2HLT`: level 2 halted.
    L2Hlt,
    /// `EBADE`: invalid exchange.
    BadE,
    /// `EBADR`: invalid request descriptor.
    BadR,
    /// `EXFULL`: exchange full.
    XFull,
    /// `ENOANO`: no anode.
    NoAno,
    /// `EBADRQC`: invalid request code.
    BadRqc,
    /// `EBADSLT`: invalid slot.
    BadSlt,
    /// `EBFONT`: bad font file format.
    BFont,
    /// `ENOSTR`: device not a stream.
    NoStr,
    /// `ENODATA`: no data available.
    NoData,
    /// `ETIME`: timer expired.
    Time,
    /// `ENOSR`: out of streams resources.
    NoSr,
    /// `ENONET`: machine is not on the network.
    NoNet,
    /// `ENOPKG`: package not installed.
    NoPkg,
    /// `EREMOTE`: object is remote.
    Remote,
    /// `ENOLINK`: link has been severed.
    NoLink,
    /// `EADV`: advertise error.
    Adv,
    /// `ESRMNT`: srmount error.
    SrMnt,
    /// `ECOMM`: communication error on send.
    Comm,
    /// `EPROTO`: protocol error.
    Proto,
    /// `EMULTIHOP`: multihop attempted.
    MultiHop,
    /// `EDOTDOT`: RFS specific error.
    DotDot,
    /// `EBADMSG`: bad message.
    BadMsg,
    /// `EOVERFLOW`: value too large for defined data type.
    Overflow,
    /// `ENOTUNIQ`: name not unique on network.
    NotUniq,
    /// `EBADFD`: file descriptor in bad state.
    BadFd,
    /// `EREMCHG`: remote address changed.
    RemChg,
    /// `ELIBACC`: cannot access a needed shared library.
    LibAcc,
    /// `ELIBBAD`: accessing a corrupted shared library.
    LibBad,
    /// `ELIBSCN`: .lib section in a.out corrupted.
    LibScn,
    /// `ELIBMAX`: attempting to link in too many shared libraries.
    LibMax,
    /// `ELIBEXEC`: cannot exec a shared library directly.
    LibExec,
    /// `EILSEQ`: invalid or incomplete multibyte or wide character.
    IlSeq,
    /// `ERESTART`: interrupted system call should be restarted.
    Restart,
    /// `ESTRPIPE`: streams pipe error.
    StrPipe,
    /// `EUSERS`: too many users.
    Users,
    /// `ENOTSOCK`: socket operation on non-socket.
    NotSock,
    /// `EDESTADDRREQ`: destination address required.
    DestAddrReq,
    /// `EMSGSIZE`: message too long.
    MsgSize,
    /// `EPROTOTYPE`: protocol wrong type for socket.
    Prototype,
    /// `ENOPROTOOPT`: protocol not available.
    NoProtoOpt,
    /// `EPROTONOSUPPORT`: protocol not supported.
    ProtoNoSupport,
    /// `ESOCKTNOSUPPORT`: socket type not supported.
    SocktNoSupport,
    /// `EOPNOTSUPP`: operation not supported.
    OpNotSupp,
    /// `EPFNOSUPPORT`: protocol family not supported.
    PfNoSupport,
    /// `EAFNOSUPPORT`: address family not supported by protocol.
    AfNoSupport,
    /// `EADDRINUSE`: address already in use.
    AddrInUse,
    /// `EADDRNOTAVAIL`: cannot assign requested address.
    AddrNotAvail,
    /// `ENETDOWN`: network is down.
    NetDown,
    /// `ENETUNREACH`: network is unreachable.
    NetUnreach,
    /// `ENETRESET`: network dropped connection on reset.
    NetReset,
    /// `ECONNABORTED`: software caused connection abort.
    ConnAborted,
    /// `ECONNRESET`: connection reset by peer.
    ConnReset,
    /// `ENOBUFS`: no buffer space available.
    NoBufs,
    /// `EISCONN`: transport endpoint is already connected.
    IsConn,
    /// `ENOTCONN`: transport endpoint is not connected.
    NotConn,
    /// `ESHUTDOWN`: cannot send after transport endpoint shutdown.
    Shutdown,
    /// `ETOOMANYREFS`: too many references: cannot splice.
    TooManyRefs,
    /// `ETIMEDOUT`: connection timed out.
    TimedOut,
    /// `ECONNREFUSED`: connection refused.
    ConnRefused,
    /// `EHOSTDOWN`: host is down.
    HostDown,
    /// `EHOSTUNREACH`: no route to host.
    HostUnreach,
    /// `EALREADY`: operation already in progress.
    Already,
    /// `EINPROGRESS`: operation now in progress.
    InProgress,
    /// `ESTALE`: stale file handle.
    Stale,
    /// `EUCLEAN`: structure needs cleaning.
    UClean,
    /// `ENOTNAM`: not a XENIX named type file.
    NotNam,
    /// `ENAVAIL`: no XENIX semaphores available.
    NAvail,
    /// `EISNAM`: is a named type file.
    IsNam,
    /// `EREMOTEIO`: remote I/O error.
    RemoteIo,
    /// `EDQUOT`: disk quota exceeded.
    DQuot,
    /// `ENOMEDIUM`: no medium found.
    NoMedium,
    /// `EMEDIUMTYPE`: wrong medium type.
    MediumType,
    /// `ECANCELED`: operation canceled.
    Canceled,
    /// `ENOKEY`: required key not available.
    NoKey,
    /// `EKEYEXPIRED`: key has expired.
    KeyExpired,
    /// `EKEYREVOKED`: key has been revoked.
    KeyRevoked,
    /// `EKEYREJECTED`: key was rejected by service.
    KeyRejected,
    /// `EOWNERDEAD`: owner died.
    OwnerDead,
    /// `ENOTRECOVERABLE`: state not recoverable.
    NotRecoverable,
    /// `ERFKILL`: operation not possible due to RF-kill.
    RfKill,
    /// `EHWPOISON`: memory page has hardware error.
    HwPoison,
    /// A code that stands for none of the members above.
    Unrecognized,
}

/// Whether `raw`, read as a signed word, lies in the range `-MAX_ERRNO..0` in
/// which the kernel reports its failures. A negative word below the range is
/// a failure too, but one without a code.
pub open spec fn spec_is_error(raw: usize) -> bool {
    raw > usize::MAX - MAX_ERRNO
}

/// Whether `raw`, read as a signed word, lies in the range `-MAX_ERRNO..0` in
/// which the kernel reports its failures. A negative word below the range is
/// a failure too, but one without a code.
#[verifier::when_used_as_spec(spec_is_error)]
pub fn is_error(raw: usize) -> (error: bool)
    ensures
        error == spec_is_error(raw),
{
    raw > usize::MAX - MAX_ERRNO
}

/// The magnitude of `raw` read as a negative signed word.
pub open spec fn magnitude(raw: usize) -> int {
    usize::MAX + 1 - raw
}

impl Errno {
    /// The code of a member, `None` for [`Errno::Unrecognized`].
    pub open spec fn spec_code(self) -> Option<u16> {
        match self {
            Errno::Perm => Some(1u16),
            Errno::NoEnt => Some(2u16),
            Errno::Srch => Some(3u16),
            Errno::Intr => Some(4u16),
            Errno::Io => Some(5u16),
            Errno::Nxio => Some(6u16),
            Errno::TooBig => Some(7u16),
            Errno::NoExec => Some(8u16),
            Errno::BadF => Some(9u16),
            Errno::Child => Some(10u16),
            Errno::Again => Some(11u16),
            Errno::NoMem => Some(12u16),
            Errno::Access => Some(13u16),
            Errno::Fault => Some(14u16),
            Errno::NotBlk => Some(15u16),
            Errno::Busy => Some(16u16),
            Errno::Exist => Some(17u16),
            Errno::XDev => Some(18u16),
            Errno::NoDev => Some(19u16),
            Errno::NotDir => Some(20u16),
            Errno::IsDir => Some(21u16),
            Errno::Inval => Some(22u16),
            Errno::NFile => Some(23u16),
            Errno::MFile => Some(24u16),
            Errno::NoTty => Some(25u16),
            Errno::TxtBsy => Some(26u16),
            Errno::FBig => Some(27u16),
            Errno::NoSpc => Some(28u16),
            Errno::SPipe => Some(29u16),
            Errno::RoFs => Some(30u16),
            Errno::MLink => Some(31u16),
            Errno::Pipe => Some(32u16),
            Errno::Dom => Some(33u16),
            Errno::Range => Some(34u16),
            Errno::DeadLk => Some(35u16),
            Errno::NameTooLong => Some(36u16),
            Errno::NoLck => Some(37u16),
            Errno::NoSys => Some(38u16),
            Errno::NotEmpty => Some(39u16),
            Errno::Loop => Some(40u16),
            Errno::NoMsg => Some(42u16),
            Errno::IdRm => Some(43u16),
            Errno::ChRng => Some(44u16),
            Errno::L2NSync => Some(45u16),
            Errno::L3Hlt => Some(46u16),
            Errno::L3Rst => Some(47u16),
            Errno::LNRng => Some(48u16),
            Errno::Unatch => Some(49u16),
            Errno::NoCsi => Some(50u16),
            Errno::L2Hlt => Some(51u16),
            Errno::BadE => Some(52u16),
            Errno::BadR => Some(53u16),
            Errno::XFull => Some(54u16),
            Errno::NoAno => Some(55u16),
            Errno::BadRqc => Some(56u16),
            Errno::BadSlt => Some(57u16),
            Errno::BFont => Some(59u16),
            Errno::NoStr => Some(60u16),
            Errno::NoData => Some(61u16),
            Errno::Time => Some(62u16),
            Errno::NoSr => Some(63u16),
            Errno::NoNet => Some(64u16),
            Errno::NoPkg => Some(65u16),
            Errno::Remote => Some(66u16),
            Errno::NoLink => Some(67u16),
            Errno::Adv => Some(68u16),
            Errno::SrMnt => Some(69u16),
            Errno::Comm => Some(70u16),
            Errno::Proto => Some(71u16),
            Errno::MultiHop => Some(72u16),
            Errno::DotDot => Some(73u16),
            Errno::BadMsg => Some(74u16),
            Errno::Overflow => Some(75u16),
            Errno::NotUniq => Some(76u16),
            Errno::BadFd => Some(77u16),
            Errno::RemChg => Some(78u16),
            Errno::LibAcc => Some(79u16),
            Errno::LibBad => Some(80u16),
            Errno::LibScn => Some(81u16),
            Errno::LibMax => Some(82u16),
            Errno::LibExec => Some(83u16),
            Errno::IlSeq => Some(84u16),
            Errno::Restart => Some(85u16),
            Errno::StrPipe => Some(86u16),
            Errno::Users => Some(87u16),
            Errno::NotSock => Some(88u16),
            Errno::DestAddrReq => Some(89u16),
            Errno::MsgSize => Some(90u16),
            Errno::Prototype => Some(91u16),
            Errno::NoProtoOpt => Some(92u16),
            Errno::ProtoNoSupport => Some(93u16),
            Errno::SocktNoSupport => Some(94u16),
            Errno::OpNotSupp => Some(95u16),
            Errno::PfNoSupport => Some(96u16),
            Errno::AfNoSupport => Some(97u16),
            Errno::AddrInUse => Some(98u16),
            Errno::AddrNotAvail => Some(99u16),
            Errno::NetDown => Some(100u16),
            Errno::NetUnreach => Some(101u16),
            Errno::NetReset => Some(102u16),
            Errno::ConnAborted => Some(103u16),
            Errno::ConnReset => Some(104u16),
            Errno::NoBufs => Some(105u16),
            Errno::IsConn => Some(106u16),
            Errno::NotConn => Some(107u16),
            Errno::Shutdown => Some(108u16),
            Errno::TooManyRefs => Some(109u16),
            Errno::TimedOut => Some(110u16),
            Errno::ConnRefused => Some(111u16),
            Errno::HostDown => Some(112u16),
            Errno::HostUnreach => Some(113u16),
            Errno::Already => Some(114u16),
            Errno::InProgress => Some(115u16),
            Errno::Stale => Some(116u16),
            Errno::UClean => Some(117u16),
            Errno::NotNam => Some(118u16),
            Errno::NAvail => Some(119u16),
            Errno::IsNam => Some(120u16),
            Errno::RemoteIo => Some(121u16),
            Errno::DQuot => Some(122u16),
            Errno::NoMedium => Some(123u16),
            Errno::MediumType => Some(124u16),
            Errno::Canceled => Some(125u16),
            Errno::NoKey => Some(126u16),
            Errno::KeyExpired => Some(127u16),
            Errno::KeyRevoked => Some(128u16),
            Errno::KeyRejected => Some(129u16),
            Errno::OwnerDead => Some(130u16),
            Errno::NotRecoverable => Some(131u16),
            Errno::RfKill => Some(132u16),
            Errno::HwPoison => Some(133u16),
            Errno::Unrecognized => None,
        }
    }

    /// The member that a code stands for.
    pub open spec fn spec_from_code(code: u16) -> Errno {
        match code {
            1u16 => Errno::Perm,
            2u16 => Errno::NoEnt,
            3u16 => Errno::Srch,
            4u16 => Errno::Intr,
            5u16 => Errno::Io,
            6u16 => Errno::Nxio,
            7u16 => Errno::TooBig,
            8u16 => Errno::NoExec,
            9u16 => Errno::BadF,
            10u16 => Errno::Child,
            11u16 => Errno::Again,
            12u16 => Errno::NoMem,
            13u16 => Errno::Access,
            14u16 => Errno::Fault,
            15u16 => Errno::NotBlk,
            16u16 => Errno::Busy,
            17u16 => Errno::Exist,
            18u16 => Errno::XDev,
            19u16 => Errno::NoDev,
            20u16 => Errno::NotDir,
            21u16 => Errno::IsDir,
            22u16 => Errno::Inval,
            23u16 => Errno::NFile,
            24u16 => Errno::MFile,
            25u16 => Errno::NoTty,
            26u16 => Errno::TxtBsy,
            27u16 => Errno::FBig,
            28u16 => Errno::NoSpc,
            29u16 => Errno::SPipe,
            30u16 => Errno::RoFs,
            31u16 => Errno::MLink,
            32u16 => Errno::Pipe,
            33u16 => Errno::Dom,
            34u16 => Errno::Range,
            35u16 => Errno::DeadLk,
            36u16 => Errno::NameTooLong,
            37u16 => Errno::NoLck,
            38u16 => Errno::NoSys,
            39u16 => Errno::NotEmpty,
            40u16 => Errno::Loop,
            42u16 => Errno::NoMsg,
            43u16 => Errno::IdRm,
            44u16 => Errno::ChRng,
            45u16 => Errno::L2NSync,
            46u16 => Errno::L3Hlt,
            47u16 => Errno::L3Rst,
            48u16 => Errno::LNRng,
            49u16 => Errno::Unatch,
            50u16 => Errno::NoCsi,
            51u16 => Errno::L2Hlt,
            52u16 => Errno::BadE,
            53u16 => Errno::BadR,
            54u16 => Errno::XFull,
            55u16 => Errno::NoAno,
            56u16 => Errno::BadRqc,
            57u16 => Errno::BadSlt,
            59u16 => Errno::BFont,
            60u16 => Errno::NoStr,
            61u16 => Errno::NoData,
            62u16 => Errno::Time,
            63u16 => Errno::NoSr,
            64u16 => Errno::NoNet,
            65u16 => Errno::NoPkg,
            66u16 => Errno::Remote,
            67u16 => Errno::NoLink,
            68u16 => Errno::Adv,
            69u16 => Errno::SrMnt,
            70u16 => Errno::Comm,
            71u16 => Errno::Proto,
            72u16 => Errno::MultiHop,
            73u16 => Errno::DotDot,
            74u16 => Errno::BadMsg,
            75u16 => Errno::Overflow,
            76u16 => Errno::NotUniq,
            77u16 => Errno::BadFd,
            78u16 => Errno::RemChg,
            79u16 => Errno::LibAcc,
            80u16 => Errno::LibBad,
            81u16 => Errno::LibScn,
            82u16 => Errno::LibMax,
            83u16 => Errno::LibExec,
            84u16 => Errno::IlSeq,
            85u16 => Errno::Restart,
            86u16 => Errno::StrPipe,
            87u16 => Errno::Users,
            88u16 => Errno::NotSock,
            89u16 => Errno::DestAddrReq,
            90u16 => Errno::MsgSize,
            91u16 => Errno::Prototype,
            92u16 => Errno::NoProtoOpt,
            93u16 => Errno::ProtoNoSupport,
            94u16 => Errno::SocktNoSupport,
            95u16 => Errno::OpNotSupp,
            96u16 => Errno::PfNoSupport,
            97u16 => Errno::AfNoSupport,
            98u16 => Errno::AddrInUse,
            99u16 => Errno::AddrNotAvail,
            100u16 => Errno::NetDown,
            101u16 => Errno::NetUnreach,
            102u16 => Errno::NetReset,
            103u16 => Errno::ConnAborted,
            104u16 => Errno::ConnReset,
            105u16 => Errno::NoBufs,
            106u16 => Errno::IsConn,
            107u16 => Errno::NotConn,
            108u16 => Errno::Shutdown,
            109u16 => Errno::TooManyRefs,
            110u16 => Errno::TimedOut,
            111u16 => Errno::ConnRefused,
            112u16 => Errno::HostDown,
            113u16 => Errno::HostUnreach,
            114u16 => Errno::Already,
            115u16 => Errno::InProgress,
            116u16 => Errno::Stale,
            117u16 => Errno::UClean,
            118u16 => Errno::NotNam,
            119u16 => Errno::NAvail,
            120u16 => Errno::IsNam,
            121u16 => Errno::RemoteIo,
            122u16 => Errno::DQuot,
            123u16 => Errno::NoMedium,
            124u16 => Errno::MediumType,
            125u16 => Errno::Canceled,
            126u16 => Errno::NoKey,
            127u16 => Errno::KeyExpired,
            128u16 => Errno::KeyRevoked,
            129u16 => Errno::KeyRejected,
            130u16 => Errno::OwnerDead,
            131u16 => Errno::NotRecoverable,
            132u16 => Errno::RfKill,
            133u16 => Errno::HwPoison,
            _ => Errno::Unrecognized,
        }
    }

    /// The member that a raw outcome stands for: the one whose code is the
    /// outcome's magnitude if the outcome lies in the error range, and
    /// [`Errno::Unrecognized`] for every other word.
    pub open spec fn spec_from_raw(raw: usize) -> Errno {
        if is_error(raw) {
            Errno::spec_from_code(magnitude(raw) as u16)
        } else {
            Errno::Unrecognized
        }
    }

    /// The code of this member, `None` for [`Errno::Unrecognized`].
    pub fn code(self) -> (code: Option<u16>)
        ensures
            code == self.spec_code(),
    {
        match self {
            Errno::Perm => Some(1),
            Errno::NoEnt => Some(2),
            Errno::Srch => Some(3),
            Errno::Intr => Some(4),
            Errno::Io => Some(5),
            Errno::Nxio => Some(6),
            Errno::TooBig => Some(7),
            Errno::NoExec => Some(8),
            Errno::BadF => Some(9),
            Errno::Child => Some(10),
            Errno::Again => Some(11),
            Errno::NoMem => Some(12),
            Errno::Access => Some(13),
            Errno::Fault => Some(14),
            Errno::NotBlk => Some(15),
            Errno::Busy => Some(16),
            Errno::Exist => Some(17),
            Errno::XDev => Some(18),
            Errno::NoDev => Some(19),
            Errno::NotDir => Some(20),
            Errno::IsDir => Some(21),
            Errno::Inval => Some(22),
            Errno::NFile => Some(23),
            Errno::MFile => Some(24),
            Errno::NoTty => Some(25),
            Errno::TxtBsy => Some(26),
            Errno::FBig => Some(27),
            Errno::NoSpc => Some(28),
            Errno::SPipe => Some(29),
            Errno::RoFs => Some(30),
            Errno::MLink => Some(31),
            Errno::Pipe => Some(32),
            Errno::Dom => Some(33),
            Errno::Range => Some(34),
            Errno::DeadLk => Some(35),
            Errno::NameTooLong => Some(36),
            Errno::NoLck => Some(37),
            Errno::NoSys => Some(38),
            Errno::NotEmpty => Some(39),
            Errno::Loop => Some(40),
            Errno::NoMsg => Some(42),
            Errno::IdRm => Some(43),
            Errno::ChRng => Some(44),
            Errno::L2NSync => Some(45),
            Errno::L3Hlt => Some(46),
            Errno::L3Rst => Some(47),
            Errno::LNRng => Some(48),
            Errno::Unatch => Some(49),
            Errno::NoCsi => Some(50),
            Errno::L2Hlt => Some(51),
            Errno::BadE => Some(52),
            Errno::BadR => Some(53),
            Errno::XFull => Some(54),
            Errno::NoAno => Some(55),
            Errno::BadRqc => Some(56),
            Errno::BadSlt => Some(57),
            Errno::BFont => Some(59),
            Errno::NoStr => Some(60),
            Errno::NoData => Some(61),
            Errno::Time => Some(62),
            Errno::NoSr => Some(63),
            Errno::NoNet => Some(64),
            Errno::NoPkg => Some(65),
            Errno::Remote => Some(66),
            Errno::NoLink => Some(67),
            Errno::Adv => Some(68),
            Errno::SrMnt => Some(69),
            Errno::Comm => Some(70),
            Errno::Proto => Some(71),
            Errno::MultiHop => Some(72),
            Errno::DotDot => Some(73),
            Errno::BadMsg => Some(74),
            Errno::Overflow => Some(75),
            Errno::NotUniq => Some(76),
            Errno::BadFd => Some(77),
            Errno::RemChg => Some(78),
            Errno::LibAcc => Some(79),
            Errno::LibBad => Some(80),
            Errno::LibScn => Some(81),
            Errno::LibMax => Some(82),
            Errno::LibExec => Some(83),
            Errno::IlSeq => Some(84),
            Errno::Restart => Some(85),
            Errno::StrPipe => Some(86),
            Errno::Users => Some(87),
            Errno::NotSock => Some(88),
            Errno::DestAddrReq => Some(89),
            Errno::MsgSize => Some(90),
            Errno::Prototype => Some(91),
            Errno::NoProtoOpt => Some(92),
            Errno::ProtoNoSupport => Some(93),
            Errno::SocktNoSupport => Some(94),
            Errno::OpNotSupp => Some(95),
            Errno::PfNoSupport => Some(96),
            Errno::AfNoSupport => Some(97),
            Errno::AddrInUse => Some(98),
            Errno::AddrNotAvail => Some(99),
            Errno::NetDown => Some(100),
            Errno::NetUnreach => Some(101),
            Errno::NetReset => Some(102),
            Errno::ConnAborted => Some(103),
            Errno::ConnReset => Some(104),
            Errno::NoBufs => Some(105),
            Errno::IsConn => Some(106),
            Errno::NotConn => Some(107),
            Errno::Shutdown => Some(108),
            Errno::TooManyRefs => Some(109),
            Errno::TimedOut => Some(110),
            Errno::ConnRefused => Some(111),
            Errno::HostDown => Some(112),
            Errno::HostUnreach => Some(113),
            Errno::Already => Some(114),
            Errno::InProgress => Some(115),
            Errno::Stale => Some(116),
            Errno::UClean => Some(117),
            Errno::NotNam => Some(118),
            Errno::NAvail => Some(119),
            Errno::IsNam => Some(120),
            Errno::RemoteIo => Some(121),
            Errno::DQuot => Some(122),
            Errno::NoMedium => Some(123),
            Errno::MediumType => Some(124),
            Errno::Canceled => Some(125),
            Errno::NoKey => Some(126),
            Errno::KeyExpired => Some(127),
            Errno::KeyRevoked => Some(128),
            Errno::KeyRejected => Some(129),
            Errno::OwnerDead => Some(130),
            Errno::NotRecoverable => Some(131),
            Errno::RfKill => Some(132),
            Errno::HwPoison => Some(133),
            Errno::Unrecognized => None,
        }
    }

    /// The member that `code` stands for.
    pub fn from_code(code: u16) -> (errno: Errno)
        ensures
            errno == Errno::spec_from_code(code),
    {
        match code {
            1 => Errno::Perm,
            2 => Errno::NoEnt,
            3 => Errno::Srch,
            4 => Errno::Intr,
            5 => Errno::Io,
            6 => Errno::Nxio,
            7 => Errno::TooBig,
            8 => Errno::NoExec,
            9 => Errno::BadF,
            10 => Errno::Child,
            11 => Errno::Again,
            12 => Errno::NoMem,
            13 => Errno::Access,
            14 => Errno::Fault,
            15 => Errno::NotBlk,
            16 => Errno::Busy,
            17 => Errno::Exist,
            18 => Errno::XDev,
            19 => Errno::NoDev,
            20 => Errno::NotDir,
            21 => Errno::IsDir,
            22 => Errno::Inval,
            23 => Errno::NFile,
            24 => Errno::MFile,
            25 => Errno::NoTty,
            26 => Errno::TxtBsy,
            27 => Errno::FBig,
            28 => Errno::NoSpc,
            29 => Errno::SPipe,
            30 => Errno::RoFs,
            31 => Errno::MLink,
            32 => Errno::Pipe,
            33 => Errno::Dom,
            34 => Errno::Range,
            35 => Errno::DeadLk,
            36 => Errno::NameTooLong,
            37 => Errno::NoLck,
            38 => Errno::NoSys,
            39 => Errno::NotEmpty,
            40 => Errno::Loop,
            42 => Errno::NoMsg,
            43 => Errno::IdRm,
            44 => Errno::ChRng,
            45 => Errno::L2NSync,
            46 => Errno::L3Hlt,
            47 => Errno::L3Rst,
            48 => Errno::LNRng,
            49 => Errno::Unatch,
            50 => Errno::NoCsi,
            51 => Errno::L2Hlt,
            52 => Errno::BadE,
            53 => Errno::BadR,
            54 => Errno::XFull,
            55 => Errno::NoAno,
            56 => Errno::BadRqc,
            57 => Errno::BadSlt,
            59 => Errno::BFont,
            60 => Errno::NoStr,
            61 => Errno::NoData,
            62 => Errno::Time,
            63 => Errno::NoSr,
            64 => Errno::NoNet,
            65 => Errno::NoPkg,
            66 => Errno::Remote,
            67 => Errno::NoLink,
            68 => Errno::Adv,
            69 => Errno::SrMnt,
            70 => Errno::Comm,
            71 => Errno::Proto,
            72 => Errno::MultiHop,
            73 => Errno::DotDot,
            74 => Errno::BadMsg,
            75 => Errno::Overflow,
            76 => Errno::NotUniq,
            77 => Errno::BadFd,
            78 => Errno::RemChg,
            79 => Errno::LibAcc,
            80 => Errno::LibBad,
            81 => Errno::LibScn,
            82 => Errno::LibMax,
            83 => Errno::LibExec,
            84 => Errno::IlSeq,
            85 => Errno::Restart,
            86 => Errno::StrPipe,
            87 => Errno::Users,
            88 => Errno::NotSock,
            89 => Errno::DestAddrReq,
            90 => Errno::MsgSize,
            91 => Errno::Prototype,
            92 => Errno::NoProtoOpt,
            93 => Errno::ProtoNoSupport,
            94 => Errno::SocktNoSupport,
            95 => Errno::OpNotSupp,
            96 => Errno::PfNoSupport,
            97 => Errno::AfNoSupport,
            98 => Errno::AddrInUse,
            99 => Errno::AddrNotAvail,
            100 => Errno::NetDown,
            101 => Errno::NetUnreach,
            102 => Errno::NetReset,
            103 => Errno::ConnAborted,
            104 => Errno::ConnReset,
            105 => Errno::NoBufs,
            106 => Errno::IsConn,
            107 => Errno::NotConn,
            108 => Errno::Shutdown,
            109 => Errno::TooManyRefs,
            110 => Errno::TimedOut,
            111 => Errno::ConnRefused,
            112 => Errno::HostDown,
            113 => Errno::HostUnreach,
            114 => Errno::Already,
            115 => Errno::InProgress,
            116 => Errno::Stale,
            117 => Errno::UClean,
            118 => Errno::NotNam,
            119 => Errno::NAvail,
            120 => Errno::IsNam,
            121 => Errno::RemoteIo,
            122 => Errno::DQuot,
            123 => Errno::NoMedium,
            124 => Errno::MediumType,
            125 => Errno::Canceled,
            126 => Errno::NoKey,
            127 => Errno::KeyExpired,
            128 => Errno::KeyRevoked,
            129 => Errno::KeyRejected,
            130 => Errno::OwnerDead,
            131 => Errno::NotRecoverable,
            132 => Errno::RfKill,
            133 => Errno::HwPoison,
            _ => Errno::Unrecognized,
        }
    }

    /// Decodes the error in a raw outcome. The function is total: a word that
    /// is no failure the kernel knows decodes to [`Errno::Unrecognized`].
    pub fn from_raw(raw: usize) -> (errno: Errno)
        ensures
            errno == Errno::spec_from_raw(raw),
    {
        if is_error(raw) {
            let magnitude: usize = usize::MAX - raw + 1;
            Errno::from_code(magnitude as u16)
        } else {
            Errno::Unrecognized
        }
    }
}

/// Whether `code` is the code of a member.
pub open spec fn is_known_code(code: int) -> bool {
    1 <= code <= 133 && code != 41 && code != 58
}

/// A member other than [`Errno::Unrecognized`] has a code, and it is the
/// member that this code stands for.
pub proof fn lemma_code_names_member(errno: Errno)
    requires
        errno != Errno::Unrecognized,
    ensures
        errno.spec_code() matches Some(code) && is_known_code(code as int)
            && Errno::spec_from_code(code) == errno,
{
}

/// A code that is in use stands for the member that has it, and every other
/// code stands for [`Errno::Unrecognized`].
pub proof fn lemma_member_has_code(code: u16)
    ensures
        is_known_code(code as int) ==> Errno::spec_from_code(code).spec_code() == Some(code),
        !is_known_code(code as int) ==> Errno::spec_from_code(code) == Errno::Unrecognized,
{
}

/// A failure whose magnitude is the code of a member decodes to that member
/// and to no other.
pub proof fn lemma_known_failure_decodes_exactly(raw: usize, errno: Errno)
    requires
        errno.spec_code() matches Some(code) && magnitude(raw) == code,
    ensures
        Errno::spec_from_raw(raw) == errno,
{
    lemma_code_names_member(errno);
}

/// A word outside the error range, and a failure whose magnitude no member
/// has, decode to [`Errno::Unrecognized`].
pub proof fn lemma_other_outcomes_are_unrecognized(raw: usize)
    requires
        !is_error(raw) || !is_known_code(magnitude(raw)),
    ensures
        Errno::spec_from_raw(raw) == Errno::Unrecognized,
{
    if is_error(raw) {
        lemma_member_has_code(magnitude(raw) as u16);
    }
}

} // verus!
