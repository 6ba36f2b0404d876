use process_syscalls::errno::{is_error, Errno, MAX_ERRNO};

/// The raw outcome with which the kernel reports the error of `code`.
fn failure(code: usize) -> usize {
    0usize.wrapping_sub(code)
}

fn members() -> Vec<(Errno, u32)> {
    vec![
        (Errno::Perm, linux_raw_sys::errno::EPERM),
        (Errno::NoEnt, linux_raw_sys::errno::ENOENT),
        (Errno::Srch, linux_raw_sys::errno::ESRCH),
        (Errno::Intr, linux_raw_sys::errno::EINTR),
        (Errno::Io, linux_raw_sys::errno::EIO),
        (Errno::Nxio, linux_raw_sys::errno::ENXIO),
        (Errno::TooBig, linux_raw_sys::errno::E2BIG),
        (Errno::NoExec, linux_raw_sys::errno::ENOEXEC),
        (Errno::BadF, linux_raw_sys::errno::EBADF),
        (Errno::Child, linux_raw_sys::errno::ECHILD),
        (Errno::Again, linux_raw_sys::errno::EAGAIN),
        (Errno::NoMem, linux_raw_sys::errno::ENOMEM),
        (Errno::Access, linux_raw_sys::errno::EACCES),
        (Errno::Fault, linux_raw_sys::errno::EFAULT),
        (Errno::NotBlk, linux_raw_sys::errno::ENOTBLK),
        (Errno::Busy, linux_raw_sys::errno::EBUSY),
        (Errno::Exist, linux_raw_sys::errno::EEXIST),
        (Errno::XDev, linux_raw_sys::errno::EXDEV),
        (Errno::NoDev, linux_raw_sys::errno::ENODEV),
        (Errno::NotDir, linux_raw_sys::errno::ENOTDIR),
        (Errno::IsDir, linux_raw_sys::errno::EISDIR),
        (Errno::Inval, linux_raw_sys::errno::EINVAL),
        (Errno::NFile, linux_raw_sys::errno::ENFILE),
        (Errno::MFile, linux_raw_sys::errno::EMFILE),
        (Errno::NoTty, linux_raw_sys::errno::ENOTTY),
        (Errno::TxtBsy, linux_raw_sys::errno::ETXTBSY),
        (Errno::FBig, linux_raw_sys::errno::EFBIG),
        (Errno::NoSpc, linux_raw_sys::errno::ENOSPC),
        (Errno::SPipe, linux_raw_sys::errno::ESPIPE),
        (Errno::RoFs, linux_raw_sys::errno::EROFS),
        (Errno::MLink, linux_raw_sys::errno::EMLINK),
        (Errno::Pipe, linux_raw_sys::errno::EPIPE),
        (Errno::Dom, linux_raw_sys::errno::EDOM),
        (Errno::Range, linux_raw_sys::errno::ERANGE),
        (Errno::DeadLk, linux_raw_sys::errno::EDEADLK),
        (Errno::NameTooLong, linux_raw_sys::errno::ENAMETOOLONG),
        (Errno::NoLck, linux_raw_sys::errno::ENOLCK),
        (Errno::NoSys, linux_raw_sys::errno::ENOSYS),
        (Errno::NotEmpty, linux_raw_sys::errno::ENOTEMPTY),
        (Errno::Loop, linux_raw_sys::errno::ELOOP),
        (Errno::NoMsg, linux_raw_sys::errno::ENOMSG),
        (Errno::IdRm, linux_raw_sys::errno::EIDRM),
        (Errno::ChRng, linux_raw_sys::errno::ECHRNG),
        (Errno::L2NSync, linux_raw_sys::errno::EL2NSYNC),
        (Errno::L3Hlt, linux_raw_sys::errno::EL3HLT),
        (Errno::L3Rst, linux_raw_sys::errno::EL3RST),
        (Errno::LNRng, linux_raw_sys::errno::ELNRNG),
        (Errno::Unatch, linux_raw_sys::errno::EUNATCH),
        (Errno::NoCsi, linux_raw_sys::errno::ENOCSI),
        (Errno::L2Hlt, linux_raw_sys::errno::EL2HLT),
        (Errno::BadE, linux_raw_sys::errno::EBADE),
        (Errno::BadR, linux_raw_sys::errno::EBADR),
        (Errno::XFull, linux_raw_sys::errno::EXFULL),
        (Errno::NoAno, linux_raw_sys::errno::ENOANO),
        (Errno::BadRqc, linux_raw_sys::errno::EBADRQC),
        (Errno::BadSlt, linux_raw_sys::errno::EBADSLT),
        (Errno::BFont, linux_raw_sys::errno::EBFONT),
        (Errno::NoStr, linux_raw_sys::errno::ENOSTR),
        (Errno::NoData, linux_raw_sys::errno::ENODATA),
        (Errno::Time, linux_raw_sys::errno::ETIME),
        (Errno::NoSr, linux_raw_sys::errno::ENOSR),
        (Errno::NoNet, linux_raw_sys::errno::ENONET),
        (Errno::NoPkg, linux_raw_sys::errno::ENOPKG),
        (Errno::Remote, linux_raw_sys::errno::EREMOTE),
        (Errno::NoLink, linux_raw_sys::errno::ENOLINK),
        (Errno::Adv, linux_raw_sys::errno::EADV),
        (Errno::SrMnt, linux_raw_sys::errno::ESRMNT),
        (Errno::Comm, linux_raw_sys::errno::ECOMM),
        (Errno::Proto, linux_raw_sys::errno::EPROTO),
        (Errno::MultiHop, linux_raw_sys::errno::EMULTIHOP),
        (Errno::DotDot, linux_raw_sys::errno::EDOTDOT),
        (Errno::BadMsg, linux_raw_sys::errno::EBADMSG),
        (Errno::Overflow, linux_raw_sys::errno::EOVERFLOW),
        (Errno::NotUniq, linux_raw_sys::errno::ENOTUNIQ),
        (Errno::BadFd, linux_raw_sys::errno::EBADFD),
        (Errno::RemChg, linux_raw_sys::errno::EREMCHG),
        (Errno::LibAcc, linux_raw_sys::errno::ELIBACC),
        (Errno::LibBad, linux_raw_sys::errno::ELIBBAD),
        (Errno::LibScn, linux_raw_sys::errno::ELIBSCN),
        (Errno::LibMax, linux_raw_sys::errno::ELIBMAX),
        (Errno::LibExec, linux_raw_sys::errno::ELIBEXEC),
        (Errno::IlSeq, linux_raw_sys::errno::EILSEQ),
        (Errno::Restart, linux_raw_sys::errno::ERESTART),
        (Errno::StrPipe, linux_raw_sys::errno::ESTRPIPE),
        (Errno::Users, linux_raw_sys::errno::EUSERS),
        (Errno::NotSock, linux_raw_sys::errno::ENOTSOCK),
        (Errno::DestAddrReq, linux_raw_sys::errno::EDESTADDRREQ),
        (Errno::MsgSize, linux_raw_sys::errno::EMSGSIZE),
        (Errno::Prototype, linux_raw_sys::errno::EPROTOTYPE),
        (Errno::NoProtoOpt, linux_raw_sys::errno::ENOPROTOOPT),
        (Errno::ProtoNoSupport, linux_raw_sys::errno::EPROTONOSUPPORT),
        (Errno::SocktNoSupport, linux_raw_sys::errno::ESOCKTNOSUPPORT),
        (Errno::OpNotSupp, linux_raw_sys::errno::EOPNOTSUPP),
        (Errno::PfNoSupport, linux_raw_sys::errno::EPFNOSUPPORT),
        (Errno::AfNoSupport, linux_raw_sys::errno::EAFNOSUPPORT),
        (Errno::AddrInUse, linux_raw_sys::errno::EADDRINUSE),
        (Errno::AddrNotAvail, linux_raw_sys::errno::EADDRNOTAVAIL),
        (Errno::NetDown, linux_raw_sys::errno::ENETDOWN),
        (Errno::NetUnreach, linux_raw_sys::errno::ENETUNREACH),
        (Errno::NetReset, linux_raw_sys::errno::ENETRESET),
        (Errno::ConnAborted, linux_raw_sys::errno::ECONNABORTED),
        (Errno::ConnReset, linux_raw_sys::errno::ECONNRESET),
        (Errno::NoBufs, linux_raw_sys::errno::ENOBUFS),
        (Errno::IsConn, linux_raw_sys::errno::EISCONN),
        (Errno::NotConn, linux_raw_sys::errno::ENOTCONN),
        (Errno::Shutdown, linux_raw_sys::errno::ESHUTDOWN),
        (Errno::TooManyRefs, linux_raw_sys::errno::ETOOMANYREFS),
        (Errno::TimedOut, linux_raw_sys::errno::ETIMEDOUT),
        (Errno::ConnRefused, linux_raw_sys::errno::ECONNREFUSED),
        (Errno::HostDown, linux_raw_sys::errno::EHOSTDOWN),
        (Errno::HostUnreach, linux_raw_sys::errno::EHOSTUNREACH),
        (Errno::Already, linux_raw_sys::errno::EALREADY),
        (Errno::InProgress, linux_raw_sys::errno::EINPROGRESS),
        (Errno::Stale, linux_raw_sys::errno::ESTALE),
        (Errno::UClean, linux_raw_sys::errno::EUCLEAN),
        (Errno::NotNam, linux_raw_sys::errno::ENOTNAM),
        (Errno::NAvail, linux_raw_sys::errno::ENAVAIL),
        (Errno::IsNam, linux_raw_sys::errno::EISNAM),
        (Errno::RemoteIo, linux_raw_sys::errno::EREMOTEIO),
        (Errno::DQuot, linux_raw_sys::errno::EDQUOT),
        (Errno::NoMedium, linux_raw_sys::errno::ENOMEDIUM),
        (Errno::MediumType, linux_raw_sys::errno::EMEDIUMTYPE),
        (Errno::Canceled, linux_raw_sys::errno::ECANCELED),
        (Errno::NoKey, linux_raw_sys::errno::ENOKEY),
        (Errno::KeyExpired, linux_raw_sys::errno::EKEYEXPIRED),
        (Errno::KeyRevoked, linux_raw_sys::errno::EKEYREVOKED),
        (Errno::KeyRejected, linux_raw_sys::errno::EKEYREJECTED),
        (Errno::OwnerDead, linux_raw_sys::errno::EOWNERDEAD),
        (Errno::NotRecoverable, linux_raw_sys::errno::ENOTRECOVERABLE),
        (Errno::RfKill, linux_raw_sys::errno::ERFKILL),
        (Errno::HwPoison, linux_raw_sys::errno::EHWPOISON),
    ]
}

#[test]
fn every_member_has_the_code_of_the_kernel_headers() {
    let members = members();
    assert_eq!(members.len(), 131);
    for (errno, code) in members {
        assert_eq!(errno.code(), Some(code as u16));
        assert_eq!(Errno::from_code(code as u16), errno);
    }
}

#[test]
fn aliases_in_the_kernel_headers_share_a_member() {
    assert_eq!(Errno::from_code(linux_raw_sys::errno::EWOULDBLOCK as u16), Errno::Again);
    assert_eq!(Errno::from_code(linux_raw_sys::errno::EDEADLOCK as u16), Errno::DeadLk);
}

#[test]
fn some_codes_by_number() {
    assert_eq!(Errno::Perm.code(), Some(1));
    assert_eq!(Errno::Child.code(), Some(10));
    assert_eq!(Errno::Inval.code(), Some(22));
    assert_eq!(Errno::NoSys.code(), Some(38));
    assert_eq!(Errno::HwPoison.code(), Some(133));
    assert_eq!(Errno::Unrecognized.code(), None);
}

#[test]
fn every_code_stands_for_one_member() {
    let mut known = 0;
    for code in 0..=u16::MAX {
        let errno = Errno::from_code(code);
        match errno.code() {
            Some(back) => {
                assert_eq!(back, code);
                known += 1;
            }
            None => assert_eq!(errno, Errno::Unrecognized),
        }
    }
    assert_eq!(known, 131);
}

#[test]
fn codes_without_a_member_are_unrecognized() {
    for code in [0u16, 41, 58, 134, 135, 4095, 4096, u16::MAX] {
        assert_eq!(Errno::from_code(code), Errno::Unrecognized);
    }
}

#[test]
fn a_known_failure_decodes_to_its_member() {
    assert_eq!(Errno::from_raw(failure(1)), Errno::Perm);
    assert_eq!(Errno::from_raw(failure(2)), Errno::NoEnt);
    assert_eq!(Errno::from_raw(failure(4)), Errno::Intr);
    assert_eq!(Errno::from_raw(failure(10)), Errno::Child);
    assert_eq!(Errno::from_raw(failure(38)), Errno::NoSys);
    assert_eq!(Errno::from_raw(failure(133)), Errno::HwPoison);
    assert_eq!(Errno::from_raw(usize::MAX), Errno::Perm);
}

#[test]
fn every_known_failure_decodes_to_the_member_with_its_code() {
    for (errno, code) in members() {
        assert_eq!(Errno::from_raw(failure(code as usize)), errno);
    }
}

#[test]
fn other_words_decode_to_unrecognized() {
    for raw in [
        0usize,
        1,
        38,
        4095,
        usize::MAX / 2,
        usize::MAX / 2 + 1,
        failure(65536 + 38),
        failure(4097),
        failure(4096),
        failure(4095),
        failure(134),
        failure(58),
        failure(41),
    ] {
        assert_eq!(Errno::from_raw(raw), Errno::Unrecognized);
    }
}

#[test]
fn the_error_range_is_the_last_4095_words() {
    assert_eq!(MAX_ERRNO, 4095);
    assert!(is_error(usize::MAX));
    assert!(is_error(failure(4095)));
    assert!(!is_error(failure(4096)));
    assert!(!is_error(0));
    assert!(!is_error(usize::MAX / 2 + 1));
}
