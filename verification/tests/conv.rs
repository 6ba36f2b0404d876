use process_syscalls::conv::{
    borrowed_fd, c_int, c_uint, fits_c_int, fits_c_uint, is_negative, pass_usize, ret, ret_c_int,
    ret_c_uint, ret_infallible, ret_usize, ret_usize_infallible, same_bits, zero,
};
use process_syscalls::errno::Errno;
use process_syscalls::fd::OwnedFd;

fn failure_word(code: usize) -> usize {
    0usize.wrapping_sub(code)
}

#[test]
fn c_int_sign_extends() {
    assert_eq!(c_int(0), 0);
    assert_eq!(c_int(1), 1);
    assert_eq!(c_int(i32::MAX), 0x7fff_ffff);
    assert_eq!(c_int(-1), usize::MAX);
    assert_eq!(c_int(-2), usize::MAX - 1);
    assert_eq!(c_int(i32::MIN), usize::MAX - 0x7fff_ffff);
}

#[test]
fn c_int_is_the_cast_through_the_signed_word() {
    for value in [i32::MIN, i32::MIN + 1, -4096, -4095, -40, -1, 0, 1, 19, 4095, i32::MAX] {
        assert_eq!(c_int(value), value as isize as usize);
    }
}

#[test]
fn c_uint_zero_extends() {
    assert_eq!(c_uint(0), 0);
    assert_eq!(c_uint(7), 7);
    assert_eq!(c_uint(0x8000_0000), 0x8000_0000);
    assert_eq!(c_uint(u32::MAX), 0xffff_ffff);
}

#[test]
fn words_pass_unchanged() {
    assert_eq!(pass_usize(0), 0);
    assert_eq!(pass_usize(0x7ffd_1234_5678), 0x7ffd_1234_5678);
    assert_eq!(pass_usize(usize::MAX), usize::MAX);
    assert_eq!(zero(), 0);
}

#[test]
fn same_bits_reads_the_pattern_as_signed() {
    assert_eq!(same_bits(0), 0);
    assert_eq!(same_bits(11), 11);
    assert_eq!(same_bits(0x7fff_ffff), i32::MAX);
    assert_eq!(same_bits(0x8000_0000), i32::MIN);
    assert_eq!(same_bits(u32::MAX), -1);
    for value in [0u32, 1, 0x7fff_ffff, 0x8000_0000, 0xffff_fff6, u32::MAX] {
        assert_eq!(same_bits(value), value as i32);
    }
}

#[test]
fn a_borrowed_descriptor_encodes_as_its_number() {
    let owner = OwnedFd::from_raw(3);
    assert_eq!(owner.as_fd().as_raw(), 3);
    assert_eq!(borrowed_fd(owner.as_fd()), 3);
    assert_eq!(owner.into_raw(), 3);
    let cwd = OwnedFd::from_raw(-100);
    assert_eq!(borrowed_fd(cwd.as_fd()), usize::MAX - 99);
}

#[test]
fn the_sign_of_a_word() {
    assert!(!is_negative(0));
    assert!(!is_negative(isize::MAX as usize));
    assert!(is_negative(isize::MAX as usize + 1));
    assert!(is_negative(usize::MAX));
}

#[test]
fn signed_integers_round_trip() {
    for value in [0, 1, 2, 19, 20, 4095, 4096, 65536, i32::MAX - 1, i32::MAX] {
        let word = c_int(value);
        assert!(!is_negative(word));
        assert!(fits_c_int(word));
        assert_eq!(ret_c_int(word), Ok(value));
    }
}

#[test]
fn unsigned_integers_round_trip() {
    for value in [0, 1, 2, 0x1f, 4095, 4096, 0x7fff_ffff, 0x8000_0000, u32::MAX - 1, u32::MAX] {
        let word = c_uint(value);
        if !is_negative(word) {
            assert!(fits_c_uint(word));
            assert_eq!(ret_c_uint(word), Ok(value));
        }
    }
    if usize::BITS == 64 {
        assert_eq!(ret_c_uint(c_uint(u32::MAX)), Ok(u32::MAX));
    }
}

#[test]
fn words_round_trip() {
    for value in [0, 1, 128, 4095, 4096, isize::MAX as usize - 1, isize::MAX as usize] {
        assert!(!is_negative(pass_usize(value)));
        assert_eq!(ret_usize(pass_usize(value)), Ok(value));
        assert_eq!(ret_usize_infallible(pass_usize(value)), value);
    }
}

#[test]
fn a_negative_word_is_no_payload() {
    for raw in [
        isize::MAX as usize + 1,
        isize::MAX as usize + 2,
        failure_word(1_000_000),
        failure_word(5000),
        failure_word(4097),
        failure_word(4096),
    ] {
        assert!(is_negative(raw));
        assert_eq!(ret_usize(raw), Err(Errno::Unrecognized));
        assert_eq!(ret_c_int(raw), Err(Errno::Unrecognized));
        assert_eq!(ret_c_uint(raw), Err(Errno::Unrecognized));
        assert_eq!(ret(raw), Err(Errno::Unrecognized));
    }
}

#[test]
fn a_negative_integer_encodes_as_a_failure_word() {
    assert_eq!(ret_c_int(c_int(-1)), Err(Errno::Perm));
    assert_eq!(ret_c_int(c_int(-38)), Err(Errno::NoSys));
}

#[test]
fn ret_takes_zero_alone_for_success() {
    assert_eq!(ret(0), Ok(()));
    assert_eq!(ret(failure_word(1)), Err(Errno::Perm));
    assert_eq!(ret(failure_word(22)), Err(Errno::Inval));
    assert_eq!(ret(failure_word(38)), Err(Errno::NoSys));
    assert_eq!(ret(1), Err(Errno::Unrecognized));
    assert_eq!(ret(failure_word(5000)), Err(Errno::Unrecognized));
    ret_infallible(0);
}

#[test]
fn ret_c_int_decodes_payload_and_failure() {
    assert_eq!(ret_c_int(0), Ok(0));
    assert_eq!(ret_c_int(40), Ok(40));
    assert_eq!(ret_c_int(0x7fff_ffff), Ok(i32::MAX));
    assert_eq!(ret_c_int(failure_word(3)), Err(Errno::Srch));
    assert_eq!(ret_c_int(failure_word(13)), Err(Errno::Access));
    assert_eq!(ret_c_int(failure_word(4096)), Err(Errno::Unrecognized));
    assert_eq!(ret_c_int(isize::MAX as usize + 1), Err(Errno::Unrecognized));
}

#[test]
fn ret_c_uint_decodes_payload_and_failure() {
    assert_eq!(ret_c_uint(0), Ok(0));
    assert_eq!(ret_c_uint(0x1ff), Ok(0x1ff));
    assert_eq!(ret_c_uint(failure_word(10)), Err(Errno::Child));
    assert_eq!(ret_c_uint(failure_word(4)), Err(Errno::Intr));
    assert_eq!(ret_c_uint(failure_word(41)), Err(Errno::Unrecognized));
}

#[test]
fn ret_usize_fails_on_every_negative_word() {
    assert_eq!(ret_usize(0), Ok(0));
    assert_eq!(ret_usize(17), Ok(17));
    assert_eq!(ret_usize(isize::MAX as usize), Ok(isize::MAX as usize));
    assert_eq!(ret_usize(isize::MAX as usize + 1), Err(Errno::Unrecognized));
    assert_eq!(ret_usize(failure_word(5000)), Err(Errno::Unrecognized));
    assert_eq!(ret_usize(failure_word(4096)), Err(Errno::Unrecognized));
    assert_eq!(ret_usize(failure_word(4095)), Err(Errno::Unrecognized));
    assert_eq!(ret_usize(failure_word(14)), Err(Errno::Fault));
    assert_eq!(ret_usize(failure_word(34)), Err(Errno::Range));
    assert_eq!(ret_usize(usize::MAX), Err(Errno::Perm));
}

#[test]
fn the_payload_has_to_fit() {
    assert!(fits_c_int(0));
    assert!(fits_c_int(0x7fff_ffff));
    assert!(fits_c_int(usize::MAX));
    assert!(fits_c_uint(0xffff_ffff) || usize::BITS == 32);
    assert!(fits_c_uint(usize::MAX));
    if usize::BITS == 64 {
        assert!(!fits_c_int(0x8000_0000));
        assert!(fits_c_uint(0x8000_0000));
        assert!(!fits_c_uint(0x1_0000_0000));
    }
}
