//! Encoding typed arguments into raw register values, and decoding the raw
//! outcome of a call.
//!
//! Each encoder produces exactly one machine word. Signed integers are
//! sign-extended to the width of the word and unsigned ones zero-extended.
//! Addresses of memory that the caller owns are words already and pass
//! through [`pass_usize`].
//!
//! A raw outcome is read as a signed word, and its sign tells success from
//! failure: a word that is not negative is a payload, and a negative word is
//! an error. The kernel reports an error as its negated code, in
//! `-MAX_ERRNO..0`; a negative word below that range is an error all the same,
//! one that no member of [`Errno`] but [`Errno::Unrecognized`] stands for. The
//! decoders differ in the payload they expect.

use crate::errno::{
    is_error, is_known_code, lemma_known_failure_decodes_exactly,
    lemma_other_outcomes_are_unrecognized, magnitude, Errno,
};
use crate::fd::BorrowedFd;
use vstd::prelude::*;

verus! {

/// The word that stands for a signed 32-bit integer: the two's complement
/// pattern of the same number at the width of the word.
pub open spec fn spec_c_int(value: i32) -> usize {
    if value >= 0 {
        value as usize
    } else {
        (usize::MAX + 1 + value) as usize
    }
}

/// The word that stands for an unsigned 32-bit integer: the number itself.
pub open spec fn spec_c_uint(value: u32) -> usize {
    value as usize
}

/// Encodes a signed integer by sign extension.
pub fn c_int(value: i32) -> (word: usize)
    ensures
        word == spec_c_int(value),
{
    if value >= 0 {
        value as usize
    } else {
        let below: i64 = -((value as i64) + 1);
        usize::MAX - (below as usize)
    }
}

/// The signed integer that has the same 32 bits as an unsigned one.
pub open spec fn spec_same_bits(value: u32) -> i32 {
    if value <= i32::MAX {
        value as i32
    } else {
        (value - 0x1_0000_0000) as i32
    }
}

/// Reads the 32 bits of an unsigned integer as a signed one, for an argument
/// that the kernel takes as signed.
pub fn same_bits(value: u32) -> (signed: i32)
    ensures
        signed == spec_same_bits(value),
{
    if value <= 0x7fff_ffff {
        value as i32
    } else {
        ((value as i64) - 0x1_0000_0000) as i32
    }
}

/// Encodes an unsigned integer by zero extension.
pub fn c_uint(value: u32) -> (word: usize)
    ensures
        word == spec_c_uint(value),
{
    value as usize
}

/// Encodes a value that is a machine word already: a length, or the address of
/// memory that the caller owns for the duration of the call.
pub fn pass_usize(value: usize) -> (word: usize)
    ensures
        word == value,
{
    value
}

/// The word for an argument that the kernel is to ignore, and for a null
/// address.
pub fn zero() -> (word: usize)
    ensures
        word == 0,
{
    0
}

/// Encodes a borrowed descriptor as its number.
pub fn borrowed_fd(fd: BorrowedFd<'_>) -> (word: usize)
    ensures
        word == spec_c_int(fd@),
{
    c_int(fd.as_raw())
}

/// Whether `raw` is negative when read as a signed word.
pub open spec fn spec_is_negative(raw: usize) -> bool {
    raw > isize::MAX
}

/// Whether `raw` is negative when read as a signed word.
#[verifier::when_used_as_spec(spec_is_negative)]
pub fn is_negative(raw: usize) -> (negative: bool)
    ensures
        negative == spec_is_negative(raw),
{
    raw > usize::MAX / 2
}

/// The outcome of a call that has no payload: zero is success, and every other
/// word is decoded as an error.
pub open spec fn spec_ret(raw: usize) -> Result<(), Errno> {
    if raw == 0 {
        Ok(())
    } else {
        Err(Errno::spec_from_raw(raw))
    }
}

/// The outcome of a call whose payload is a signed integer.
pub open spec fn spec_ret_c_int(raw: usize) -> Result<i32, Errno> {
    if is_negative(raw) {
        Err(Errno::spec_from_raw(raw))
    } else {
        Ok(raw as i32)
    }
}

/// The outcome of a call whose payload is an unsigned integer.
pub open spec fn spec_ret_c_uint(raw: usize) -> Result<u32, Errno> {
    if is_negative(raw) {
        Err(Errno::spec_from_raw(raw))
    } else {
        Ok(raw as u32)
    }
}

/// The outcome of a call whose payload is a machine word, such as a count of
/// bytes. Every negative word is a failure, inside the range of the codes and
/// outside it.
pub open spec fn spec_ret_usize(raw: usize) -> Result<usize, Errno> {
    if is_negative(raw) {
        Err(Errno::spec_from_raw(raw))
    } else {
        Ok(raw)
    }
}

/// Whether the payload of `raw`, if it has one, is a signed 32-bit integer.
pub open spec fn spec_fits_c_int(raw: usize) -> bool {
    is_negative(raw) || raw <= i32::MAX
}

/// Whether the payload of `raw`, if it has one, is an unsigned 32-bit integer.
pub open spec fn spec_fits_c_uint(raw: usize) -> bool {
    is_negative(raw) || raw <= u32::MAX
}

/// Whether the payload of `raw`, if it has one, is a signed 32-bit integer:
/// what [`ret_c_int`] asks of its argument.
#[verifier::when_used_as_spec(spec_fits_c_int)]
pub fn fits_c_int(raw: usize) -> (fits: bool)
    ensures
        fits == spec_fits_c_int(raw),
{
    is_negative(raw) || raw <= 0x7fff_ffff
}

/// Whether the payload of `raw`, if it has one, is an unsigned 32-bit integer:
/// what [`ret_c_uint`] asks of its argument.
#[verifier::when_used_as_spec(spec_fits_c_uint)]
pub fn fits_c_uint(raw: usize) -> (fits: bool)
    ensures
        fits == spec_fits_c_uint(raw),
{
    is_negative(raw) || raw as u64 <= 0xffff_ffff
}

/// Decodes the outcome of a call that has no payload.
pub fn ret(raw: usize) -> (outcome: Result<(), Errno>)
    ensures
        outcome == spec_ret(raw),
{
    if raw == 0 {
        Ok(())
    } else {
        Err(Errno::from_raw(raw))
    }
}

/// Decodes the outcome of a call whose payload is a signed integer.
///
/// A payload that does not fit is never cut down: the kernel has broken the
/// call's contract, and the caller must not go on.
pub fn ret_c_int(raw: usize) -> (outcome: Result<i32, Errno>)
    requires
        fits_c_int(raw),
    ensures
        outcome == spec_ret_c_int(raw),
{
    if is_negative(raw) {
        Err(Errno::from_raw(raw))
    } else {
        Ok(raw as i32)
    }
}

/// Decodes the outcome of a call whose payload is an unsigned integer.
///
/// A payload that does not fit is never cut down: the kernel has broken the
/// call's contract, and the caller must not go on.
pub fn ret_c_uint(raw: usize) -> (outcome: Result<u32, Errno>)
    requires
        fits_c_uint(raw),
    ensures
        outcome == spec_ret_c_uint(raw),
{
    if is_negative(raw) {
        Err(Errno::from_raw(raw))
    } else {
        Ok(raw as u32)
    }
}

/// Decodes the outcome of a call whose payload is a machine word.
pub fn ret_usize(raw: usize) -> (outcome: Result<usize, Errno>)
    ensures
        outcome == spec_ret_usize(raw),
{
    if is_negative(raw) {
        Err(Errno::from_raw(raw))
    } else {
        Ok(raw)
    }
}

/// Accepts the outcome of a call that has no payload and cannot fail. A
/// failure here means that the call's contract is broken, and the caller must
/// not go on.
pub fn ret_infallible(raw: usize)
    requires
        spec_ret(raw) is Ok,
{
}

/// Decodes the outcome of a call whose payload is a machine word and that
/// cannot fail. A negative outcome here means that the call's contract is
/// broken, and the caller must not go on.
pub fn ret_usize_infallible(raw: usize) -> (payload: usize)
    requires
        spec_ret_usize(raw) is Ok,
    ensures
        spec_ret_usize(raw) == Ok::<usize, Errno>(payload),
{
    raw
}

/// Every decoder reports a failure whose magnitude is the code of a member as
/// that member.
pub proof fn lemma_decoders_report_known_failure(raw: usize, errno: Errno)
    requires
        errno.spec_code() matches Some(code) && magnitude(raw) == code,
    ensures
        is_error(raw),
        is_negative(raw),
        spec_ret(raw) == Err::<(), Errno>(errno),
        spec_ret_c_int(raw) == Err::<i32, Errno>(errno),
        spec_ret_c_uint(raw) == Err::<u32, Errno>(errno),
        spec_ret_usize(raw) == Err::<usize, Errno>(errno),
{
    lemma_known_failure_decodes_exactly(raw, errno);
}

/// No decoder takes a negative word for a payload, whatever its magnitude, and
/// the decoder of a call without payload takes none but zero for success. What
/// is reported for a word that is no failure the kernel knows, be it outside
/// the range of the codes or a code in it that no member has, is
/// [`Errno::Unrecognized`].
pub proof fn lemma_decoders_report_other_failure(raw: usize)
    requires
        !is_error(raw) || !is_known_code(magnitude(raw)),
    ensures
        raw != 0 ==> spec_ret(raw) == Err::<(), Errno>(Errno::Unrecognized),
        is_negative(raw) ==> spec_ret_c_int(raw) == Err::<i32, Errno>(Errno::Unrecognized),
        is_negative(raw) ==> spec_ret_c_uint(raw) == Err::<u32, Errno>(Errno::Unrecognized),
        is_negative(raw) ==> spec_ret_usize(raw) == Err::<usize, Errno>(Errno::Unrecognized),
{
    lemma_other_outcomes_are_unrecognized(raw);
}

/// Sign extension keeps the sign, and the magnitude of a negative number.
pub proof fn lemma_c_int_keeps_sign(value: i32)
    ensures
        is_negative(spec_c_int(value)) <==> value < 0,
        value >= 0 ==> spec_c_int(value) == value,
        value < 0 ==> magnitude(spec_c_int(value)) == -value,
{
}

/// A signed integer whose word is not negative comes back from the decoder
/// as it went into the encoder.
pub proof fn lemma_c_int_round_trip(value: i32)
    requires
        !is_negative(spec_c_int(value)),
    ensures
        fits_c_int(spec_c_int(value)),
        spec_ret_c_int(spec_c_int(value)) == Ok::<i32, Errno>(value),
{
}

/// An unsigned integer whose word is not negative comes back from the decoder
/// as it went into the encoder.
pub proof fn lemma_c_uint_round_trip(value: u32)
    requires
        !is_negative(spec_c_uint(value)),
    ensures
        fits_c_uint(spec_c_uint(value)),
        spec_ret_c_uint(spec_c_uint(value)) == Ok::<u32, Errno>(value),
{
}

/// Where the word has 64 bits, the word of an unsigned integer is never
/// negative, so that every unsigned integer, the largest included, comes back
/// from the decoder as it went into the encoder.
pub proof fn lemma_c_uint_round_trip_at_64_bits(value: u32)
    requires
        usize::BITS == 64,
    ensures
        !is_negative(spec_c_uint(value)),
        fits_c_uint(spec_c_uint(value)),
        spec_ret_c_uint(spec_c_uint(value)) == Ok::<u32, Errno>(value),
{
}

/// A machine word that is not negative comes back from the decoder as it went
/// in.
pub proof fn lemma_usize_round_trip(value: usize)
    requires
        !is_negative(value),
    ensures
        spec_ret_usize(value) == Ok::<usize, Errno>(value),
{
}

} // verus!
