//! Fixed-width big-endian integers on the wire.
//!
//! The spec functions of this module say what bytes stand for an integer and
//! what integer a run of bytes stands for. The executable functions read and
//! write such integers at an offset of a buffer; the byte work itself is done
//! by `bincode`, configured for big-endian fixed-width integers.

use vstd::prelude::*;
use vstd::slice::slice_subrange;
use crate::fault::{DecodeFault, EncodeFault};

verus! {

/// `bincode::error::DecodeError`, what `bincode` hands back where it cannot
/// decode. Nothing is claimed of its content.
#[verifier::external_type_specification]
#[verifier::external_body]
pub struct ExDecodeError(bincode::error::DecodeError);

/// `bincode::error::EncodeError`, what `bincode` hands back where it cannot
/// encode. Nothing is claimed of its content.
#[verifier::external_type_specification]
#[verifier::external_body]
pub struct ExEncodeError(bincode::error::EncodeError);

/// The byte at `at` as an unsigned 8-bit integer.
pub open spec fn be_u8(s: Seq<u8>, at: int) -> u8 {
    s[at]
}

/// The two bytes from `at` on as an unsigned 16-bit integer.
pub open spec fn be_u16(s: Seq<u8>, at: int) -> u16 {
    (s[at] as int * 0x100 + s[at + 1] as int) as u16
}

/// The four bytes from `at` on as an unsigned 32-bit integer.
pub open spec fn be_u32(s: Seq<u8>, at: int) -> u32 {
    (s[at] as int * 0x100_0000 + s[at + 1] as int * 0x1_0000 + s[at + 2] as int * 0x100 + s[at
        + 3] as int) as u32
}

/// The byte at `at` as a two's-complement signed 8-bit integer.
pub open spec fn be_i8(s: Seq<u8>, at: int) -> i8 {
    let u = be_u8(s, at);
    if u >= 0x80 {
        (u - 0x100) as i8
    } else {
        u as i8
    }
}

/// The two bytes from `at` on as a two's-complement signed 16-bit integer.
pub open spec fn be_i16(s: Seq<u8>, at: int) -> i16 {
    let u = be_u16(s, at);
    if u >= 0x8000 {
        (u - 0x1_0000) as i16
    } else {
        u as i16
    }
}

/// The four bytes from `at` on as a two's-complement signed 32-bit integer.
pub open spec fn be_i32(s: Seq<u8>, at: int) -> i32 {
    let u = be_u32(s, at);
    if u >= 0x8000_0000 {
        (u - 0x1_0000_0000) as i32
    } else {
        u as i32
    }
}

/// The one byte that stands for `x`.
pub open spec fn u8_be(x: u8) -> Seq<u8> {
    seq![x]
}

/// The two bytes that stand for `x`, most significant first.
pub open spec fn u16_be(x: u16) -> Seq<u8> {
    seq![(x / 0x100) as u8, (x % 0x100) as u8]
}

/// The four bytes that stand for `x`, most significant first.
pub open spec fn u32_be(x: u32) -> Seq<u8> {
    seq![
        (x / 0x100_0000) as u8,
        ((x / 0x1_0000) % 0x100) as u8,
        ((x / 0x100) % 0x100) as u8,
        (x % 0x100) as u8,
    ]
}

/// The one byte that stands for `x` in two's complement.
pub open spec fn i8_be(x: i8) -> Seq<u8> {
    if x < 0 {
        u8_be((x + 0x100) as u8)
    } else {
        u8_be(x as u8)
    }
}

/// The two bytes that stand for `x` in two's complement, most significant
/// first.
pub open spec fn i16_be(x: i16) -> Seq<u8> {
    if x < 0 {
        u16_be((x + 0x1_0000) as u16)
    } else {
        u16_be(x as u16)
    }
}

/// The four bytes that stand for `x` in two's complement, most significant
/// first.
pub open spec fn i32_be(x: i32) -> Seq<u8> {
    if x < 0 {
        u32_be((x + 0x1_0000_0000) as u32)
    } else {
        u32_be(x as u32)
    }
}

/// `buf` with the bytes from `at` on replaced by `image`; the length stays.
pub open spec fn splice(buf: Seq<u8>, at: int, image: Seq<u8>) -> Seq<u8> {
    buf.subrange(0, at) + image + buf.subrange(at + image.len(), buf.len() as int)
}

/// Calls `bincode::decode_from_slice` for a `u8`. One byte is read: the call
/// succeeds exactly when `src` is not empty, then yields the first byte and
/// reports one byte read.
#[verifier::external_body]
fn decode_u8(src: &[u8]) -> (r: Result<(u8, usize), bincode::error::DecodeError>)
    ensures
        r is Ok <==> src@.len() >= 1,
        r is Ok ==> r->Ok_0.0 == be_u8(src@, 0) && r->Ok_0.1 == 1,
{
    bincode::decode_from_slice(
        src,
        bincode::config::standard().with_big_endian().with_fixed_int_encoding(),
    )
}

/// Calls `bincode::decode_from_slice` for a `u16` with big-endian fixed-width
/// integers. The call succeeds exactly when `src` holds two bytes or more,
/// then yields the first two as a big-endian integer and reports two bytes
/// read.
#[verifier::external_body]
fn decode_u16(src: &[u8]) -> (r: Result<(u16, usize), bincode::error::DecodeError>)
    ensures
        r is Ok <==> src@.len() >= 2,
        r is Ok ==> r->Ok_0.0 == be_u16(src@, 0) && r->Ok_0.1 == 2,
{
    bincode::decode_from_slice(
        src,
        bincode::config::standard().with_big_endian().with_fixed_int_encoding(),
    )
}

/// Calls `bincode::decode_from_slice` for a `u32` with big-endian fixed-width
/// integers. The call succeeds exactly when `src` holds four bytes or more,
/// then yields the first four as a big-endian integer and reports four bytes
/// read.
#[verifier::external_body]
fn decode_u32(src: &[u8]) -> (r: Result<(u32, usize), bincode::error::DecodeError>)
    ensures
        r is Ok <==> src@.len() >= 4,
        r is Ok ==> r->Ok_0.0 == be_u32(src@, 0) && r->Ok_0.1 == 4,
{
    bincode::decode_from_slice(
        src,
        bincode::config::standard().with_big_endian().with_fixed_int_encoding(),
    )
}

/// Calls `bincode::decode_from_slice` for an `i8`. One byte is read: the call
/// succeeds exactly when `src` is not empty, then yields the first byte as a
/// two's-complement integer and reports one byte read.
#[verifier::external_body]
fn decode_i8(src: &[u8]) -> (r: Result<(i8, usize), bincode::error::DecodeError>)
    ensures
        r is Ok <==> src@.len() >= 1,
        r is Ok ==> r->Ok_0.0 == be_i8(src@, 0) && r->Ok_0.1 == 1,
{
    bincode::decode_from_slice(
        src,
        bincode::config::standard().with_big_endian().with_fixed_int_encoding(),
    )
}

/// Calls `bincode::decode_from_slice` for an `i16` with big-endian fixed-width
/// integers. The call succeeds exactly when `src` holds two bytes or more,
/// then yields the first two as a big-endian two's-complement integer and
/// reports two bytes read.
#[verifier::external_body]
fn decode_i16(src: &[u8]) -> (r: Result<(i16, usize), bincode::error::DecodeError>)
    ensures
        r is Ok <==> src@.len() >= 2,
        r is Ok ==> r->Ok_0.0 == be_i16(src@, 0) && r->Ok_0.1 == 2,
{
    bincode::decode_from_slice(
        src,
        bincode::config::standard().with_big_endian().with_fixed_int_encoding(),
    )
}

/// Calls `bincode::decode_from_slice` for an `i32` with big-endian fixed-width
/// integers. The call succeeds exactly when `src` holds four bytes or more,
/// then yields the first four as a big-endian two's-complement integer and
/// reports four bytes read.
#[verifier::external_body]
fn decode_i32(src: &[u8]) -> (r: Result<(i32, usize), bincode::error::DecodeError>)
    ensures
        r is Ok <==> src@.len() >= 4,
        r is Ok ==> r->Ok_0.0 == be_i32(src@, 0) && r->Ok_0.1 == 4,
{
    bincode::decode_from_slice(
        src,
        bincode::config::standard().with_big_endian().with_fixed_int_encoding(),
    )
}

/// Calls `bincode::encode_into_slice` for a `u8` on the part of `dst` from
/// `at` on. The call succeeds exactly when that part is not empty; it then
/// writes the byte at `at`, leaves every other byte and reports one byte
/// written. On failure `dst` is untouched.
#[verifier::external_body]
fn encode_u8(value: u8, dst: &mut [u8], at: usize) -> (r: Result<
    usize,
    bincode::error::EncodeError,
>)
    requires
        at <= old(dst)@.len(),
    ensures
        r is Ok <==> at + 1 <= old(dst)@.len(),
        r is Ok ==> r->Ok_0 == 1 && final(dst)@ == splice(old(dst)@, at as int, u8_be(value)),
        r is Err ==> final(dst)@ == old(dst)@,
{
    bincode::encode_into_slice(
        value,
        &mut dst[at..],
        bincode::config::standard().with_big_endian().with_fixed_int_encoding(),
    )
}

/// Calls `bincode::encode_into_slice` for a `u16` with big-endian fixed-width
/// integers on the part of `dst` from `at` on. The call succeeds exactly when
/// that part holds two bytes or more; it then writes the two bytes at `at`,
/// leaves every other byte and reports two bytes written. On failure `dst` is
/// untouched.
#[verifier::external_body]
fn encode_u16(value: u16, dst: &mut [u8], at: usize) -> (r: Result<
    usize,
    bincode::error::EncodeError,
>)
    requires
        at <= old(dst)@.len(),
    ensures
        r is Ok <==> at + 2 <= old(dst)@.len(),
        r is Ok ==> r->Ok_0 == 2 && final(dst)@ == splice(old(dst)@, at as int, u16_be(value)),
        r is Err ==> final(dst)@ == old(dst)@,
{
    bincode::encode_into_slice(
        value,
        &mut dst[at..],
        bincode::config::standard().with_big_endian().with_fixed_int_encoding(),
    )
}

/// Calls `bincode::encode_into_slice` for a `u32` with big-endian fixed-width
/// integers on the part of `dst` from `at` on. The call succeeds exactly when
/// that part holds four bytes or more; it then writes the four bytes at `at`,
/// leaves every other byte and reports four bytes written. On failure `dst`
/// is untouched.
#[verifier::external_body]
fn encode_u32(value: u32, dst: &mut [u8], at: usize) -> (r: Result<
    usize,
    bincode::error::EncodeError,
>)
    requires
        at <= old(dst)@.len(),
    ensures
        r is Ok <==> at + 4 <= old(dst)@.len(),
        r is Ok ==> r->Ok_0 == 4 && final(dst)@ == splice(old(dst)@, at as int, u32_be(value)),
        r is Err ==> final(dst)@ == old(dst)@,
{
    bincode::encode_into_slice(
        value,
        &mut dst[at..],
        bincode::config::standard().with_big_endian().with_fixed_int_encoding(),
    )
}

/// Calls `bincode::encode_into_slice` for an `i8` on the part of `dst` from
/// `at` on. The call succeeds exactly when that part is not empty; it then
/// writes the two's-complement byte at `at`, leaves every other byte and
/// reports one byte written. On failure `dst` is untouched.
#[verifier::external_body]
fn encode_i8(value: i8, dst: &mut [u8], at: usize) -> (r: Result<
    usize,
    bincode::error::EncodeError,
>)
    requires
        at <= old(dst)@.len(),
    ensures
        r is Ok <==> at + 1 <= old(dst)@.len(),
        r is Ok ==> r->Ok_0 == 1 && final(dst)@ == splice(old(dst)@, at as int, i8_be(value)),
        r is Err ==> final(dst)@ == old(dst)@,
{
    bincode::encode_into_slice(
        value,
        &mut dst[at..],
        bincode::config::standard().with_big_endian().with_fixed_int_encoding(),
    )
}

/// Calls `bincode::encode_into_slice` for an `i16` with big-endian fixed-width
/// integers on the part of `dst` from `at` on. The call succeeds exactly when
/// that part holds two bytes or more; it then writes the two two's-complement
/// bytes at `at`, leaves every other byte and reports two bytes written. On
/// failure `dst` is untouched.
#[verifier::external_body]
fn encode_i16(value: i16, dst: &mut [u8], at: usize) -> (r: Result<
    usize,
    bincode::error::EncodeError,
>)
    requires
        at <= old(dst)@.len(),
    ensures
        r is Ok <==> at + 2 <= old(dst)@.len(),
        r is Ok ==> r->Ok_0 == 2 && final(dst)@ == splice(old(dst)@, at as int, i16_be(value)),
        r is Err ==> final(dst)@ == old(dst)@,
{
    bincode::encode_into_slice(
        value,
        &mut dst[at..],
        bincode::config::standard().with_big_endian().with_fixed_int_encoding(),
    )
}

/// Calls `bincode::encode_into_slice` for an `i32` with big-endian fixed-width
/// integers on the part of `dst` from `at` on. The call succeeds exactly when
/// that part holds four bytes or more; it then writes the four two's-complement
/// bytes at `at`, leaves every other byte and reports four bytes written. On
/// failure `dst` is untouched.
#[verifier::external_body]
fn encode_i32(value: i32, dst: &mut [u8], at: usize) -> (r: Result<
    usize,
    bincode::error::EncodeError,
>)
    requires
        at <= old(dst)@.len(),
    ensures
        r is Ok <==> at + 4 <= old(dst)@.len(),
        r is Ok ==> r->Ok_0 == 4 && final(dst)@ == splice(old(dst)@, at as int, i32_be(value)),
        r is Err ==> final(dst)@ == old(dst)@,
{
    bincode::encode_into_slice(
        value,
        &mut dst[at..],
        bincode::config::standard().with_big_endian().with_fixed_int_encoding(),
    )
}

/// Reads the unsigned 8-bit integer at offset `at` of `bytes`.
pub fn take_u8(bytes: &[u8], at: usize) -> (r: Result<u8, DecodeFault>)
    ensures
        at + 1 <= bytes@.len() ==> r == Ok::<u8, DecodeFault>(be_u8(bytes@, at as int)),
        at + 1 > bytes@.len() ==> r == Err::<u8, DecodeFault>(DecodeFault::TruncatedInput),
{
    if at > bytes.len() {
        return Err(DecodeFault::TruncatedInput);
    }
    match decode_u8(slice_subrange(bytes, at, bytes.len())) {
        Ok((value, _)) => Ok(value),
        Err(_) => Err(DecodeFault::TruncatedInput),
    }
}

/// Reads the big-endian unsigned 16-bit integer at offset `at` of `bytes`.
pub fn take_u16(bytes: &[u8], at: usize) -> (r: Result<u16, DecodeFault>)
    ensures
        at + 2 <= bytes@.len() ==> r == Ok::<u16, DecodeFault>(be_u16(bytes@, at as int)),
        at + 2 > bytes@.len() ==> r == Err::<u16, DecodeFault>(DecodeFault::TruncatedInput),
{
    if at > bytes.len() {
        return Err(DecodeFault::TruncatedInput);
    }
    match decode_u16(slice_subrange(bytes, at, bytes.len())) {
        Ok((value, _)) => Ok(value),
        Err(_) => Err(DecodeFault::TruncatedInput),
    }
}

/// Reads the big-endian unsigned 32-bit integer at offset `at` of `bytes`.
pub fn take_u32(bytes: &[u8], at: usize) -> (r: Result<u32, DecodeFault>)
    ensures
        at + 4 <= bytes@.len() ==> r == Ok::<u32, DecodeFault>(be_u32(bytes@, at as int)),
        at + 4 > bytes@.len() ==> r == Err::<u32, DecodeFault>(DecodeFault::TruncatedInput),
{
    if at > bytes.len() {
        return Err(DecodeFault::TruncatedInput);
    }
    match decode_u32(slice_subrange(bytes, at, bytes.len())) {
        Ok((value, _)) => Ok(value),
        Err(_) => Err(DecodeFault::TruncatedInput),
    }
}

/// Reads the two's-complement 8-bit integer at offset `at` of `bytes`.
pub fn take_i8(bytes: &[u8], at: usize) -> (r: Result<i8, DecodeFault>)
    ensures
        at + 1 <= bytes@.len() ==> r == Ok::<i8, DecodeFault>(be_i8(bytes@, at as int)),
        at + 1 > bytes@.len() ==> r == Err::<i8, DecodeFault>(DecodeFault::TruncatedInput),
{
    if at > bytes.len() {
        return Err(DecodeFault::TruncatedInput);
    }
    match decode_i8(slice_subrange(bytes, at, bytes.len())) {
        Ok((value, _)) => Ok(value),
        Err(_) => Err(DecodeFault::TruncatedInput),
    }
}

/// Reads the big-endian two's-complement 16-bit integer at offset `at` of
/// `bytes`.
pub fn take_i16(bytes: &[u8], at: usize) -> (r: Result<i16, DecodeFault>)
    ensures
        at + 2 <= bytes@.len() ==> r == Ok::<i16, DecodeFault>(be_i16(bytes@, at as int)),
        at + 2 > bytes@.len() ==> r == Err::<i16, DecodeFault>(DecodeFault::TruncatedInput),
{
    if at > bytes.len() {
        return Err(DecodeFault::TruncatedInput);
    }
    match decode_i16(slice_subrange(bytes, at, bytes.len())) {
        Ok((value, _)) => Ok(value),
        Err(_) => Err(DecodeFault::TruncatedInput),
    }
}

/// Reads the big-endian two's-complement 32-bit integer at offset `at` of
/// `bytes`.
pub fn take_i32(bytes: &[u8], at: usize) -> (r: Result<i32, DecodeFault>)
    ensures
        at + 4 <= bytes@.len() ==> r == Ok::<i32, DecodeFault>(be_i32(bytes@, at as int)),
        at + 4 > bytes@.len() ==> r == Err::<i32, DecodeFault>(DecodeFault::TruncatedInput),
{
    if at > bytes.len() {
        return Err(DecodeFault::TruncatedInput);
    }
    match decode_i32(slice_subrange(bytes, at, bytes.len())) {
        Ok((value, _)) => Ok(value),
        Err(_) => Err(DecodeFault::TruncatedInput),
    }
}

/// Writes `value` as one byte at offset `at` of `out`.
pub fn put_u8(value: u8, out: &mut [u8], at: usize) -> (r: Result<(), EncodeFault>)
    ensures
        at + 1 <= old(out)@.len() ==> r is Ok && final(out)@ == splice(
            old(out)@,
            at as int,
            u8_be(value),
        ),
        at + 1 > old(out)@.len() ==> r == Err::<(), EncodeFault>(EncodeFault::BufferTooSmall)
            && final(out)@ == old(out)@,
{
    if at > out.len() {
        return Err(EncodeFault::BufferTooSmall);
    }
    match encode_u8(value, out, at) {
        Ok(_) => Ok(()),
        Err(_) => Err(EncodeFault::BufferTooSmall),
    }
}

/// Writes `value` as two big-endian bytes at offset `at` of `out`.
pub fn put_u16(value: u16, out: &mut [u8], at: usize) -> (r: Result<(), EncodeFault>)
    ensures
        at + 2 <= old(out)@.len() ==> r is Ok && final(out)@ == splice(
            old(out)@,
            at as int,
            u16_be(value),
        ),
        at + 2 > old(out)@.len() ==> r == Err::<(), EncodeFault>(EncodeFault::BufferTooSmall)
            && final(out)@ == old(out)@,
{
    if at > out.len() {
        return Err(EncodeFault::BufferTooSmall);
    }
    match encode_u16(value, out, at) {
        Ok(_) => Ok(()),
        Err(_) => Err(EncodeFault::BufferTooSmall),
    }
}

/// Writes `value` as four big-endian bytes at offset `at` of `out`.
pub fn put_u32(value: u32, out: &mut [u8], at: usize) -> (r: Result<(), EncodeFault>)
    ensures
        at + 4 <= old(out)@.len() ==> r is Ok && final(out)@ == splice(
            old(out)@,
            at as int,
            u32_be(value),
        ),
        at + 4 > old(out)@.len() ==> r == Err::<(), EncodeFault>(EncodeFault::BufferTooSmall)
            && final(out)@ == old(out)@,
{
    if at > out.len() {
        return Err(EncodeFault::BufferTooSmall);
    }
    match encode_u32(value, out, at) {
        Ok(_) => Ok(()),
        Err(_) => Err(EncodeFault::BufferTooSmall),
    }
}

/// Writes `value` as one two's-complement byte at offset `at` of `out`.
pub fn put_i8(value: i8, out: &mut [u8], at: usize) -> (r: Result<(), EncodeFault>)
    ensures
        at + 1 <= old(out)@.len() ==> r is Ok && final(out)@ == splice(
            old(out)@,
            at as int,
            i8_be(value),
        ),
        at + 1 > old(out)@.len() ==> r == Err::<(), EncodeFault>(EncodeFault::BufferTooSmall)
            && final(out)@ == old(out)@,
{
    if at > out.len() {
        return Err(EncodeFault::BufferTooSmall);
    }
    match encode_i8(value, out, at) {
        Ok(_) => Ok(()),
        Err(_) => Err(EncodeFault::BufferTooSmall),
    }
}

/// Writes `value` as two big-endian two's-complement bytes at offset `at` of
/// `out`.
pub fn put_i16(value: i16, out: &mut [u8], at: usize) -> (r: Result<(), EncodeFault>)
    ensures
        at + 2 <= old(out)@.len() ==> r is Ok && final(out)@ == splice(
            old(out)@,
            at as int,
            i16_be(value),
        ),
        at + 2 > old(out)@.len() ==> r == Err::<(), EncodeFault>(EncodeFault::BufferTooSmall)
            && final(out)@ == old(out)@,
{
    if at > out.len() {
        return Err(EncodeFault::BufferTooSmall);
    }
    match encode_i16(value, out, at) {
        Ok(_) => Ok(()),
        Err(_) => Err(EncodeFault::BufferTooSmall),
    }
}

/// Writes `value` as four big-endian two's-complement bytes at offset `at` of
/// `out`.
pub fn put_i32(value: i32, out: &mut [u8], at: usize) -> (r: Result<(), EncodeFault>)
    ensures
        at + 4 <= old(out)@.len() ==> r is Ok && final(out)@ == splice(
            old(out)@,
            at as int,
            i32_be(value),
        ),
        at + 4 > old(out)@.len() ==> r == Err::<(), EncodeFault>(EncodeFault::BufferTooSmall)
            && final(out)@ == old(out)@,
{
    if at > out.len() {
        return Err(EncodeFault::BufferTooSmall);
    }
    match encode_i32(value, out, at) {
        Ok(_) => Ok(()),
        Err(_) => Err(EncodeFault::BufferTooSmall),
    }
}

/// Reading back what was written gives the value, whatever surrounds it.
pub proof fn lemma_u8_round_trip(x: u8, buf: Seq<u8>, at: int)
    requires
        0 <= at,
        at + 1 <= buf.len(),
    ensures
        be_u8(splice(buf, at, u8_be(x)), at) == x,
{
}

/// Reading back what was written gives the value, whatever surrounds it.
pub proof fn lemma_u16_round_trip(x: u16, buf: Seq<u8>, at: int)
    requires
        0 <= at,
        at + 2 <= buf.len(),
    ensures
        be_u16(splice(buf, at, u16_be(x)), at) == x,
{
}

/// Reading back what was written gives the value, whatever surrounds it.
pub proof fn lemma_u32_round_trip(x: u32, buf: Seq<u8>, at: int)
    requires
        0 <= at,
        at + 4 <= buf.len(),
    ensures
        be_u32(splice(buf, at, u32_be(x)), at) == x,
{
}

/// Reading back what was written gives the value, whatever surrounds it.
pub proof fn lemma_i8_round_trip(x: i8, buf: Seq<u8>, at: int)
    requires
        0 <= at,
        at + 1 <= buf.len(),
    ensures
        be_i8(splice(buf, at, i8_be(x)), at) == x,
{
    if x < 0 {
        lemma_u8_round_trip((x + 0x100) as u8, buf, at);
    } else {
        lemma_u8_round_trip(x as u8, buf, at);
    }
}

/// Reading back what was written gives the value, whatever surrounds it.
pub proof fn lemma_i16_round_trip(x: i16, buf: Seq<u8>, at: int)
    requires
        0 <= at,
        at + 2 <= buf.len(),
    ensures
        be_i16(splice(buf, at, i16_be(x)), at) == x,
{
    if x < 0 {
        lemma_u16_round_trip((x + 0x1_0000) as u16, buf, at);
    } else {
        lemma_u16_round_trip(x as u16, buf, at);
    }
}

/// Reading back what was written gives the value, whatever surrounds it.
pub proof fn lemma_i32_round_trip(x: i32, buf: Seq<u8>, at: int)
    requires
        0 <= at,
        at + 4 <= buf.len(),
    ensures
        be_i32(splice(buf, at, i32_be(x)), at) == x,
{
    if x < 0 {
        lemma_u32_round_trip((x + 0x1_0000_0000) as u32, buf, at);
    } else {
        lemma_u32_round_trip(x as u32, buf, at);
    }
}

/// Writing a piece right behind what was written from the start of a buffer
/// is writing both in one go.
pub proof fn lemma_splice_append(buf: Seq<u8>, written: Seq<u8>, piece: Seq<u8>)
    requires
        written.len() + piece.len() <= buf.len(),
    ensures
        splice(splice(buf, 0, written), written.len() as int, piece) == splice(
            buf,
            0,
            written + piece,
        ),
{
    assert(splice(splice(buf, 0, written), written.len() as int, piece) =~= splice(
        buf,
        0,
        written + piece,
    ));
}

} // verus!
