//! Trusted wrappers for IEEE 754 single-precision arithmetic.
//!
//! Verified code stores every scalar sample as its 32-bit pattern. Each
//! wrapper decodes its operands, performs exactly one machine operation, and
//! returns the result's bit pattern; the operation's outcome is named by an
//! uninterpreted spec function of the operand patterns alone, which is sound
//! because these operations are deterministic functions of their operands.
//!
//! The names read the operations as functions of their operands for a fixed
//! binary on a fixed machine: the bit pattern of a produced NaN and the last
//! digit of the platform's base-ten logarithm are not pinned across
//! platforms, which is exactly the determinism (repeated runs, process
//! restarts) the library promises and no more.

use byteorder::ReadBytesExt;
use byteorder::WriteBytesExt;
use vstd::prelude::*;

verus! {

/// Bit pattern of the single-precision value zero.
pub const ZERO_BITS: u32 = 0x0000_0000;

/// Bit pattern of the single-precision value one half.
pub const HALF_BITS: u32 = 0x3F00_0000;

/// Bit pattern of the single-precision value one.
pub const ONE_BITS: u32 = 0x3F80_0000;

/// Bit pattern of the single-precision value two.
pub const TWO_BITS: u32 = 0x4000_0000;

/// Bit pattern of the single-precision value four.
pub const FOUR_BITS: u32 = 0x4080_0000;

/// Bit pattern of the single-precision value six.
pub const SIX_BITS: u32 = 0x40C0_0000;

/// Bit pattern of the single-precision value two hundred fifty-five.
pub const MAX_BYTE_BITS: u32 = 0x437F_0000;

/// Bit pattern of the single-precision sum of the values with the given
/// bit patterns.
pub uninterp spec fn add_bits(a: u32, b: u32) -> u32;

/// Bit pattern of the single-precision difference of the values with the
/// given bit patterns.
pub uninterp spec fn sub_bits(a: u32, b: u32) -> u32;

/// Bit pattern of the single-precision product of the values with the given
/// bit patterns.
pub uninterp spec fn mul_bits(a: u32, b: u32) -> u32;

/// Bit pattern of the single-precision quotient of the values with the given
/// bit patterns.
pub uninterp spec fn div_bits(a: u32, b: u32) -> u32;

/// Bit pattern of the value with the given bit pattern clamped between zero
/// and one.
pub uninterp spec fn clamp01_bits(v: u32) -> u32;

/// The value with the given bit pattern truncated and saturated to a byte.
pub uninterp spec fn byte_of_bits(v: u32) -> u8;

/// Base-ten logarithm of the value with the given bit pattern, truncated and
/// saturated to a machine word.
pub uninterp spec fn log10_usize_of(v: u32) -> usize;

/// Decimal rendering, one fractional digit, right-aligned to at least the
/// given width, of the value with the given bit pattern.
pub uninterp spec fn fixed1_text(v: u32, width: int) -> Seq<char>;

/// Bit pattern of the single-precision value nearest to the given machine
/// word.
pub uninterp spec fn usize_bits_of(x: int) -> u32;

/// Relies on the machine's single-precision addition; the sum's bit pattern
/// is a function of the operands' bit patterns.
#[verifier::external_body]
pub(crate) fn scalar_add(a: u32, b: u32) -> (r: u32)
    ensures
        r == add_bits(a, b),
{
    let x = std::io::Cursor::new(a.to_le_bytes()).read_f32::<byteorder::LittleEndian>().unwrap();
    let y = std::io::Cursor::new(b.to_le_bytes()).read_f32::<byteorder::LittleEndian>().unwrap();
    (x + y).to_bits()
}

/// Relies on the machine's single-precision subtraction; the difference's bit
/// pattern is a function of the operands' bit patterns.
#[verifier::external_body]
pub(crate) fn scalar_sub(a: u32, b: u32) -> (r: u32)
    ensures
        r == sub_bits(a, b),
{
    let x = std::io::Cursor::new(a.to_le_bytes()).read_f32::<byteorder::LittleEndian>().unwrap();
    let y = std::io::Cursor::new(b.to_le_bytes()).read_f32::<byteorder::LittleEndian>().unwrap();
    (x - y).to_bits()
}

/// Relies on the machine's single-precision multiplication; the product's bit
/// pattern is a function of the operands' bit patterns.
#[verifier::external_body]
pub(crate) fn scalar_mul(a: u32, b: u32) -> (r: u32)
    ensures
        r == mul_bits(a, b),
{
    let x = std::io::Cursor::new(a.to_le_bytes()).read_f32::<byteorder::LittleEndian>().unwrap();
    let y = std::io::Cursor::new(b.to_le_bytes()).read_f32::<byteorder::LittleEndian>().unwrap();
    (x * y).to_bits()
}

/// Relies on the machine's single-precision division; the quotient's bit
/// pattern is a function of the operands' bit patterns.
#[verifier::external_body]
pub(crate) fn scalar_div(a: u32, b: u32) -> (r: u32)
    ensures
        r == div_bits(a, b),
{
    let x = std::io::Cursor::new(a.to_le_bytes()).read_f32::<byteorder::LittleEndian>().unwrap();
    let y = std::io::Cursor::new(b.to_le_bytes()).read_f32::<byteorder::LittleEndian>().unwrap();
    (x / y).to_bits()
}

/// Relies on the clamp method of the single-precision type, between zero and
/// one; per its documentation the result is the value itself, zero, or one.
#[verifier::external_body]
pub(crate) fn scalar_clamp01(v: u32) -> (r: u32)
    ensures
        r == clamp01_bits(v),
        r == v || r == ZERO_BITS || r == ONE_BITS,
{
    let x = std::io::Cursor::new(v.to_le_bytes()).read_f32::<byteorder::LittleEndian>().unwrap();
    x.clamp((0 as _), (1 as _)).to_bits()
}

/// Relies on the saturating cast from the single-precision type to a byte.
#[verifier::external_body]
pub(crate) fn scalar_to_byte(v: u32) -> (r: u8)
    ensures
        r == byte_of_bits(v),
{
    let x = std::io::Cursor::new(v.to_le_bytes()).read_f32::<byteorder::LittleEndian>().unwrap();
    x as u8
}

/// Relies on the base-ten logarithm method of the single-precision type and
/// on the saturating cast to a machine word.
#[verifier::external_body]
pub(crate) fn scalar_log10_usize(v: u32) -> (r: usize)
    ensures
        r == log10_usize_of(v),
{
    let x = std::io::Cursor::new(v.to_le_bytes()).read_f32::<byteorder::LittleEndian>().unwrap();
    x.log10() as usize
}

/// Relies on the standard formatter: one fractional digit, right-aligned to
/// at least the given width; the text depends on the value alone, is at
/// least the given width long, and holds no carriage return or line feed.
#[verifier::external_body]
pub(crate) fn scalar_format_fixed1(v: u32, width: usize) -> (r: String)
    ensures
        r@ == fixed1_text(v, width as int),
        r@.len() >= width,
        forall|i: int| 0 <= i < r@.len() ==> r@[i] != '\r' && r@[i] != '\n',
{
    let x = std::io::Cursor::new(v.to_le_bytes()).read_f32::<byteorder::LittleEndian>().unwrap();
    format!("{:w$.1}", x, w = width)
}

/// Relies on the rounding cast from a machine word to the single-precision
/// type.
#[verifier::external_body]
pub(crate) fn scalar_from_usize(x: usize) -> (r: u32)
    ensures
        r == usize_bits_of(x as int),
{
    let mut buf = [0u8; 4];
    (&mut buf[..]).write_f32::<byteorder::LittleEndian>(x as _).unwrap();
    u32::from_le_bytes(buf)
}

} // verus!
