//! Two's-complement arithmetic on 32-bit machine words.
//!
//! RV32I registers hold raw 32-bit patterns; whether a pattern is read
//! as signed or unsigned is decided per instruction. These helpers give
//! both readings a name: wrapping addition and subtraction modulo 2^32,
//! the signed value of a pattern, arithmetic (sign-preserving) right
//! shift, and sign extension of narrower loads.

use vstd::prelude::*;

verus! {

/// Addition modulo 2^32: overflow is silently dropped.
pub open spec fn wadd(x: u32, y: u32) -> u32 {
    if x + y > u32::MAX {
        (x + y - 0x1_0000_0000) as u32
    } else {
        (x + y) as u32
    }
}

/// Subtraction modulo 2^32: underflow wraps around.
pub open spec fn wsub(x: u32, y: u32) -> u32 {
    if x - y < 0 {
        (x - y + 0x1_0000_0000) as u32
    } else {
        (x - y) as u32
    }
}

/// The value of a 32-bit pattern read as a two's-complement signed
/// integer, in the range [-2^31, 2^31).
pub open spec fn to_signed(x: u32) -> int {
    if x < 0x8000_0000 {
        x as int
    } else {
        x as int - 0x1_0000_0000
    }
}

/// Arithmetic right shift: like a logical shift, but copies of the
/// sign bit fill the vacated high bits.
pub open spec fn asr(x: u32, sh: u32) -> u32
    recommends
        sh < 32,
{
    if x & 0x8000_0000 == 0 {
        x >> sh
    } else {
        (x >> sh) | !(0xFFFF_FFFFu32 >> sh)
    }
}

/// The byte `b` sign-extended to 32 bits.
pub open spec fn sext8(b: u8) -> u32 {
    if b < 0x80 {
        b as u32
    } else {
        (b as u32) | 0xFFFF_FF00
    }
}

/// The half-word `h` sign-extended to 32 bits.
pub open spec fn sext16(h: u16) -> u32 {
    if h < 0x8000 {
        h as u32
    } else {
        (h as u32) | 0xFFFF_0000
    }
}

/// Compares two words as signed integers by flipping their sign bits,
/// which maps the signed order onto the unsigned one.
pub fn signed_lt(x: u32, y: u32) -> (r: bool)
    ensures
        r == (to_signed(x) < to_signed(y)),
{
    proof {
        assert((x ^ 0x8000_0000u32) == if x < 0x8000_0000 {
            x + 0x8000_0000
        } else {
            x - 0x8000_0000
        }) by (bit_vector);
        assert((y ^ 0x8000_0000u32) == if y < 0x8000_0000 {
            y + 0x8000_0000
        } else {
            y - 0x8000_0000
        }) by (bit_vector);
    }
    (x ^ 0x8000_0000) < (y ^ 0x8000_0000)
}

/// Arithmetic right shift of `x` by `sh` places.
pub fn arith_shift_right(x: u32, sh: u32) -> (r: u32)
    requires
        sh < 32,
    ensures
        r == asr(x, sh),
{
    if x & 0x8000_0000 == 0 {
        x >> sh
    } else {
        (x >> sh) | !(0xFFFF_FFFFu32 >> sh)
    }
}

/// Sign-extends a loaded byte to a 32-bit word.
pub fn sign_extend_byte(b: u8) -> (r: u32)
    ensures
        r == sext8(b),
{
    let v = b as u32;
    if v < 0x80 {
        v
    } else {
        v | 0xFFFF_FF00
    }
}

/// Sign-extends a loaded half-word to a 32-bit word.
pub fn sign_extend_half(h: u16) -> (r: u32)
    ensures
        r == sext16(h),
{
    let v = h as u32;
    if v < 0x8000 {
        v
    } else {
        v | 0xFFFF_0000
    }
}

} // verus!
