//! Pure bit-field extraction for the six RV32I instruction formats.
//!
//! Every function here is total over its 32-bit input: any pattern has
//! a well-defined field extraction. Whether the extracted opcode and
//! function codes name a real instruction is decided by the execution
//! engine, not here.
//!
//! Each executable extractor is specified against a spec function that
//! states the field's bit layout directly, and the scattered B-type and
//! J-type immediates carry round-trip lemmas showing that the layout
//! written here inverts the encoding of every representable offset.

use vstd::prelude::*;

verus! {

/// The unsigned value of the inclusive bit range `[lower, upper]` of
/// `w`, right-justified.
pub open spec fn spec_bits(w: u32, upper: u32, lower: u32) -> u32
    recommends
        lower <= upper <= 31,
{
    (w >> lower) & (0xFFFF_FFFFu32 >> ((31 - (upper - lower)) as u32))
}

/// Bits [6:0], the 7-bit instruction-group selector.
pub open spec fn spec_opcode(w: u32) -> u8 {
    (w & 0x7f) as u8
}

/// Bits [11:7], the destination register.
pub open spec fn spec_rd(w: u32) -> u8 {
    ((w >> 7) & 0x1f) as u8
}

/// Bits [14:12], the primary function code.
pub open spec fn spec_funct3(w: u32) -> u32 {
    (w >> 12) & 0x7
}

/// Bits [19:15], the first source register.
pub open spec fn spec_rs1(w: u32) -> u8 {
    ((w >> 15) & 0x1f) as u8
}

/// Bits [24:20], the second source register.
pub open spec fn spec_rs2(w: u32) -> u8 {
    ((w >> 20) & 0x1f) as u8
}

/// Bits [31:25], the secondary function code.
pub open spec fn spec_funct7(w: u32) -> u32 {
    w >> 25
}

/// The I-type immediate: bits [31:20], sign-extended from bit 11.
pub open spec fn spec_i_imm(w: u32) -> u32 {
    if w & 0x8000_0000 == 0 {
        w >> 20
    } else {
        (w >> 20) | 0xFFFF_F000
    }
}

/// The S-type immediate: bits [31:25] above bits [11:7], sign-extended
/// from bit 11.
pub open spec fn spec_s_imm(w: u32) -> u32 {
    let v = (((w >> 25) & 0x7f) << 5) | ((w >> 7) & 0x1f);
    if w & 0x8000_0000 == 0 {
        v
    } else {
        v | 0xFFFF_F000
    }
}

/// The B-type immediate, a 13-bit even branch offset scattered over the
/// word: bit 12 from word bit 31, bit 11 from word bit 7, bits [10:5]
/// from word bits [30:25], bits [4:1] from word bits [11:8]; bit 0 is
/// always 0. Sign-extended from bit 12.
pub open spec fn spec_b_imm(w: u32) -> u32 {
    let v = (((w >> 31) & 1) << 12) | (((w >> 7) & 1) << 11) | (((w >> 25) & 0x3f) << 5) | (((w
        >> 8) & 0xf) << 1);
    if w & 0x8000_0000 == 0 {
        v
    } else {
        v | 0xFFFF_E000
    }
}

/// The U-type immediate: bits [31:12] left in place, low 12 bits zero.
pub open spec fn spec_u_imm(w: u32) -> u32 {
    w & 0xFFFF_F000
}

/// The J-type immediate, a 21-bit even jump offset scattered over the
/// word: bit 20 from word bit 31, bits [19:12] from word bits [19:12],
/// bit 11 from word bit 20, bits [10:1] from word bits [30:21]; bit 0
/// is always 0. Sign-extended from bit 20.
pub open spec fn spec_j_imm(w: u32) -> u32 {
    let v = (((w >> 31) & 1) << 20) | (w & 0xFF000) | (((w >> 20) & 1) << 11) | (((w >> 21)
        & 0x3ff) << 1);
    if w & 0x8000_0000 == 0 {
        v
    } else {
        v | 0xFFE0_0000
    }
}

/// The register and function fields of any instruction word are small:
/// register indices fit in 5 bits, `funct3` in 3 and `funct7` in 7.
pub proof fn lemma_fields_bounded(w: u32)
    by (bit_vector)
    ensures
        spec_opcode(w) < 128,
        spec_rd(w) < 32,
        spec_funct3(w) < 8,
        spec_rs1(w) < 32,
        spec_rs2(w) < 32,
        spec_funct7(w) < 128,
{
}

/// Extracts the inclusive bit range `[lower, upper]` of `bits`,
/// right-justified. The single primitive every other extractor can be
/// phrased in.
pub fn bits_from_to(bits: u32, upper: u32, lower: u32) -> (r: u32)
    requires
        lower <= upper,
        upper <= 31,
    ensures
        r == spec_bits(bits, upper, lower),
{
    let r = (bits << (31 - upper)) >> (lower + (31 - upper));
    proof {
        assert((bits << ((31 - upper) as u32)) >> ((lower + (31 - upper)) as u32) == (bits
            >> lower) & (0xFFFF_FFFFu32 >> ((31 - (upper - lower)) as u32))) by (bit_vector)
            requires
                lower <= upper,
                upper <= 31,
        ;
    }
    r
}

/// A bit range is the whole word when it spans [0, 31].
pub proof fn lemma_bits_whole(w: u32)
    by (bit_vector)
    ensures
        spec_bits(w, 31, 0) == w,
{
}

/// Splitting a bit range at any interior point loses nothing: the two
/// pieces, shifted back into position, reassemble the range. Together
/// with [`lemma_bits_whole`] this shows that extraction over any set of
/// non-overlapping ranges covering [0, 31] reconstructs the word.
pub proof fn lemma_bits_split(w: u32, upper: u32, mid: u32, lower: u32)
    by (bit_vector)
    requires
        lower <= mid,
        mid < upper,
        upper <= 31,
    ensures
        spec_bits(w, upper, lower) == (spec_bits(w, upper, (mid + 1) as u32) << ((mid + 1
            - lower) as u32)) | spec_bits(w, mid, lower),
{
}

/// `cuts` describes a partition of the bit positions [lo, 31] into
/// consecutive inclusive ranges: each entry is the upper end of one
/// range below the last, which always reaches 31.
pub open spec fn valid_cuts(lo: u32, cuts: Seq<u32>) -> bool
    decreases cuts.len(),
{
    if cuts.len() == 0 {
        lo <= 31
    } else {
        lo <= cuts[0] && cuts[0] <= 30 && valid_cuts((cuts[0] + 1) as u32, cuts.drop_first())
    }
}

/// The bits [lo, 31] of `w` rebuilt from the extraction of each range
/// of the partition that `cuts` describes, each piece shifted back to
/// its position.
pub open spec fn recombine(w: u32, lo: u32, cuts: Seq<u32>) -> u32
    recommends
        valid_cuts(lo, cuts),
    decreases cuts.len(),
{
    if cuts.len() == 0 {
        spec_bits(w, 31, lo)
    } else {
        (recombine(w, (cuts[0] + 1) as u32, cuts.drop_first()) << ((cuts[0] + 1 - lo) as u32))
            | spec_bits(w, cuts[0], lo)
    }
}

proof fn lemma_recombine(w: u32, lo: u32, cuts: Seq<u32>)
    requires
        valid_cuts(lo, cuts),
    ensures
        recombine(w, lo, cuts) == spec_bits(w, 31, lo),
    decreases cuts.len(),
{
    if cuts.len() > 0 {
        lemma_recombine(w, (cuts[0] + 1) as u32, cuts.drop_first());
        lemma_bits_split(w, 31, cuts[0], lo);
    }
}

/// Extraction composed over any set of non-overlapping bit ranges
/// covering [0, 31] reconstructs the word exactly, for every word.
pub proof fn lemma_bits_cover_reconstruct(w: u32, cuts: Seq<u32>)
    requires
        valid_cuts(0, cuts),
    ensures
        recombine(w, 0, cuts) == w,
{
    lemma_recombine(w, 0, cuts);
    lemma_bits_whole(w);
}

/// The B-type encoding of the even branch offset `off`, placed over the
/// non-immediate fields of `base`.
pub open spec fn encode_b_imm(off: u32, base: u32) -> u32 {
    (base & 0x01FF_F07F) | (((off >> 12) & 1) << 31) | (((off >> 5) & 0x3f) << 25) | (((off >> 1)
        & 0xf) << 8) | (((off >> 11) & 1) << 7)
}

/// Round trip: scattering an even 13-bit signed branch offset into
/// B-type form and extracting it again recovers the offset, for every
/// even offset in [-4096, 4094] and every choice of the remaining
/// instruction fields.
pub proof fn lemma_b_imm_round_trip(off: u32, base: u32)
    by (bit_vector)
    requires
        off & 1 == 0,
        off >> 12 == 0 || off >> 12 == 0xF_FFFF,
    ensures
        spec_b_imm(encode_b_imm(off, base)) == off,
{
}

/// The J-type encoding of the even jump offset `off`, placed over the
/// non-immediate fields of `base`.
pub open spec fn encode_j_imm(off: u32, base: u32) -> u32 {
    (base & 0xFFF) | (((off >> 20) & 1) << 31) | (((off >> 1) & 0x3ff) << 21) | (((off >> 11) & 1)
        << 20) | (((off >> 12) & 0xff) << 12)
}

/// Round trip: scattering an even 21-bit signed jump offset into J-type
/// form and extracting it again recovers the offset, for every even
/// offset in [-1048576, 1048574] and every choice of the remaining
/// instruction fields.
pub proof fn lemma_j_imm_round_trip(off: u32, base: u32)
    by (bit_vector)
    requires
        off & 1 == 0,
        off >> 20 == 0 || off >> 20 == 0xFFF,
    ensures
        spec_j_imm(encode_j_imm(off, base)) == off,
{
}

/// Bits [6:0] of an instruction word, its opcode.
pub fn op_code(instruction: u32) -> (r: u8)
    ensures
        r == spec_opcode(instruction),
{
    proof {
        lemma_fields_bounded(instruction);
        assert(instruction & 0x7f < 128) by (bit_vector);
    }
    (instruction & 0x7f) as u8
}

fn funct3(instruction: u32) -> (r: u32)
    ensures
        r == spec_funct3(instruction),
{
    (instruction >> 12) & 0x7
}

fn rd(instruction: u32) -> (r: u8)
    ensures
        r == spec_rd(instruction),
        r < 32,
{
    proof {
        lemma_fields_bounded(instruction);
        assert((instruction >> 7) & 0x1f < 32) by (bit_vector);
    }
    ((instruction >> 7) & 0x1f) as u8
}

fn rs1(instruction: u32) -> (r: u8)
    ensures
        r == spec_rs1(instruction),
        r < 32,
{
    proof {
        lemma_fields_bounded(instruction);
        assert((instruction >> 15) & 0x1f < 32) by (bit_vector);
    }
    ((instruction >> 15) & 0x1f) as u8
}

fn rs2(instruction: u32) -> (r: u8)
    ensures
        r == spec_rs2(instruction),
        r < 32,
{
    proof {
        lemma_fields_bounded(instruction);
        assert((instruction >> 20) & 0x1f < 32) by (bit_vector);
    }
    ((instruction >> 20) & 0x1f) as u8
}

/// Decodes an R-type word into (rd, funct3, rs1, rs2, funct7).
pub fn r_type(instruction: u32) -> (r: (u8, u32, u8, u8, u32))
    ensures
        r.0 == spec_rd(instruction),
        r.0 < 32,
        r.1 == spec_funct3(instruction),
        r.2 == spec_rs1(instruction),
        r.2 < 32,
        r.3 == spec_rs2(instruction),
        r.3 < 32,
        r.4 == spec_funct7(instruction),
{
    (rd(instruction), funct3(instruction), rs1(instruction), rs2(instruction), instruction >> 25)
}

/// Decodes an I-type word into (rd, funct3, rs1, imm), the immediate
/// sign-extended from bit 11.
pub fn i_type(instruction: u32) -> (r: (u8, u32, u8, u32))
    ensures
        r.0 == spec_rd(instruction),
        r.0 < 32,
        r.1 == spec_funct3(instruction),
        r.2 == spec_rs1(instruction),
        r.2 < 32,
        r.3 == spec_i_imm(instruction),
{
    let imm = if instruction & 0x8000_0000 == 0 {
        instruction >> 20
    } else {
        (instruction >> 20) | 0xFFFF_F000
    };
    (rd(instruction), funct3(instruction), rs1(instruction), imm)
}

/// Decodes an S-type word into (funct3, rs1, rs2, imm), the immediate
/// reassembled from bits [31:25] and [11:7] and sign-extended from bit
/// 11.
pub fn s_type(instruction: u32) -> (r: (u32, u8, u8, u32))
    ensures
        r.0 == spec_funct3(instruction),
        r.1 == spec_rs1(instruction),
        r.1 < 32,
        r.2 == spec_rs2(instruction),
        r.2 < 32,
        r.3 == spec_s_imm(instruction),
{
    let v = (((instruction >> 25) & 0x7f) << 5) | ((instruction >> 7) & 0x1f);
    let imm = if instruction & 0x8000_0000 == 0 {
        v
    } else {
        v | 0xFFFF_F000
    };
    (funct3(instruction), rs1(instruction), rs2(instruction), imm)
}

/// Decodes a B-type word into (funct3, rs1, rs2, imm), the immediate a
/// sign-extended even branch offset gathered from its scattered bits.
pub fn b_type(instruction: u32) -> (r: (u32, u8, u8, u32))
    ensures
        r.0 == spec_funct3(instruction),
        r.1 == spec_rs1(instruction),
        r.1 < 32,
        r.2 == spec_rs2(instruction),
        r.2 < 32,
        r.3 == spec_b_imm(instruction),
{
    let v = (((instruction >> 31) & 1) << 12) | (((instruction >> 7) & 1) << 11) | (((instruction
        >> 25) & 0x3f) << 5) | (((instruction >> 8) & 0xf) << 1);
    let imm = if instruction & 0x8000_0000 == 0 {
        v
    } else {
        v | 0xFFFF_E000
    };
    (funct3(instruction), rs1(instruction), rs2(instruction), imm)
}

/// Decodes a U-type word into (rd, imm), the immediate left in bits
/// [31:12] with the low 12 bits zeroed.
pub fn u_type(instruction: u32) -> (r: (u8, u32))
    ensures
        r.0 == spec_rd(instruction),
        r.0 < 32,
        r.1 == spec_u_imm(instruction),
{
    (rd(instruction), instruction & 0xFFFF_F000)
}

/// Decodes a J-type word into (rd, imm), the immediate a sign-extended
/// even jump offset gathered from its scattered bits.
pub fn j_type(instruction: u32) -> (r: (u8, u32))
    ensures
        r.0 == spec_rd(instruction),
        r.0 < 32,
        r.1 == spec_j_imm(instruction),
{
    let v = (((instruction >> 31) & 1) << 20) | (instruction & 0xFF000) | (((instruction >> 20)
        & 1) << 11) | (((instruction >> 21) & 0x3ff) << 1);
    let imm = if instruction & 0x8000_0000 == 0 {
        v
    } else {
        v | 0xFFE0_0000
    };
    (rd(instruction), imm)
}

/// A 16-bit prefetch whose low two bits are not `0b11` belongs to the
/// compressed encoding.
pub fn is_compressed_instr(instruction: u16) -> (r: bool)
    ensures
        r == (instruction & 0x3 != 0x3),
{
    instruction & 0x3 != 0x3
}

} // verus!
