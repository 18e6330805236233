//! The runtime's value encoding: a word is either an immediate (low bit set)
//! or the address of a block in the heap (low bit clear).
use vstd::prelude::*;

verus! {

/// A raw word of the runtime (a 64-bit word).
pub type RawOCaml = i64;

/// The runtime's immediate integers are one bit narrower than a word.
pub const FIXNUM_HALF_RANGE: i64 = 0x4000_0000_0000_0000;

/// `false` and `()` share this immediate.
pub const FALSE: RawOCaml = 1;

/// The immediate for `true`.
pub const TRUE: RawOCaml = 3;

/// The immediate for `()`.
pub const UNIT: RawOCaml = 1;

/// The immediate for `None`.
pub const NONE: RawOCaml = 1;

/// The immediate for the empty list.
pub const EMPTY_LIST: RawOCaml = 1;

/// Tag of the block that wraps the payload of `Some`.
pub const TAG_SOME: u8 = 0;

/// Tag of a list cell (head, tail).
pub const TAG_CONS: u8 = 0;

/// Tag of a tuple.
pub const TAG_TUPLE: u8 = 0;

/// Tag of the success variant of a result.
pub const TAG_OK: u8 = 0;

/// Tag of the failure variant of a result.
pub const TAG_ERROR: u8 = 1;

/// Tag of a string or byte buffer.
pub const STRING_TAG: u8 = 252;

/// Whether a word is an immediate.
pub open spec fn is_immediate(raw: int) -> bool {
    raw % 2 == 1
}

/// Whether a word addresses a block.
pub open spec fn is_block_word(raw: int) -> bool {
    raw % 2 == 0
}

/// `n` reduced into the range of the runtime's integers, as a shift by one bit
/// in a word would leave it.
pub open spec fn wrap_fixnum(n: int) -> int {
    if n < -0x4000_0000_0000_0000 {
        n + 0x8000_0000_0000_0000
    } else if n < 0x4000_0000_0000_0000 {
        n
    } else {
        n - 0x8000_0000_0000_0000
    }
}

/// The immediate that encodes the integer `n`.
pub open spec fn fixnum(n: int) -> int {
    2 * wrap_fixnum(n) + 1
}

/// The integer that an immediate word encodes (an arithmetic shift right by one).
pub open spec fn fixnum_value(raw: int) -> int {
    raw / 2
}

/// The word that encodes a boolean.
pub open spec fn bool_word(b: bool) -> int {
    if b { TRUE as int } else { FALSE as int }
}

/// Whether `raw` addresses a block.
pub fn is_block(raw: RawOCaml) -> (r: bool)
    ensures
        r == is_block_word(raw as int),
        r == !is_immediate(raw as int),
{
    if raw >= 0 {
        raw % 2 == 0
    } else {
        (-(raw + 1)) % 2 == 1
    }
}

/// Encodes `n` as an immediate; integers outside the runtime's range wrap.
pub fn int_to_raw(n: i64) -> (r: RawOCaml)
    ensures
        r as int == fixnum(n as int),
        is_immediate(r as int),
{
    if n < -FIXNUM_HALF_RANGE {
        let m: i64 = n + FIXNUM_HALF_RANGE + FIXNUM_HALF_RANGE;
        (m * 2 + 1)
    } else if n < FIXNUM_HALF_RANGE {
        (n * 2 + 1)
    } else {
        let m: i64 = n - FIXNUM_HALF_RANGE - FIXNUM_HALF_RANGE;
        (m * 2 + 1)
    }
}

/// Reads the integer out of a word (an arithmetic shift right by one).
pub fn raw_to_int(raw: RawOCaml) -> (r: i64)
    ensures
        r as int == fixnum_value(raw as int),
{
    if raw >= 0 {
        raw / 2
    } else {
        let m: i64 = -(raw + 1);
        -(m / 2) - 1
    }
}

/// Encodes a boolean.
pub fn bool_to_raw(b: bool) -> (r: RawOCaml)
    ensures
        r as int == bool_word(b),
{
    if b { TRUE } else { FALSE }
}

/// Reads a boolean: any word other than `false` counts as `true`.
pub fn raw_to_bool(raw: RawOCaml) -> (r: bool)
    ensures
        r == (raw != FALSE),
{
    raw != FALSE
}

/// Reading an encoded integer back gives the integer as the runtime holds it,
/// which is the integer itself when it lies in the runtime's range.
pub proof fn lemma_fixnum_round_trip(n: int)
    ensures
        fixnum_value(fixnum(n)) == wrap_fixnum(n),
        -0x4000_0000_0000_0000 <= n < 0x4000_0000_0000_0000 ==> fixnum_value(fixnum(n)) == n,
        is_immediate(fixnum(n)),
{
}

/// Two booleans are encoded alike only if they are equal.
pub proof fn lemma_bool_word_injective(a: bool, b: bool)
    ensures
        bool_word(a) == bool_word(b) ==> a == b,
        is_immediate(bool_word(a)),
{
}

} // verus!
