//! A byte sequence read as a big-endian bit stream.
//!
//! Bit `0` of the stream is the most significant bit of byte `0`.  A field is a
//! run of consecutive bits read as an unsigned number, first bit most
//! significant.  Everything here is plain integer arithmetic: a bit is a
//! quotient taken modulo two.

use vstd::prelude::*;
use vstd::arithmetic::div_mod::{lemma_basic_div, lemma_div_denominator};
use vstd::arithmetic::power2::{
    lemma2_to64,
    lemma_pow2_pos,
    lemma_pow2_strictly_increases,
    lemma_pow2_unfold,
    pow2,
};

verus! {

/// Place value of bit `k` of a byte, where bit `0` is the most significant.
pub open spec fn weight(k: int) -> int {
    if k == 0 {
        128
    } else if k == 1 {
        64
    } else if k == 2 {
        32
    } else if k == 3 {
        16
    } else if k == 4 {
        8
    } else if k == 5 {
        4
    } else if k == 6 {
        2
    } else {
        1
    }
}

/// Bit `k` of `byte`, where bit `0` is the most significant.
pub open spec fn bit_of(byte: u8, k: int) -> int {
    (byte as int / weight(k)) % 2
}

/// Bit `i` of the stream `bytes`.
pub open spec fn bit_at(bytes: Seq<u8>, i: int) -> int {
    bit_of(bytes[i / 8], i % 8)
}

/// The unsigned number held in the `width` bits that start at bit `offset`.
pub open spec fn field(bytes: Seq<u8>, offset: int, width: nat) -> int
    decreases width,
{
    if width == 0 {
        0
    } else {
        2 * field(bytes, offset, (width - 1) as nat) + bit_at(bytes, offset + width - 1)
    }
}

/// The field of `n` bits at bit `o` lies inside a stream of `total` bits and
/// shares no bit with the field of `width` bits at bit `offset`.
pub open spec fn apart(o: int, n: nat, offset: int, width: nat, total: int) -> bool {
    0 <= o && o + n <= total && (o + n <= offset || offset + width <= o)
}

/// A field of `width` bits holds a number below `2^width`.
pub proof fn lemma_field_bound(bytes: Seq<u8>, offset: int, width: nat)
    ensures
        0 <= field(bytes, offset, width) < pow2(width),
    decreases width,
{
    if width == 0 {
        lemma2_to64();
    } else {
        lemma_field_bound(bytes, offset, (width - 1) as nat);
        lemma_pow2_unfold(width);
    }
}

/// Two streams that agree on every bit of a field hold the same number there.
pub proof fn lemma_field_agree(a: Seq<u8>, b: Seq<u8>, offset: int, width: nat)
    requires
        forall|i: int| offset <= i < offset + width ==> bit_at(a, i) == bit_at(b, i),
    ensures
        field(a, offset, width) == field(b, offset, width),
    decreases width,
{
    if width > 0 {
        lemma_field_agree(a, b, offset, (width - 1) as nat);
    }
}

/// A field holds the same number in two streams that agree on its bits, also
/// where the field starts at another bit in the one than in the other.
pub proof fn lemma_field_agree_shifted(a: Seq<u8>, b: Seq<u8>, at_a: int, at_b: int, width: nat)
    requires
        forall|i: int|
            at_a <= i < at_a + width ==> #[trigger] bit_at(a, i) == bit_at(b, i - at_a + at_b),
    ensures
        field(a, at_a, width) == field(b, at_b, width),
    decreases width,
{
    if width > 0 {
        lemma_field_agree_shifted(a, b, at_a, at_b, (width - 1) as nat);
        assert(bit_at(a, at_a + width - 1) == bit_at(b, at_b + width - 1));
    }
}

/// Two streams that hold the same number in a field agree on every bit of it.
pub proof fn lemma_field_bits(a: Seq<u8>, b: Seq<u8>, offset: int, width: nat)
    requires
        field(a, offset, width) == field(b, offset, width),
    ensures
        forall|i: int| offset <= i < offset + width ==> bit_at(a, i) == bit_at(b, i),
    decreases width,
{
    if width > 0 {
        lemma_field_bits(a, b, offset, (width - 1) as nat);
    }
}

/// A byte is the weighted sum of its eight bits.
pub proof fn lemma_byte_of_bits(byte: u8)
    ensures
        byte as int == 128 * bit_of(byte, 0) + 64 * bit_of(byte, 1) + 32 * bit_of(byte, 2) + 16
            * bit_of(byte, 3) + 8 * bit_of(byte, 4) + 4 * bit_of(byte, 5) + 2 * bit_of(byte, 6)
            + bit_of(byte, 7),
{
    assert(byte == 128 * ((byte / 128) % 2) + 64 * ((byte / 64) % 2) + 32 * ((byte / 32) % 2) + 16
        * ((byte / 16) % 2) + 8 * ((byte / 8) % 2) + 4 * ((byte / 4) % 2) + 2 * ((byte / 2) % 2) + (
    byte / 1) % 2) by (bit_vector);
}

/// A byte whose bit of place value `w` is clear has room for `w`; one whose
/// bit is set is at least `w`.
proof fn lemma_bit_room(byte: u8, w: u8)
    by (bit_vector)
    requires
        w == 128 || w == 64 || w == 32 || w == 16 || w == 8 || w == 4 || w == 2 || w == 1,
    ensures
        (byte / w) % 2 == 0 ==> byte + w <= 255,
        (byte / w) % 2 == 1 ==> byte >= w,
{
}

/// Adding the place value `w` to a byte whose bit there is clear sets that bit
/// and changes no other.
proof fn lemma_set_bit(byte: u8, w: u8, v: u8, r: u8)
    by (bit_vector)
    requires
        w == 128 || w == 64 || w == 32 || w == 16 || w == 8 || w == 4 || w == 2 || w == 1,
        v == 128 || v == 64 || v == 32 || v == 16 || v == 8 || v == 4 || v == 2 || v == 1,
        (byte / w) % 2 == 0,
        r == byte + w,
    ensures
        (r / w) % 2 == 1,
        v != w ==> (r / v) % 2 == (byte / v) % 2,
{
}

/// Taking the place value `w` from a byte whose bit there is set clears that
/// bit and changes no other.
proof fn lemma_clear_bit(byte: u8, w: u8, v: u8, r: u8)
    by (bit_vector)
    requires
        w == 128 || w == 64 || w == 32 || w == 16 || w == 8 || w == 4 || w == 2 || w == 1,
        v == 128 || v == 64 || v == 32 || v == 16 || v == 8 || v == 4 || v == 2 || v == 1,
        (byte / w) % 2 == 1,
        r == byte - w,
    ensures
        (r / w) % 2 == 0,
        v != w ==> (r / v) % 2 == (byte / v) % 2,
{
}

/// Bit `k` of byte `j` is bit `8 * j + k` of the stream.
pub proof fn lemma_bit_in_byte(bytes: Seq<u8>, j: int, k: int)
    requires
        0 <= k < 8,
    ensures
        bit_at(bytes, 8 * j + k) == bit_of(bytes[j], k),
{
    assert((8 * j + k) / 8 == j && (8 * j + k) % 8 == k);
}

/// Two bytes that agree on each of their eight bits are the same byte.
proof fn lemma_same_bits_same_byte(x: u8, y: u8)
    requires
        forall|k: int| 0 <= k < 8 ==> bit_of(x, k) == bit_of(y, k),
    ensures
        x == y,
{
    lemma_byte_of_bits(x);
    lemma_byte_of_bits(y);
    assert(bit_of(x, 0) == bit_of(y, 0));
    assert(bit_of(x, 1) == bit_of(y, 1));
    assert(bit_of(x, 2) == bit_of(y, 2));
    assert(bit_of(x, 3) == bit_of(y, 3));
    assert(bit_of(x, 4) == bit_of(y, 4));
    assert(bit_of(x, 5) == bit_of(y, 5));
    assert(bit_of(x, 6) == bit_of(y, 6));
    assert(bit_of(x, 7) == bit_of(y, 7));
}

/// Two streams of the same length that agree on every bit are the same bytes.
pub proof fn lemma_same_bits_same_bytes(a: Seq<u8>, b: Seq<u8>)
    requires
        a.len() == b.len(),
        forall|i: int| 0 <= i < 8 * a.len() ==> bit_at(a, i) == bit_at(b, i),
    ensures
        a == b,
{
    assert forall|j: int| 0 <= j < a.len() implies a[j] == b[j] by {
        assert forall|k: int| 0 <= k < 8 implies bit_of(a[j], k) == bit_of(b[j], k) by {
            lemma_bit_in_byte(a, j, k);
            lemma_bit_in_byte(b, j, k);
            assert(bit_at(a, 8 * j + k) == bit_at(b, 8 * j + k));
        }
        lemma_same_bits_same_byte(a[j], b[j]);
    }
    assert(a =~= b);
}

/// Place value of bit `k` of a byte.
fn place(k: usize) -> (w: u8)
    requires
        k < 8,
    ensures
        w == weight(k as int),
{
    if k == 0 {
        128
    } else if k == 1 {
        64
    } else if k == 2 {
        32
    } else if k == 3 {
        16
    } else if k == 4 {
        8
    } else if k == 5 {
        4
    } else if k == 6 {
        2
    } else {
        1
    }
}

/// `byte` with bit `k` replaced by `bit`.
fn with_bit(byte: u8, k: usize, bit: u8) -> (r: u8)
    requires
        k < 8,
        bit <= 1,
    ensures
        bit_of(r, k as int) == bit,
        forall|t: int| 0 <= t < 8 && t != k ==> bit_of(r, t) == bit_of(byte, t),
{
    let w = place(k);
    let cur = (byte / w) % 2;
    proof {
        lemma_bit_room(byte, w);
    }
    if cur == bit {
        byte
    } else if bit == 1 {
        let r = byte + w;
        proof {
            assert forall|t: int| 0 <= t < 8 implies (r / w) % 2 == 1 && (t != k ==> bit_of(r, t)
                == bit_of(byte, t)) by {
                lemma_set_bit(byte, w, weight(t) as u8, r);
            }
        }
        r
    } else {
        let r = byte - w;
        proof {
            assert forall|t: int| 0 <= t < 8 implies (r / w) % 2 == 0 && (t != k ==> bit_of(r, t)
                == bit_of(byte, t)) by {
                lemma_clear_bit(byte, w, weight(t) as u8, r);
            }
        }
        r
    }
}

/// `2^width` as a machine integer.
pub(crate) fn power_of_two(width: usize) -> (p: u64)
    requires
        width <= 32,
    ensures
        p == pow2(width as nat),
{
    let mut p: u64 = 1;
    let mut k: usize = 0;
    proof {
        lemma2_to64();
    }
    while k < width
        invariant
            k <= width <= 32,
            p == pow2(k as nat),
            pow2(32) == 0x1_0000_0000,
        decreases width - k,
    {
        proof {
            lemma_pow2_unfold((k + 1) as nat);
            if k + 1 < 32 {
                lemma_pow2_strictly_increases((k + 1) as nat, 32);
            }
        }
        p = 2 * p;
        k += 1;
    }
    p
}

/// Reads the field of `width` bits at bit `offset`.
pub fn read_bits(bytes: &[u8], offset: usize, width: usize) -> (value: u64)
    requires
        width <= 32,
        offset + width <= 8 * bytes@.len(),
        offset + width <= usize::MAX,
    ensures
        value == field(bytes@, offset as int, width as nat),
        value < pow2(width as nat),
{
    let mut value: u64 = 0;
    let mut k: usize = 0;
    proof {
        lemma2_to64();
    }
    while k < width
        invariant
            k <= width <= 32,
            offset + width <= 8 * bytes@.len(),
            offset + width <= usize::MAX,
            value == field(bytes@, offset as int, k as nat),
            pow2(32) == 0x1_0000_0000,
        decreases width - k,
    {
        let p = offset + k;
        let bit = (bytes[p / 8] / place(p % 8)) % 2;
        proof {
            lemma_field_bound(bytes@, offset as int, k as nat);
            lemma_pow2_strictly_increases(k as nat, 32);
        }
        value = 2 * value + bit as u64;
        k += 1;
    }
    proof {
        lemma_field_bound(bytes@, offset as int, width as nat);
    }
    value
}

/// Writes `value` into the field of `width` bits at bit `offset` and leaves
/// every other bit as it was.
pub fn write_bits<const N: usize>(buf: &mut [u8; N], offset: usize, width: usize, value: u64)
    requires
        width <= 32,
        offset + width <= 8 * N,
        offset + width <= usize::MAX,
        value < pow2(width as nat),
    ensures
        field(final(buf)@, offset as int, width as nat) == value,
        forall|i: int|
            0 <= i < 8 * N && !(offset <= i < offset + width) ==> bit_at(final(buf)@, i) == bit_at(
                old(buf)@,
                i,
            ),
        forall|o: int, n: nat|
            apart(o, n, offset as int, width as nat, 8 * N) ==> #[trigger] field(final(buf)@, o, n)
                == field(old(buf)@, o, n),
{
    let ghost start = buf@;
    let mut scale: u64 = power_of_two(width);
    let mut k: usize = 0;
    proof {
        lemma_pow2_pos(width as nat);
        lemma_basic_div(value as int, scale as int);
    }
    while k < width
        invariant
            k <= width <= 32,
            offset + width <= 8 * N,
            offset + width <= usize::MAX,
            scale == pow2((width - k) as nat),
            field(buf@, offset as int, k as nat) == value as int / scale as int,
            forall|i: int|
                0 <= i < 8 * N && !(offset <= i < offset + k) ==> bit_at(buf@, i) == bit_at(
                    start,
                    i,
                ),
        decreases width - k,
    {
        proof {
            lemma_pow2_unfold((width - k) as nat);
            lemma_pow2_pos((width - k - 1) as nat);
        }
        let ghost wide = scale;
        scale = scale / 2;
        let bit: u8 = ((value / scale) % 2) as u8;
        let p = offset + k;
        let ghost before = buf@;
        let byte = buf[p / 8];
        buf[p / 8] = with_bit(byte, p % 8, bit);
        proof {
            assert forall|i: int| 0 <= i < 8 * N && i != p implies bit_at(buf@, i) == bit_at(
                before,
                i,
            ) by {
                if i / 8 == p / 8 {
                    assert(i % 8 != p % 8);
                }
            }
            assert(bit_at(buf@, p as int) == bit);
            lemma_field_agree(before, buf@, offset as int, k as nat);
            lemma_div_denominator(value as int, scale as int, 2);
            assert(wide == scale * 2);
        }
        k += 1;
    }
    proof {
        lemma2_to64();
        assert forall|o: int, n: nat|
            apart(o, n, offset as int, width as nat, 8 * N) implies #[trigger] field(buf@, o, n)
            == field(start, o, n) by {
            lemma_field_agree(buf@, start, o, n);
        }
    }
}

} // verus!
