//! The quantization codec: a physical quantity narrowed to a code of a few
//! bits, and widened again.
//!
//! A channel declares a closed interval `[min, max]` and a width of `w` bits.
//! Its codes run from `0` to `2^w - 1`; one step of the code is worth
//! `(max - min) / (2^w - 1)`, the resolution of the channel.  A quantity is a
//! signed integer in the base unit of its channel (millimetres per second,
//! say), so that every result here is exact integer arithmetic:
//!
//! * `encode(v) = round((v - min) * (2^w - 1) / (max - min))`, held into
//!   `[0, 2^w - 1]`, so that a quantity outside the interval saturates;
//! * `decode(c) = min + round(c * (max - min) / (2^w - 1))`.
//!
//! `round` takes the nearest integer and a half upward.

use vstd::prelude::*;
use vstd::arithmetic::div_mod::{
    lemma_fundamental_div_mod,
    lemma_fundamental_div_mod_converse,
    lemma_mod_bound,
};
use vstd::arithmetic::power2::{
    lemma2_to64,
    lemma_pow2_pos,
    lemma_pow2_strictly_increases,
    lemma_pow2_unfold,
    pow2,
};
use crate::bits::power_of_two;

verus! {

/// `n / d` taken to the nearest integer, a half upward.
pub open spec fn round_div(n: int, d: int) -> int {
    (2 * n + d) / (2 * d)
}

/// `x` held into `[lo, hi]`.
pub open spec fn clamp(x: int, lo: int, hi: int) -> int {
    if x < lo {
        lo
    } else if x > hi {
        hi
    } else {
        x
    }
}

/// `round_div(n, d)` lies within half a step of `n / d`.
pub proof fn lemma_round_div(n: int, d: int)
    requires
        d > 0,
    ensures
        2 * (d * round_div(n, d)) <= 2 * n + d < 2 * (d * round_div(n, d)) + 2 * d,
{
    let q = round_div(n, d);
    lemma_fundamental_div_mod(2 * n + d, 2 * d);
    lemma_mod_bound(2 * n + d, 2 * d);
    assert((2 * d) * q == 2 * (d * q)) by (nonlinear_arith);
}

/// The only integer within half a step of `n / d`, a half upward, is
/// `round_div(n, d)`.
pub proof fn lemma_round_div_is(n: int, d: int, q: int)
    requires
        d > 0,
        2 * (d * q) <= 2 * n + d < 2 * (d * q) + 2 * d,
    ensures
        round_div(n, d) == q,
{
    assert(q * (2 * d) == 2 * (d * q)) by (nonlinear_arith);
    lemma_fundamental_div_mod_converse(2 * n + d, 2 * d, q, 2 * n + d - 2 * (d * q));
}

/// Rounding keeps an upper bound that is a whole number of steps.
pub proof fn lemma_round_div_le(n: int, d: int, hi: int)
    requires
        d > 0,
        n <= d * hi,
    ensures
        round_div(n, d) <= hi,
{
    let q = round_div(n, d);
    lemma_round_div(n, d);
    if q >= hi + 1 {
        assert(d * q >= d * hi + d) by (nonlinear_arith)
            requires
                q >= hi + 1,
                d > 0,
        ;
    }
}

/// Rounding keeps a lower bound that is a whole number of steps.
pub proof fn lemma_round_div_ge(n: int, d: int, lo: int)
    requires
        d > 0,
        n >= d * lo,
    ensures
        round_div(n, d) >= lo,
{
    let q = round_div(n, d);
    lemma_round_div(n, d);
    if q <= lo - 1 {
        assert(d * q <= d * lo - d) by (nonlinear_arith)
            requires
                q <= lo - 1,
                d > 0,
        ;
    }
}

/// One quantized channel: its interval and the width of its code.
#[derive(Debug, Clone, Copy, PartialEq, Eq, Structural)]
pub struct Channel {
    /// The smallest quantity the channel tells apart, in its base unit.
    pub min: i32,
    /// The largest quantity the channel tells apart, in its base unit.
    pub max: i32,
    /// The width of the code, from 1 to 32 bits.
    pub bits: u8,
}

impl Channel {
    /// The interval is not empty and the width is one of 1 to 32 bits.
    pub open spec fn wf(&self) -> bool {
        self.min < self.max && 1 <= self.bits <= 32
    }

    /// The length of the interval, `max - min`.
    pub open spec fn span(&self) -> int {
        self.max - self.min
    }

    /// The largest code, `2^w - 1`.
    pub open spec fn levels(&self) -> int {
        pow2(self.bits as nat) - 1
    }

    /// The code that falls on the middle of the unsigned range, `2^(w-1)`:
    /// what a signed code is counted from.
    pub open spec fn half(&self) -> int {
        pow2((self.bits - 1) as nat) as int
    }

    /// `value` lies in the interval of the channel.
    pub open spec fn holds(&self, value: int) -> bool {
        self.min <= value <= self.max
    }

    /// `a` and `b` lie at most one resolution unit apart.  The unit is
    /// `span / levels`, so the distance is taken `levels` times.
    pub open spec fn within_resolution(&self, a: int, b: int) -> bool {
        (a - b) * self.levels() <= self.span() && (b - a) * self.levels() <= self.span()
    }

    /// The unsigned code of `value`.
    pub open spec fn spec_encode(&self, value: int) -> int {
        clamp(round_div((value - self.min) * self.levels(), self.span()), 0, self.levels())
    }

    /// The quantity that an unsigned code stands for; a code above the
    /// largest is read as the largest.
    pub open spec fn spec_decode(&self, code: int) -> int {
        self.min + round_div(clamp(code, 0, self.levels()) * self.span(), self.levels())
    }

    /// The signed code of `value`: its unsigned code counted from the middle
    /// of the range, so that it runs from `-2^(w-1)` to `2^(w-1) - 1`.
    pub open spec fn spec_encode_signed(&self, value: int) -> int {
        self.spec_encode(value) - self.half()
    }

    /// The quantity that a signed code stands for.
    pub open spec fn spec_decode_signed(&self, code: int) -> int {
        self.spec_decode(code + self.half())
    }

    /// The largest code of a well-formed channel fits 32 bits, and the middle
    /// code is one more than half of it.
    pub proof fn lemma_levels(&self)
        requires
            self.wf(),
        ensures
            1 <= self.levels() <= 0xFFFF_FFFF,
            self.levels() == 2 * self.half() - 1,
            1 <= self.half() <= 0x8000_0000,
    {
        lemma2_to64();
        lemma_pow2_unfold(self.bits as nat);
        lemma_pow2_pos((self.bits - 1) as nat);
        if self.bits < 32 {
            lemma_pow2_strictly_increases(self.bits as nat, 32);
        }
    }

    /// A decoded quantity lies in the interval of its channel.
    pub proof fn lemma_decode_in_range(&self, code: int)
        requires
            self.wf(),
        ensures
            self.min <= self.spec_decode(code) <= self.max,
    {
        self.lemma_levels();
        let c = clamp(code, 0, self.levels());
        let s = self.span();
        let l = self.levels();
        assert(c * s >= l * 0 && c * s <= l * s) by (nonlinear_arith)
            requires
                0 <= c <= l,
                s > 0,
        ;
        lemma_round_div_ge(c * s, l, 0);
        lemma_round_div_le(c * s, l, s);
    }

    /// A channel with the given interval and width, if they make one: the
    /// interval must not be empty and the width must be 1 to 32 bits.
    pub fn new(min: i32, max: i32, bits: u8) -> (r: Option<Channel>)
        ensures
            r == (if min < max && 1 <= bits <= 32 {
                Some(Channel { min, max, bits })
            } else {
                None::<Channel>
            }),
            r matches Some(ch) ==> ch.wf(),
    {
        if min < max && 1 <= bits && bits <= 32 {
            Some(Channel { min, max, bits })
        } else {
            None
        }
    }

    /// Whether the channel is well formed.
    pub fn is_valid(&self) -> (ok: bool)
        ensures
            ok == self.wf(),
    {
        self.min < self.max && 1 <= self.bits && self.bits <= 32
    }

    /// The largest code, `2^w - 1`.
    pub fn top_code(&self) -> (top: u32)
        requires
            self.wf(),
        ensures
            top == self.levels(),
    {
        proof {
            self.lemma_levels();
        }
        (power_of_two(self.bits as usize) - 1) as u32
    }

    /// Narrows `value` to its unsigned code.  A quantity below the interval
    /// gets code `0` and one above it the largest code.
    pub fn encode(&self, value: i32) -> (code: u32)
        requires
            self.wf(),
        ensures
            code == self.spec_encode(value as int),
            code <= self.levels(),
    {
        let top = self.top_code();
        let ghost l = self.levels();
        let ghost s = self.span();
        proof {
            self.lemma_levels();
        }
        if value <= self.min {
            proof {
                assert((value - self.min) * l <= s * 0) by (nonlinear_arith)
                    requires
                        value - self.min <= 0,
                        l >= 0,
                ;
                lemma_round_div_le((value - self.min) * l, s, 0);
            }
            return 0;
        }
        if value >= self.max {
            proof {
                assert((value - self.min) * l >= s * l) by (nonlinear_arith)
                    requires
                        value - self.min >= s,
                        l >= 0,
                ;
                lemma_round_div_ge((value - self.min) * l, s, l);
            }
            return top;
        }
        let t: u128 = (value as i64 - self.min as i64) as u128;
        let span: u128 = (self.max as i64 - self.min as i64) as u128;
        proof {
            assert(0 <= t * top && t * top <= span * top && span * top <= 0xFFFF_FFFF * 0xFFFF_FFFF
                && span * top == s * l) by (nonlinear_arith)
                requires
                    0 <= t <= span,
                    span <= 0xFFFF_FFFF,
                    0 <= top <= 0xFFFF_FFFF,
                    span == s,
                    top == l,
            ;
            lemma_round_div_ge(t * top, s, 0);
            lemma_round_div_le(t * top, s, l);
        }
        let n: u128 = t * (top as u128);
        let q: u128 = (2 * n + span) / (2 * span);
        q as u32
    }

    /// Widens an unsigned code to the quantity it stands for.  A code above
    /// the largest is read as the largest.
    pub fn decode(&self, code: u32) -> (value: i32)
        requires
            self.wf(),
        ensures
            value == self.spec_decode(code as int),
            self.min <= value <= self.max,
    {
        let top = self.top_code();
        let ghost l = self.levels();
        let ghost s = self.span();
        let c: u128 = if code > top {
            top as u128
        } else {
            code as u128
        };
        let span: u128 = (self.max as i64 - self.min as i64) as u128;
        proof {
            self.lemma_levels();
            self.lemma_decode_in_range(code as int);
            assert(0 <= c * span && c * span <= 0xFFFF_FFFF * 0xFFFF_FFFF) by (nonlinear_arith)
                requires
                    0 <= c <= 0xFFFF_FFFF,
                    0 <= span <= 0xFFFF_FFFF,
            ;
        }
        let m: u128 = c * span;
        let r: u128 = (2 * m + top as u128) / (2 * (top as u128));
        (self.min as i64 + r as i64) as i32
    }

    /// Narrows `value` to its signed code: the unsigned code counted from
    /// the middle of the range.
    pub fn encode_signed(&self, value: i32) -> (code: i32)
        requires
            self.wf(),
        ensures
            code == self.spec_encode_signed(value as int),
            -self.half() <= code < self.half(),
    {
        proof {
            self.lemma_levels();
        }
        let half: i64 = power_of_two((self.bits - 1) as usize) as i64;
        (self.encode(value) as i64 - half) as i32
    }

    /// Widens a signed code to the quantity it stands for.  A code outside
    /// the range of the channel is read as the nearest code inside it.
    pub fn decode_signed(&self, code: i32) -> (value: i32)
        requires
            self.wf(),
        ensures
            value == self.spec_decode_signed(code as int),
            self.min <= value <= self.max,
    {
        proof {
            self.lemma_levels();
        }
        let half: i64 = power_of_two((self.bits - 1) as usize) as i64;
        let shifted: i64 = code as i64 + half;
        if shifted < 0 {
            self.decode(0)
        } else if shifted > 0xFFFF_FFFF {
            self.decode(0xFFFF_FFFF)
        } else {
            self.decode(shifted as u32)
        }
    }
}

/// Round trip within resolution: a quantity inside the interval comes back
/// from its code at most one resolution unit away.
pub proof fn lemma_round_trip_within_resolution(ch: Channel, value: int)
    requires
        ch.wf(),
        ch.holds(value),
    ensures
        ch.within_resolution(value, ch.spec_decode(ch.spec_encode(value))),
        ch.within_resolution(value, ch.spec_decode_signed(ch.spec_encode_signed(value))),
{
    ch.lemma_levels();
    let l = ch.levels();
    let s = ch.span();
    let t = value - ch.min;
    assert(t * l >= s * 0 && t * l <= s * l) by (nonlinear_arith)
        requires
            0 <= t <= s,
            l > 0,
    ;
    let c = round_div(t * l, s);
    lemma_round_div(t * l, s);
    lemma_round_div_ge(t * l, s, 0);
    lemma_round_div_le(t * l, s, l);
    assert(ch.spec_encode(value) == c);
    let r = round_div(c * s, l);
    lemma_round_div(c * s, l);
    assert(ch.spec_decode(c) == ch.min + r);
    let e = r - t;
    assert(c * s == s * c) by (nonlinear_arith);
    assert(l * e == l * r - t * l) by (nonlinear_arith)
        requires
            e == r - t,
    ;
    // twice the error, in code steps, is within one span and one level
    assert(2 * (l * e) <= s + l);
    assert(2 * (l * e) > -(s + l));
    if s < l {
        assert(e == 0) by (nonlinear_arith)
            requires
                2 * (l * e) < 2 * l,
                2 * (l * e) > -2 * l,
                l > 0,
        ;
    }
    assert((r - t) * l == l * e) by (nonlinear_arith)
        requires
            e == r - t,
    ;
    assert((t - r) * l == -(l * e)) by (nonlinear_arith)
        requires
            e == r - t,
    ;
}

/// Saturation above: a quantity at or beyond `max` gets the code of `max`,
/// which is the largest code.
pub proof fn lemma_saturates_above(ch: Channel, value: int)
    requires
        ch.wf(),
        value >= ch.max,
    ensures
        ch.spec_encode(value) == ch.spec_encode(ch.max as int),
        ch.spec_encode(value) == ch.levels(),
{
    ch.lemma_levels();
    let l = ch.levels();
    let s = ch.span();
    assert((value - ch.min) * l >= s * l && (ch.max - ch.min) * l == s * l) by (nonlinear_arith)
        requires
            value - ch.min >= s,
            ch.max - ch.min == s,
            l >= 0,
    ;
    lemma_round_div_ge((value - ch.min) * l, s, l);
    lemma_round_div_ge((ch.max - ch.min) * l, s, l);
}

/// Saturation below: a quantity at or beyond `min` gets the code of `min`,
/// which is zero.
pub proof fn lemma_saturates_below(ch: Channel, value: int)
    requires
        ch.wf(),
        value <= ch.min,
    ensures
        ch.spec_encode(value) == ch.spec_encode(ch.min as int),
        ch.spec_encode(value) == 0,
{
    ch.lemma_levels();
    let l = ch.levels();
    let s = ch.span();
    assert((value - ch.min) * l <= s * 0 && (ch.min - ch.min) * l == s * 0) by (nonlinear_arith)
        requires
            value - ch.min <= 0,
            l >= 0,
    ;
    lemma_round_div_le((value - ch.min) * l, s, 0);
    lemma_round_div_le((ch.min - ch.min) * l, s, 0);
}

/// A code keeps its bit pattern: where one step of the code is worth at
/// least one base unit, narrowing the quantity a code stands for gives that
/// code again.
pub proof fn lemma_code_survives_round_trip(ch: Channel, code: int)
    requires
        ch.wf(),
        ch.span() >= ch.levels(),
        0 <= code <= ch.levels(),
    ensures
        ch.spec_encode(ch.spec_decode(code)) == code,
{
    ch.lemma_levels();
    let l = ch.levels();
    let s = ch.span();
    let r = round_div(code * s, l);
    lemma_round_div(code * s, l);
    assert(code * s >= l * 0 && code * s <= l * s) by (nonlinear_arith)
        requires
            0 <= code <= l,
            s > 0,
    ;
    lemma_round_div_ge(code * s, l, 0);
    lemma_round_div_le(code * s, l, s);
    assert(ch.spec_decode(code) == ch.min + r);
    assert(s * code == code * s && r * l == l * r) by (nonlinear_arith);
    if s == l {
        assert(r == code) by (nonlinear_arith)
            requires
                2 * (l * r) <= 2 * (code * l) + l < 2 * (l * r) + 2 * l,
                l > 0,
        ;
        assert(code * l == l * code) by (nonlinear_arith);
    }
    lemma_round_div_is(r * l, s, code);
}

/// The signed code of a quantity stands for the same quantity as its
/// unsigned code, and a signed code in range keeps its bit pattern under the
/// same condition as an unsigned one.
pub proof fn lemma_signed_code_survives_round_trip(ch: Channel, code: int)
    requires
        ch.wf(),
        ch.span() >= ch.levels(),
        -ch.half() <= code < ch.half(),
    ensures
        ch.spec_encode_signed(ch.spec_decode_signed(code)) == code,
{
    ch.lemma_levels();
    lemma_code_survives_round_trip(ch, code + ch.half());
}

/// The largest timestamp code: time is sent in 32 bits.
pub const TIMESTAMP_MAX: u32 = 0xFFFF_FFFF;

/// The code of the time `ticks`: the ticks since `epoch`, held into 32 bits.
/// Time is sent as it is counted, without scaling.
pub open spec fn spec_encode_timestamp(ticks: int, epoch: int) -> int {
    clamp(ticks - epoch, 0, TIMESTAMP_MAX as int)
}

/// The time that a timestamp code stands for, held into 64 bits.
pub open spec fn spec_decode_timestamp(code: int, epoch: int) -> int {
    clamp(epoch + code, 0, u64::MAX as int)
}

/// Narrows a time to its code.  A time before `epoch` gets code `0`, one
/// more than `2^32 - 1` ticks after it the largest code.
pub fn encode_timestamp(ticks: u64, epoch: u64) -> (code: u32)
    ensures
        code == spec_encode_timestamp(ticks as int, epoch as int),
{
    if ticks <= epoch {
        0
    } else if ticks - epoch > TIMESTAMP_MAX as u64 {
        TIMESTAMP_MAX
    } else {
        (ticks - epoch) as u32
    }
}

/// Widens a timestamp code to the time it stands for.
pub fn decode_timestamp(code: u32, epoch: u64) -> (ticks: u64)
    ensures
        ticks == spec_decode_timestamp(code as int, epoch as int),
{
    if u64::MAX - epoch < code as u64 {
        u64::MAX
    } else {
        epoch + code as u64
    }
}

/// A time within `2^32 - 1` ticks after the epoch comes back from its code
/// unchanged; any other time is held to the nearer end of that range.
pub proof fn lemma_timestamp_round_trip(ticks: int, epoch: int)
    requires
        0 <= epoch,
        0 <= ticks <= u64::MAX,
    ensures
        epoch <= ticks <= epoch + TIMESTAMP_MAX ==> spec_decode_timestamp(
            spec_encode_timestamp(ticks, epoch),
            epoch,
        ) == ticks,
        ticks < epoch ==> spec_encode_timestamp(ticks, epoch) == 0,
        ticks > epoch + TIMESTAMP_MAX ==> spec_encode_timestamp(ticks, epoch) == TIMESTAMP_MAX,
{
}

} // verus!
