use vstd::arithmetic::div_mod::lemma_div_denominator;
use vstd::arithmetic::power::lemma_pow0;
use vstd::arithmetic::power2::{lemma_pow2, lemma_pow2_pos, lemma_pow2_unfold, pow2};
use vstd::prelude::*;

use crate::pose::{Axes, Pose};

verus! {

/// Size of a sensor datagram: six little-endian IEEE-754 doubles, in the
/// order x, y, z, yaw, pitch, roll.
pub const PACKET_LEN: usize = 48;

/// Why a datagram was not turned into a pose.
#[derive(Clone, Copy, Debug, PartialEq, Eq, Structural)]
pub enum PacketError {
    /// The datagram had this many bytes instead of `PACKET_LEN`.
    WrongLength(usize),
    /// One of the six numbers is not a number.
    NotANumber,
    /// One of the six numbers is infinite, or too large for a fixed-point
    /// pose axis.
    OutOfRange,
}

/// The `i`-th eight-byte little-endian word of `b`.
pub open spec fn word(b: Seq<u8>, i: int) -> int {
    let o = 8 * i;
    b[o] + b[o + 1] * 0x100 + b[o + 2] * 0x1_0000 + b[o + 3] * 0x100_0000 + b[o + 4]
        * 0x1_0000_0000 + b[o + 5] * 0x100_0000_0000 + b[o + 6] * 0x1_0000_0000_0000 + b[o + 7]
        * 0x100_0000_0000_0000
}

/// Biased exponent field of a double's bit pattern.
pub open spec fn exponent_bits(w: int) -> int {
    (w / 0x10_0000_0000_0000) % 2048
}

/// Fraction field of a double's bit pattern.
pub open spec fn fraction_bits(w: int) -> int {
    w % 0x10_0000_0000_0000
}

pub open spec fn is_nan_bits(w: int) -> bool {
    exponent_bits(w) == 2047 && fraction_bits(w) != 0
}

/// Millionths of the double's absolute value, rounded toward zero: the
/// significand times a million, scaled by the power of two.
#[verifier::opaque]
pub open spec fn micro_magnitude(w: int) -> int {
    let e = exponent_bits(w);
    let f = fraction_bits(w);
    if e == 0 {
        f * 1_000_000 / (pow2(1074) as int)
    } else if e < 1075 {
        (f + 0x10_0000_0000_0000) * 1_000_000 / (pow2((1075 - e) as nat) as int)
    } else {
        (f + 0x10_0000_0000_0000) * 1_000_000 * pow2((e - 1075) as nat)
    }
}

/// Finite, and its millionths fit a pose axis.
pub open spec fn is_representable(w: int) -> bool {
    exponent_bits(w) != 2047 && micro_magnitude(w) <= i64::MAX
}

/// The double's value in millionths, rounded toward zero.
pub open spec fn micro_value(w: int) -> int {
    if w >= 0x8000_0000_0000_0000 {
        -micro_magnitude(w)
    } else {
        micro_magnitude(w)
    }
}

pub open spec fn has_nan(b: Seq<u8>) -> bool {
    exists|i: int| 0 <= i < 6 && #[trigger] is_nan_bits(word(b, i))
}

pub open spec fn all_representable(b: Seq<u8>) -> bool {
    forall|i: int| 0 <= i < 6 ==> #[trigger] is_representable(word(b, i))
}

/// What a datagram decodes to.
pub open spec fn packet_outcome(b: Seq<u8>) -> Result<Axes, PacketError> {
    if b.len() != PACKET_LEN {
        Err(PacketError::WrongLength(b.len() as usize))
    } else if has_nan(b) {
        Err(PacketError::NotANumber)
    } else if !all_representable(b) {
        Err(PacketError::OutOfRange)
    } else {
        Ok(
            Axes {
                x: micro_value(word(b, 0)),
                y: micro_value(word(b, 1)),
                z: micro_value(word(b, 2)),
                yaw: micro_value(word(b, 3)),
                pitch: micro_value(word(b, 4)),
                roll: micro_value(word(b, 5)),
            },
        )
    }
}

fn read_word(b: &[u8], i: usize) -> (r: u64)
    requires
        b@.len() == PACKET_LEN,
        i < 6,
    ensures
        r == word(b@, i as int),
{
    let o: usize = 8 * i;
    b[o] as u64 + (b[o + 1] as u64) * 0x100 + (b[o + 2] as u64) * 0x1_0000 + (b[o + 3] as u64)
        * 0x100_0000 + (b[o + 4] as u64) * 0x1_0000_0000 + (b[o + 5] as u64) * 0x100_0000_0000
        + (b[o + 6] as u64) * 0x1_0000_0000_0000 + (b[o + 7] as u64) * 0x100_0000_0000_0000
}

fn is_nan_word(w: u64) -> (r: bool)
    ensures
        r == is_nan_bits(w as int),
{
    (w / 0x10_0000_0000_0000) % 2048 == 2047 && w % 0x10_0000_0000_0000 != 0
}

/// The double with bit pattern `w` in millionths, if it is representable.
fn fixed_value(w: u64) -> (r: Option<i64>)
    ensures
        r is Some <==> is_representable(w as int),
        r matches Some(v) ==> v as int == micro_value(w as int),
{
    reveal(micro_magnitude);
    let e: u64 = (w / 0x10_0000_0000_0000) % 2048;
    let f: u64 = w % 0x10_0000_0000_0000;
    if e == 2047 {
        return None;
    }
    if e >= 1075 {
        proof {
            let p = pow2((e - 1075) as nat) as int;
            lemma_pow2_pos((e - 1075) as nat);
            let base = (f + 0x10_0000_0000_0000) * 1_000_000;
            assert(base * p >= base) by (nonlinear_arith)
                requires
                    base >= 0,
                    p >= 1,
            ;
        }
        return None;
    }
    let significand: u64 = if e == 0 {
        f
    } else {
        f + 0x10_0000_0000_0000
    };
    let shift: u64 = if e == 0 {
        1074
    } else {
        1075 - e
    };
    let ghost scaled: int = significand * 1_000_000;
    let mut q: u128 = (significand as u128) * 1_000_000;
    let mut k: u64 = 0;
    proof {
        lemma_pow2(0);
        lemma_pow0(2);
    }
    while k < shift
        invariant
            k <= shift,
            scaled >= 0,
            q == scaled / (pow2(k as nat) as int),
        decreases shift - k,
    {
        proof {
            lemma_pow2_pos(k as nat);
            lemma_pow2_unfold((k + 1) as nat);
            lemma_div_denominator(scaled, pow2(k as nat) as int, 2);
        }
        q = q / 2;
        k = k + 1;
    }
    if q > 0x7fff_ffff_ffff_ffff {
        return None;
    }
    let magnitude: i64 = q as i64;
    if w >= 0x8000_0000_0000_0000 {
        Some(-magnitude)
    } else {
        Some(magnitude)
    }
}

/// Decodes a sensor datagram into a fixed-point pose.
pub fn decode_packet(b: &[u8]) -> (r: Result<Pose, PacketError>)
    ensures
        match r {
            Ok(p) => packet_outcome(b@) == Ok::<Axes, PacketError>(p@),
            Err(e) => packet_outcome(b@) == Err::<Axes, PacketError>(e),
        },
{
    if b.len() != PACKET_LEN {
        return Err(PacketError::WrongLength(b.len()));
    }
    let mut words: [u64; 6] = [0; 6];
    let mut i: usize = 0;
    while i < 6
        invariant
            b@.len() == PACKET_LEN,
            i <= 6,
            forall|k: int| 0 <= k < i ==> words[k] == word(b@, k),
        decreases 6 - i,
    {
        words[i] = read_word(b, i);
        i += 1;
    }
    let mut i: usize = 0;
    while i < 6
        invariant
            b@.len() == PACKET_LEN,
            i <= 6,
            forall|k: int| 0 <= k < 6 ==> words[k] == word(b@, k),
            forall|k: int| 0 <= k < i ==> !is_nan_bits(#[trigger] word(b@, k)),
        decreases 6 - i,
    {
        if is_nan_word(words[i]) {
            proof {
                assert(is_nan_bits(word(b@, i as int)));
            }
            return Err(PacketError::NotANumber);
        }
        i += 1;
    }
    let mut values: [i64; 6] = [0; 6];
    let mut i: usize = 0;
    while i < 6
        invariant
            b@.len() == PACKET_LEN,
            i <= 6,
            forall|k: int| 0 <= k < 6 ==> words[k] == word(b@, k),
            !has_nan(b@),
            forall|k: int|
                0 <= k < i ==> #[trigger] is_representable(word(b@, k)) && values[k]
                    == micro_value(word(b@, k)),
        decreases 6 - i,
    {
        match fixed_value(words[i]) {
            Some(v) => {
                values[i] = v;
            },
            None => {
                return Err(PacketError::OutOfRange);
            },
        }
        i += 1;
    }
    proof {
        assert(all_representable(b@));
        assert(is_representable(word(b@, 0)));
        assert(values[0] == micro_value(word(b@, 0)));
        assert(is_representable(word(b@, 1)));
        assert(values[1] == micro_value(word(b@, 1)));
        assert(is_representable(word(b@, 2)));
        assert(values[2] == micro_value(word(b@, 2)));
        assert(is_representable(word(b@, 3)));
        assert(values[3] == micro_value(word(b@, 3)));
        assert(is_representable(word(b@, 4)));
        assert(values[4] == micro_value(word(b@, 4)));
        assert(is_representable(word(b@, 5)));
        assert(values[5] == micro_value(word(b@, 5)));
    }
    Ok(
        Pose {
            x: values[0],
            y: values[1],
            z: values[2],
            yaw: values[3],
            pitch: values[4],
            roll: values[5],
        },
    )
}

} // verus!
