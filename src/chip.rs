//! Values shared by all encoders: the register packet, the channel selector
//! and the master clock configuration.

use vstd::prelude::*;
use vstd::string::StringSliceAdditionalSpecFns;

verus! {

/// Divider between the master clock and the tone and noise counters.
pub const CLOCK_COUNTDOWN_COEFF: u32 = 16;

/// One byte to be written to one register.
#[derive(Clone, Copy, Debug, PartialEq, Eq, Structural)]
pub struct Packet {
    pub address: u8,
    pub value: u8,
}

/// One of the three voices.
#[derive(Clone, Copy, Debug, PartialEq, Eq, Structural)]
pub enum Channel {
    A,
    B,
    C,
}

/// Why a master clock setting was refused.
#[derive(Clone, Copy, Debug, PartialEq, Eq, Structural)]
pub enum ConfigError {
    /// No digits were given.
    Missing,
    /// A character other than a decimal digit was found.
    NotNumeric,
    /// The number does not fit in 32 bits.
    OutOfRange,
    /// The clock frequency is zero.
    Zero,
}

/// Whether a byte is an ASCII decimal digit.
pub open spec fn is_digit(b: u8) -> bool {
    48 <= b && b <= 57
}

/// The number that a string of decimal digits denotes.
pub open spec fn decimal_value(s: Seq<u8>) -> nat
    decreases s.len(),
{
    if s.len() == 0 {
        0
    } else {
        decimal_value(s.drop_last()) * 10 + (s.last() - 48) as nat
    }
}

/// Whether every byte of `s` is a decimal digit.
pub open spec fn all_digits(s: Seq<u8>) -> bool {
    forall|i: int| 0 <= i < s.len() ==> is_digit(#[trigger] s[i])
}

proof fn lemma_decimal_value_step(s: Seq<u8>, i: int)
    requires
        0 <= i < s.len(),
    ensures
        decimal_value(s.take(i + 1)) == decimal_value(s.take(i)) * 10 + (s[i] - 48) as nat,
{
    assert(s.take(i + 1).drop_last() =~= s.take(i));
}

proof fn lemma_decimal_value_grows(s: Seq<u8>, i: int, j: int)
    requires
        0 <= i <= j <= s.len(),
        all_digits(s),
    ensures
        decimal_value(s.take(i)) <= decimal_value(s.take(j)),
    decreases j - i,
{
    if i < j {
        lemma_decimal_value_grows(s, i, j - 1);
        lemma_decimal_value_step(s, j - 1);
        assert(is_digit(s[j - 1]));
        assert(decimal_value(s.take(j - 1)) * 10 >= decimal_value(s.take(j - 1))) by (nonlinear_arith);
    }
}

/// Reads the master clock frequency, in Hz, from its decimal text.
///
/// The text must be a non-empty run of decimal digits whose value fits in
/// 32 bits and is not zero.
pub fn parse_clock_freq(s: &str) -> (r: Result<u32, ConfigError>)
    ensures
        s.spec_bytes().len() == 0 ==> r == Err::<u32, ConfigError>(ConfigError::Missing),
        s.spec_bytes().len() > 0 && !all_digits(s.spec_bytes()) ==> r == Err::<u32, ConfigError>(
            ConfigError::NotNumeric,
        ),
        s.spec_bytes().len() > 0 && all_digits(s.spec_bytes()) && decimal_value(s.spec_bytes())
            > u32::MAX ==> r == Err::<u32, ConfigError>(ConfigError::OutOfRange),
        s.spec_bytes().len() > 0 && all_digits(s.spec_bytes()) && decimal_value(s.spec_bytes())
            == 0 ==> r == Err::<u32, ConfigError>(ConfigError::Zero),
        s.spec_bytes().len() > 0 && all_digits(s.spec_bytes()) && 0 < decimal_value(
            s.spec_bytes(),
        ) <= u32::MAX ==> r == Ok::<u32, ConfigError>(decimal_value(s.spec_bytes()) as u32),
{
    let bytes = s.as_bytes();
    let n = bytes.len();
    if n == 0 {
        return Err(ConfigError::Missing);
    }
    let mut i: usize = 0;
    while i < n
        invariant
            n == bytes@.len(),
            bytes@ == s.spec_bytes(),
            0 <= i <= n,
            forall|k: int| 0 <= k < i ==> is_digit(#[trigger] bytes@[k]),
        decreases n - i,
    {
        if !(bytes[i] >= 48 && bytes[i] <= 57) {
            return Err(ConfigError::NotNumeric);
        }
        i = i + 1;
    }
    let mut out: u64 = 0;
    let mut too_large = false;
    i = 0;
    while i < n
        invariant
            n == bytes@.len(),
            bytes@ == s.spec_bytes(),
            0 <= i <= n,
            all_digits(bytes@),
            !too_large ==> out == decimal_value(bytes@.take(i as int)),
            !too_large ==> out <= u32::MAX,
            too_large ==> decimal_value(bytes@.take(i as int)) > u32::MAX,
        decreases n - i,
    {
        proof {
            lemma_decimal_value_step(bytes@, i as int);
        }
        if !too_large {
            let digit = (bytes[i] - 48) as u64;
            out = out * 10 + digit;
            if out > 0xFFFF_FFFF {
                too_large = true;
            }
        } else {
            proof {
                assert(is_digit(bytes@[i as int]));
                assert(decimal_value(bytes@.take(i as int)) * 10 >= decimal_value(
                    bytes@.take(i as int),
                )) by (nonlinear_arith);
            }
        }
        i = i + 1;
    }
    proof {
        assert(bytes@.take(n as int) =~= bytes@);
    }
    if too_large {
        Err(ConfigError::OutOfRange)
    } else if out == 0 {
        Err(ConfigError::Zero)
    } else {
        Ok(out as u32)
    }
}

/// Whether bit `i` of `v` is set.
pub open spec fn bit_of(v: u8, i: u8) -> bool {
    (v >> i) & 1 == 1
}

/// `v` with bit `i` set to `b` and every other bit kept.
pub open spec fn with_bit(v: u8, i: u8, b: bool) -> u8 {
    if b {
        v | (1u8 << i)
    } else {
        v & !(1u8 << i)
    }
}

/// Reads bit `i` of `v`.
pub fn get_bit(v: u8, i: u8) -> (r: bool)
    requires
        i < 8,
    ensures
        r == bit_of(v, i),
{
    (v >> i) & 1 == 1
}

/// Returns `v` with bit `i` set to `b`.
pub fn put_bit(v: u8, i: u8, b: bool) -> (r: u8)
    requires
        i < 8,
    ensures
        r == with_bit(v, i, b),
        bit_of(r, i) == b,
        forall|j: u8| j < 8 && j != i ==> bit_of(r, j) == bit_of(v, j),
{
    let r = if b {
        v | (1u8 << i)
    } else {
        v & !(1u8 << i)
    };
    assert(bit_of(r, i) == b) by (bit_vector)
        requires
            i < 8,
            r == (if b { v | (1u8 << i) } else { v & !(1u8 << i) }),
    ;
    assert forall|j: u8| j < 8 && j != i implies bit_of(r, j) == bit_of(v, j) by {
        assert(bit_of(r, j) == bit_of(v, j)) by (bit_vector)
            requires
                i < 8,
                j < 8,
                j != i,
                r == (if b { v | (1u8 << i) } else { v & !(1u8 << i) }),
        ;
    }
    r
}

} // verus!
