//! Small conversions: clock readings, raw readings to decimals, addresses to text.

use vstd::prelude::*;

use std::time::{Duration, SystemTime, SystemTimeError};

use crate::decimal::{
    rescaled, uint256_max, Decimal, DecimalRangeExceeded, Uint256, DECIMAL_FRACTIONAL,
};
use crate::quote::Address;

verus! {

#[verifier::external_type_specification]
#[verifier::external_body]
pub struct ExSystemTime(SystemTime);

#[verifier::external_type_specification]
#[verifier::external_body]
pub struct ExSystemTimeError(SystemTimeError);

/// Relies on `SystemTime::now`: reads the system clock. Nothing is known of the reading.
#[verifier::external_body]
fn clock_now() -> SystemTime {
    SystemTime::now()
}

/// Relies on `SystemTime::duration_since`: the time elapsed from the epoch to `t`, or an
/// error when `t` lies before it. Nothing is known of the duration.
#[verifier::external_body]
fn since_epoch(t: &SystemTime) -> Result<Duration, SystemTimeError> {
    t.duration_since(std::time::UNIX_EPOCH)
}

/// Relies on `Duration::as_secs`: the whole seconds of `d`.
#[verifier::external_body]
fn whole_seconds(d: &Duration) -> u64 {
    d.as_secs()
}

/// The system clock reads a time before the unix epoch.
#[derive(Clone, Copy, Debug, PartialEq, Eq, Structural)]
pub struct ClockBeforeEpoch;

/// The current unix time in seconds; fails when the clock reads before the epoch.
pub fn unix_now() -> Result<u64, ClockBeforeEpoch> {
    let now = clock_now();
    match since_epoch(&now) {
        Ok(elapsed) => Ok(whole_seconds(&elapsed)),
        Err(_) => Err(ClockBeforeEpoch),
    }
}

/// The decimal `value / 10^decimals`: a raw reading scaled by its asset's decimals.
/// Every 128-bit reading converts.
pub fn convert_u256(value: u128, decimals: u32) -> (r: Result<Decimal, DecimalRangeExceeded>)
    ensures
        match r {
            Ok(d) => d.atoms() == rescaled(value as nat, decimals as nat),
            Err(_) => false,
        },
{
    Ok(Decimal::from_atomics(value, decimals))
}

/// The whole number `value` as a decimal; fails when `value * 10^18` exceeds 256 bits.
pub fn u256_to_decimal(value: Uint256) -> (r: Result<Decimal, DecimalRangeExceeded>)
    ensures
        match r {
            Ok(d) => value.value() * DECIMAL_FRACTIONAL <= uint256_max() && d.atoms()
                == value.value() * DECIMAL_FRACTIONAL,
            Err(_) => value.value() * DECIMAL_FRACTIONAL > uint256_max(),
        },
{
    Decimal::from_integer(value)
}

/// The lower-case hexadecimal digit for `n < 16`.
pub open spec fn hex_digit(n: int) -> char {
    if n < 10 {
        ('0' as int + n) as char
    } else {
        ('a' as int + n - 10) as char
    }
}

/// Two lower-case hexadecimal digits per byte, most significant first.
pub open spec fn hex_of(bytes: Seq<u8>) -> Seq<char>
    decreases bytes.len(),
{
    if bytes.len() == 0 {
        Seq::empty()
    } else {
        hex_of(bytes.drop_last()) + seq![
            hex_digit(bytes.last() as int / 16),
            hex_digit(bytes.last() as int % 16),
        ]
    }
}

/// The one-character text of the hexadecimal digit `n`.
fn hex_digit_str(n: u8) -> (r: &'static str)
    requires
        n < 16,
    ensures
        r@ == seq![hex_digit(n as int)],
{
    let digits = "0123456789abcdef";
    proof {
        reveal_strlit("0123456789abcdef");
    }
    let r = digits.substring_ascii(n as usize, n as usize + 1);
    r
}

/// `0x` followed by the address in lower-case hexadecimal.
pub fn format_ethereum_address(address: Address) -> (r: String)
    ensures
        r@ == "0x"@ + hex_of(address@),
{
    let mut text = String::from_str("0x");
    let mut i: usize = 0;
    while i < 20
        invariant
            i <= 20,
            address@.len() == 20,
            text@ == "0x"@ + hex_of(address@.subrange(0, i as int)),
        decreases 20 - i,
    {
        let b = address.bytes[i];
        text.append(hex_digit_str(b / 16));
        text.append(hex_digit_str(b % 16));
        assert(address@.subrange(0, i + 1).drop_last() =~= address@.subrange(0, i as int));
        assert(text@ =~= "0x"@ + hex_of(address@.subrange(0, i + 1)));
        i = i + 1;
    }
    assert(address@.subrange(0, 20) =~= address@);
    text
}

} // verus!
