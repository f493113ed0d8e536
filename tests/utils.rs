use std::str::FromStr;

use cosmwasm_std::{Decimal256, Uint256 as CwUint256};
use simple_oracle_client::decimal::{Decimal, DecimalRangeExceeded, Uint256};
use simple_oracle_client::quote::Address;
use simple_oracle_client::utils::{convert_u256, format_ethereum_address, u256_to_decimal, unix_now};

fn limbs(value: CwUint256) -> Uint256 {
    let bytes = value.to_be_bytes();
    let mut hi = [0u8; 16];
    let mut lo = [0u8; 16];
    hi.copy_from_slice(&bytes[..16]);
    lo.copy_from_slice(&bytes[16..]);
    Uint256::new(u128::from_be_bytes(hi), u128::from_be_bytes(lo))
}

fn atomics_of(d: Decimal256) -> Uint256 {
    limbs(d.atomics())
}

#[test]
fn test_convert_u256() {
    let value: u128 = 1_000_000_000_000_000_000;
    let result = convert_u256(value, 18).unwrap();

    assert_eq!(atomics_of(Decimal256::from_str("1.0").unwrap()), result.atomics());

    let value: u128 = 1_000_000;
    let result = convert_u256(value, 6).unwrap();
    assert_eq!(atomics_of(Decimal256::from_str("1.0").unwrap()), result.atomics());
}

#[test]
fn convert_drops_digits_past_eighteen() {
    let result = convert_u256(123_456, 20).unwrap();
    assert_eq!(result, Decimal::new(1_234));
    assert_eq!(convert_u256(5, 60).unwrap(), Decimal::zero());
}

#[test]
fn convert_accepts_every_128_bit_reading() {
    for decimals in [0u32, 6, 18] {
        let expected = Decimal256::from_atomics(u128::MAX, decimals).unwrap();
        assert_eq!(convert_u256(u128::MAX, decimals).unwrap().atomics(), atomics_of(expected));
    }
}

#[test]
fn whole_numbers_become_decimals() {
    assert_eq!(u256_to_decimal(Uint256::from_u128(3)).unwrap(), Decimal::new(3_000_000_000_000_000_000));
    let big = u256_to_decimal(Uint256::from_u128(u128::MAX)).unwrap();
    let expected = Decimal256::from_str("340282366920938463463374607431768211455.0").unwrap();
    assert_eq!(big.atomics(), atomics_of(expected));
}

#[test]
fn whole_numbers_beyond_256_bits_are_refused() {
    let fractional = CwUint256::from(1_000_000_000_000_000_000u128);
    let largest = CwUint256::MAX / fractional;
    let fits = u256_to_decimal(limbs(largest)).unwrap();
    assert_eq!(fits.atomics(), limbs(largest * fractional));
    let over = largest + CwUint256::from(1u8);
    assert_eq!(u256_to_decimal(limbs(over)), Err(DecimalRangeExceeded));
    assert_eq!(u256_to_decimal(Uint256::new(u128::MAX, u128::MAX)), Err(DecimalRangeExceeded));
}
#[test]
fn addresses_print_as_lower_case_hex() {
    let mut bytes = [0u8; 20];
    bytes[0] = 0xab;
    bytes[1] = 0x01;
    bytes[19] = 0xff;
    let text = format_ethereum_address(Address::new(bytes));
    assert_eq!(text, "0xab010000000000000000000000000000000000ff");
}

#[test]
fn unix_now_reads_the_clock_in_seconds() {
    let now = unix_now().unwrap();
    assert!(now > 1_600_000_000);
    assert!(now < 100_000_000_000);
}
