use probar::units::{format_value, u64_to_decimal, Units};

#[test]
fn decimal_zero() {
    assert_eq!(u64_to_decimal(0), "0");
}

#[test]
fn decimal_plain() {
    assert_eq!(u64_to_decimal(1234), "1234");
}

#[test]
fn decimal_max() {
    assert_eq!(u64_to_decimal(u64::MAX), "18446744073709551615");
}

#[test]
fn default_units_plain_integer() {
    assert_eq!(format_value(1234, Units::Default), "1234");
    assert_eq!(format_value(0, Units::Default), "0");
}

#[test]
fn bytes_zero() {
    assert_eq!(format_value(0, Units::Bytes), "0 B");
}

#[test]
fn bytes_below_kib_round_trip() {
    assert_eq!(format_value(1, Units::Bytes), "1 B");
    assert_eq!(format_value(512, Units::Bytes), "512 B");
    assert_eq!(format_value(1023, Units::Bytes), "1023 B");
}

#[test]
fn bytes_one_kib() {
    assert_eq!(format_value(1024, Units::Bytes), "1.0 KiB");
}

#[test]
fn bytes_scaled_magnitudes() {
    assert_eq!(format_value(1536, Units::Bytes), "1.5 KiB");
    assert_eq!(format_value(1048576, Units::Bytes), "1.0 MiB");
    assert_eq!(format_value(5368709120, Units::Bytes), "5.0 GiB");
    assert_eq!(format_value(1099511627776, Units::Bytes), "1.0 TiB");
    assert_eq!(format_value(1125899906842624, Units::Bytes), "1.0 PiB");
    assert_eq!(format_value(1152921504606846976, Units::Bytes), "1.0 EiB");
}

#[test]
fn bytes_largest_value() {
    assert_eq!(format_value(u64::MAX, Units::Bytes), "15.9 EiB");
}
