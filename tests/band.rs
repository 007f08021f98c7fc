use hyper_headset::band::{parse_band_ref, BandRefError};

#[test]
fn bare_indices() {
    assert_eq!(parse_band_ref("0"), Ok(0));
    assert_eq!(parse_band_ref("9"), Ok(9));
    assert_eq!(parse_band_ref(" 5 "), Ok(5));
    assert_eq!(parse_band_ref("+3"), Ok(3));
    assert_eq!(parse_band_ref("007"), Ok(7));
    assert_eq!(parse_band_ref("10"), Err(BandRefError::IndexOutOfRange(10)));
    assert_eq!(parse_band_ref("255"), Err(BandRefError::IndexOutOfRange(255)));
}

#[test]
fn frequencies_with_units() {
    assert_eq!(parse_band_ref("1khz"), Ok(5));
    assert_eq!(parse_band_ref("1KHZ"), Ok(5));
    assert_eq!(parse_band_ref("1kh"), Ok(5));
    assert_eq!(parse_band_ref("16k"), Ok(9));
    assert_eq!(parse_band_ref("32hz"), Ok(0));
    assert_eq!(parse_band_ref("64Hz"), Ok(1));
    assert_eq!(parse_band_ref("250h"), Ok(3));
    assert_eq!(parse_band_ref("0.5khz"), Ok(4));
    assert_eq!(parse_band_ref(".125k"), Ok(2));
    assert_eq!(parse_band_ref("125.9hz"), Ok(2));
}

#[test]
fn refused_references() {
    assert_eq!(parse_band_ref("256"), Err(BandRefError::InvalidReference));
    assert_eq!(parse_band_ref(""), Err(BandRefError::InvalidReference));
    assert_eq!(parse_band_ref("hz"), Err(BandRefError::InvalidNumber));
    assert_eq!(parse_band_ref("1.2.3khz"), Err(BandRefError::InvalidNumber));
    assert_eq!(parse_band_ref(".khz"), Err(BandRefError::InvalidNumber));
    assert_eq!(parse_band_ref("1mhz"), Err(BandRefError::UnknownSuffix));
    assert_eq!(parse_band_ref("100hz"), Err(BandRefError::NoMatchingBand(100)));
    assert_eq!(parse_band_ref("1.5khz"), Err(BandRefError::NoMatchingBand(1500)));
    assert_eq!(
        parse_band_ref("99999999999khz"),
        Err(BandRefError::NoMatchingBand(u32::MAX))
    );
}
