use swap_manager::size::{parse_human_size, SizeError, GIB, KIB, MIB, TIB};

#[test]
fn parses_the_documented_examples() {
    assert_eq!(parse_human_size("5G"), Ok(5 * 1024 * 1024 * 1024));
    assert_eq!(parse_human_size("512M"), Ok(512 * 1024 * 1024));
    assert_eq!(parse_human_size("1024"), Ok(1024));
}

#[test]
fn each_unit_multiplies_by_its_power_of_1024() {
    assert_eq!(parse_human_size("3K"), Ok(3 * 1024));
    assert_eq!(parse_human_size("3M"), Ok(3 * 1_048_576));
    assert_eq!(parse_human_size("3G"), Ok(3 * 1_073_741_824));
    assert_eq!(parse_human_size("3T"), Ok(3 * 1_099_511_627_776));
    assert_eq!(KIB, 1024);
    assert_eq!(MIB, 1024 * 1024);
    assert_eq!(GIB, 1024 * 1024 * 1024);
    assert_eq!(TIB, 1024u64 * 1024 * 1024 * 1024);
}

#[test]
fn unit_letters_are_read_in_either_case() {
    assert_eq!(parse_human_size("7k"), parse_human_size("7K"));
    assert_eq!(parse_human_size("7m"), parse_human_size("7M"));
    assert_eq!(parse_human_size("7g"), parse_human_size("7G"));
    assert_eq!(parse_human_size("7t"), parse_human_size("7T"));
    assert_eq!(parse_human_size("7g"), Ok(7 * GIB));
}

#[test]
fn zero_and_leading_zeros_are_numbers() {
    assert_eq!(parse_human_size("0"), Ok(0));
    assert_eq!(parse_human_size("0G"), Ok(0));
    assert_eq!(parse_human_size("007K"), Ok(7 * 1024));
}

#[test]
fn the_empty_token_is_rejected() {
    assert_eq!(parse_human_size(""), Err(SizeError::Empty));
}

#[test]
fn an_unknown_suffix_is_rejected() {
    assert_eq!(parse_human_size("5X"), Err(SizeError::UnknownSuffix));
    assert_eq!(parse_human_size("5GB"), Err(SizeError::UnknownSuffix));
    assert_eq!(parse_human_size("5 "), Err(SizeError::UnknownSuffix));
    assert_eq!(parse_human_size("bad"), Err(SizeError::UnknownSuffix));
    assert_eq!(parse_human_size("5\u{fb06}"), Err(SizeError::UnknownSuffix));
    assert_eq!(parse_human_size("\u{665}"), Err(SizeError::UnknownSuffix));
}

#[test]
fn a_unit_without_magnitude_is_rejected() {
    assert_eq!(parse_human_size("G"), Err(SizeError::MissingMagnitude));
    assert_eq!(parse_human_size("k"), Err(SizeError::MissingMagnitude));
}

#[test]
fn a_magnitude_that_is_not_all_digits_is_rejected() {
    assert_eq!(parse_human_size("1.5G"), Err(SizeError::InvalidMagnitude));
    assert_eq!(parse_human_size("-5G"), Err(SizeError::InvalidMagnitude));
    assert_eq!(parse_human_size("+5G"), Err(SizeError::InvalidMagnitude));
    assert_eq!(parse_human_size("5 G"), Err(SizeError::InvalidMagnitude));
    assert_eq!(parse_human_size("GG"), Err(SizeError::InvalidMagnitude));
    assert_eq!(parse_human_size("1e3"), Err(SizeError::InvalidMagnitude));
    assert_eq!(parse_human_size("0x10"), Err(SizeError::InvalidMagnitude));
}

#[test]
fn the_largest_sizes_are_read_exactly() {
    assert_eq!(parse_human_size("18446744073709551615"), Ok(u64::MAX));
    assert_eq!(parse_human_size("16777215T"), Ok(16_777_215 * TIB));
    assert_eq!(parse_human_size("18014398509481983K"), Ok(18_014_398_509_481_983 * KIB));
}

#[test]
fn a_product_beyond_64_bits_is_an_overflow() {
    assert_eq!(parse_human_size("16777216T"), Err(SizeError::Overflow));
    assert_eq!(parse_human_size("18014398509481984K"), Err(SizeError::Overflow));
    assert_eq!(parse_human_size("17179869184G"), Err(SizeError::Overflow));
    assert_eq!(parse_human_size("17592186044416M"), Err(SizeError::Overflow));
}

#[test]
fn a_magnitude_beyond_64_bits_is_an_overflow() {
    assert_eq!(parse_human_size("18446744073709551616"), Err(SizeError::Overflow));
    assert_eq!(parse_human_size("99999999999999999999999999999K"), Err(SizeError::Overflow));
}

#[test]
fn a_bad_character_wins_over_an_overflow() {
    assert_eq!(
        parse_human_size("99999999999999999999999999999x9"),
        Err(SizeError::InvalidMagnitude)
    );
}

#[test]
fn every_small_magnitude_times_every_unit() {
    let units = [("", 1u64), ("K", KIB), ("m", MIB), ("G", GIB), ("t", TIB)];
    for n in 0u64..300 {
        for (letter, factor) in units {
            let token = format!("{}{}", n, letter);
            assert_eq!(parse_human_size(&token), Ok(n * factor));
        }
    }
}
