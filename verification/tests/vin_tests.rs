use vinparser::ChecksumOutcome;
use vinparser::VINError;
use vinparser::check_validity;
use vinparser::compute_expected;
use vinparser::get_info;
use vinparser::validate;
use vinparser::value_of;
use vinparser::verify_checksum;

#[test]
fn check_length() {
    let erroneous = check_validity("");
    assert!(matches!(erroneous.unwrap_err(), VINError::IncorrectLength(0)));

    let erroneous = check_validity("1HGCM82633A004352XX");
    assert!(matches!(erroneous.unwrap_err(), VINError::IncorrectLength(19)));

    let valid = check_validity("00000000000000000");
    assert!(valid.is_ok());
}

#[test]
fn check_alphabet() {
    let erroneous = check_validity("abcdefghioq_958.!");
    assert!(matches!(erroneous.unwrap_err(), VINError::InvalidCharacters(_)));

    let valid = check_validity("0123456789abcdefg");
    assert!(valid.is_ok());
}

#[test]
fn alphabet_reports_offending_characters() {
    match check_validity("1HGCM82Q33A0043I2").unwrap_err() {
        VINError::InvalidCharacters(cs) => assert_eq!(cs, vec!['Q', 'I']),
        _ => panic!("expected InvalidCharacters"),
    }
    match check_validity("1hgcm82q33a004352").unwrap_err() {
        VINError::InvalidCharacters(cs) => assert_eq!(cs, vec!['Q']),
        _ => panic!("expected InvalidCharacters"),
    }
}

#[test]
fn length_checked_before_alphabet() {
    let erroneous = check_validity("IOQ!");
    assert!(matches!(erroneous.unwrap_err(), VINError::IncorrectLength(4)));
}

#[test]
fn checksum() {
    let erroneous = verify_checksum("WP0ZZZ99ZTS392124");
    assert!(matches!(
        erroneous.unwrap_err(),
        VINError::ChecksumError { expected: '8', received: 'Z' }
    ));

    let valid = verify_checksum("1M8GDM9AXKP042788");
    assert!(valid.is_ok());
}

#[test]
fn checksum_valid_scenario() {
    assert!(verify_checksum("1HGCM82633A004352").is_ok());
}

#[test]
fn short_input_reports_length() {
    let erroneous = verify_checksum("1HGCM82633A00435");
    assert!(matches!(erroneous.unwrap_err(), VINError::IncorrectLength(16)));
}

#[test]
fn invalid_character_reported() {
    let erroneous = verify_checksum("1HGCM82Q33A004352");
    assert!(matches!(erroneous.unwrap_err(), VINError::InvalidCharacters(_)));
}

#[test]
fn mutated_check_digit_fails() {
    let erroneous = verify_checksum("1HGCM82613A004352");
    assert!(matches!(
        erroneous.unwrap_err(),
        VINError::ChecksumError { expected: '3', received: '1' }
    ));

    let erroneous = verify_checksum("1HGCM82603A004352");
    assert!(matches!(
        erroneous.unwrap_err(),
        VINError::ChecksumError { expected: '3', received: '0' }
    ));
}

#[test]
fn expected_check_digit_exact_value() {
    // Every position holds '1': the weighted sum is the sum of all weights,
    // 89, and 89 mod 11 is 1, so the expected check character is '1' and the
    // VIN checks out.
    assert!(verify_checksum("11111111111111111").is_ok());

    let vin = validate("11111111111111111").unwrap();
    assert_eq!(compute_expected(&vin), '1');
}

#[test]
fn expected_check_digit_x() {
    // Ending in '0' lowers the sum of all weights by 2 to 87, and 87 mod 11
    // is 10: the expected check character is 'X', whatever the check-digit
    // slot holds, and the VIN carrying 'X' there checks out.
    let vin = validate("11111111X11111110").unwrap();
    assert_eq!(compute_expected(&vin), 'X');
    assert!(verify_checksum("11111111X11111110").is_ok());
}

#[test]
fn compute_expected_deterministic() {
    let vin = validate("1HGCM82633A004352").unwrap();
    let first = compute_expected(&vin);
    let second = compute_expected(&vin);
    assert_eq!(first, second);
    assert_eq!(first, '3');
}

#[test]
fn info_for_valid_vin() {
    let result = get_info("1HGCM82633A004352").unwrap();
    assert_eq!(result.vin, "1HGCM82633A004352");
    assert_eq!(result.country.as_deref(), Some("United States"));
    assert_eq!(result.manufacturer.as_deref(), Some("Honda"));
    assert_eq!(result.region.as_deref(), Some("North America"));
    assert!(result.valid_checksum());
    assert!(matches!(result.checksum, ChecksumOutcome::Valid));
}

#[test]
fn info_normalizes_case() {
    let result = get_info("wp0zzz998ts392124").unwrap();
    assert_eq!(result.vin, "WP0ZZZ998TS392124");
    assert_eq!(result.country.as_deref(), Some("Germany/West Germany"));
    assert_eq!(result.manufacturer.as_deref(), Some("Porsche car"));
    assert_eq!(result.region.as_deref(), Some("Europe"));
    assert!(result.valid_checksum());
}

#[test]
fn info_keeps_checksum_mismatch_as_data() {
    let result = get_info("WP0ZZZ99ZTS392124").unwrap();
    assert_eq!(result.vin, "WP0ZZZ99ZTS392124");
    assert_eq!(result.country.as_deref(), Some("Germany/West Germany"));
    assert_eq!(result.manufacturer.as_deref(), Some("Porsche car"));
    assert_eq!(result.region.as_deref(), Some("Europe"));
    assert!(!result.valid_checksum());
    assert!(matches!(
        result.checksum,
        ChecksumOutcome::Mismatch { expected: '8', received: 'Z' }
    ));
}

#[test]
fn info_for_unknown_prefix() {
    // Neither "HGZ" nor "HG" is a registered prefix, so no record matches:
    // decoding degrades to every field absent instead of failing.
    let result = get_info("HGZ1234567Z123456").unwrap();
    assert_eq!(result.country, None);
    assert_eq!(result.manufacturer, None);
    assert_eq!(result.region, None);
}

#[test]
fn info_for_country_level_record() {
    // "1AB" and "1A" name no manufacturer, but "1A" is a registered
    // country-level code: its record supplies country and region, and the
    // manufacturer alone is absent.
    let result = get_info("1AB1234567Z123456").unwrap();
    assert_eq!(result.country.as_deref(), Some("United States"));
    assert_eq!(result.manufacturer, None);
    assert_eq!(result.region.as_deref(), Some("North America"));
}

#[test]
fn info_for_record_without_country_or_region() {
    // "0VF" is a registered manufacturer code, but no country code starts
    // with '0' and the region table has no entry for it: the record matches
    // with only its manufacturer field present.
    let result = get_info("0VF1234567Z123456").unwrap();
    assert_eq!(result.manufacturer.as_deref(), Some("Ford"));
    assert_eq!(result.country, None);
    assert_eq!(result.region, None);
}

#[test]
fn info_rejects_what_validation_rejects() {
    assert!(matches!(
        get_info("1HGCM82633A00435").unwrap_err(),
        VINError::IncorrectLength(16)
    ));
    assert!(matches!(
        get_info("1HGCM82Q33A004352").unwrap_err(),
        VINError::InvalidCharacters(_)
    ));
}

#[test]
fn three_character_manufacturer_code_wins() {
    // "5YJ" is registered on its own; it must not fall back to any
    // two-character code.
    let result = get_info("5YJ3E1EA7HF000337").unwrap();
    assert_eq!(result.manufacturer.as_deref(), Some("Tesla"));
    assert_eq!(result.country.as_deref(), Some("United States"));
    assert_eq!(result.region.as_deref(), Some("North America"));
}

#[test]
fn regions_by_first_character() {
    assert_eq!(
        get_info("6T111111111111111").unwrap().region.as_deref(),
        Some("Oceania")
    );
    assert_eq!(
        get_info("9BW11111111111111").unwrap().region.as_deref(),
        Some("South America")
    );
    assert_eq!(
        get_info("JT111111111111111").unwrap().region.as_deref(),
        Some("Asia")
    );
}

#[test]
fn transliteration_values() {
    assert_eq!(value_of('A'), Some(1));
    assert_eq!(value_of('H'), Some(8));
    assert_eq!(value_of('J'), Some(1));
    assert_eq!(value_of('P'), Some(7));
    assert_eq!(value_of('R'), Some(9));
    assert_eq!(value_of('S'), Some(2));
    assert_eq!(value_of('Z'), Some(9));
    assert_eq!(value_of('0'), Some(0));
    assert_eq!(value_of('9'), Some(9));
    assert_eq!(value_of('I'), None);
    assert_eq!(value_of('O'), None);
    assert_eq!(value_of('Q'), None);
    assert_eq!(value_of('a'), None);
    assert_eq!(value_of('$'), None);
}

#[test]
fn normalized_vin_as_string() {
    let vin = validate("wp0zzz998ts392124").unwrap();
    assert_eq!(vin.to_vin_string(), "WP0ZZZ998TS392124");
}
