use escpos::barcode::{encode, BarcodeSystem};
use escpos::errors::PrinterError;

fn symbol(system: BarcodeSystem, payload: &str) -> Result<String, PrinterError> {
    encode(system, payload.as_bytes()).map(|bytes| String::from_utf8(bytes).unwrap())
}

#[test]
fn ean13_appends_the_check_digit_to_twelve_digits() {
    assert_eq!(symbol(BarcodeSystem::EAN13, "123456789012"), Ok("1234567890128".to_owned()));
    assert_eq!(symbol(BarcodeSystem::EAN13, "123456789026"), Ok("1234567890265".to_owned()));
    assert_eq!(symbol(BarcodeSystem::EAN13, "400638133393"), Ok("4006381333931".to_owned()));
    assert_eq!(symbol(BarcodeSystem::EAN13, "000000000000"), Ok("0000000000000".to_owned()));
}

#[test]
fn ean13_takes_thirteen_digits_with_the_right_check_digit() {
    assert_eq!(symbol(BarcodeSystem::EAN13, "1234567890265"), Ok("1234567890265".to_owned()));
    assert_eq!(symbol(BarcodeSystem::EAN13, "4006381333931"), Ok("4006381333931".to_owned()));
}

#[test]
fn ean13_rejects_a_wrong_check_digit() {
    for last in "012346789".chars() {
        let payload = format!("123456789026{}", last);
        assert_eq!(
            symbol(BarcodeSystem::EAN13, &payload),
            Err(PrinterError::UnsupportedSymbology)
        );
    }
}

#[test]
fn ean13_rejects_other_lengths_and_other_characters() {
    assert_eq!(symbol(BarcodeSystem::EAN13, ""), Err(PrinterError::UnsupportedSymbology));
    assert_eq!(symbol(BarcodeSystem::EAN13, "12345678901"), Err(PrinterError::UnsupportedSymbology));
    assert_eq!(
        symbol(BarcodeSystem::EAN13, "12345678901234"),
        Err(PrinterError::UnsupportedSymbology)
    );
    assert_eq!(symbol(BarcodeSystem::EAN13, "12345678901A"), Err(PrinterError::UnsupportedSymbology));
    assert_eq!(symbol(BarcodeSystem::EAN13, "1234567 90128"), Err(PrinterError::UnsupportedSymbology));
}

#[test]
fn every_check_digit_from_zero_to_nine_occurs() {
    let mut seen = [false; 10];
    for last in 0..10u8 {
        let payload = format!("00000000000{}", last);
        let symbol = encode(BarcodeSystem::EAN13, payload.as_bytes()).unwrap();
        let check = symbol[12] - b'0';
        // The last data digit counts three times.
        assert_eq!(check, (10 - (3 * last) % 10) % 10);
        seen[check as usize] = true;
    }
    assert_eq!(seen, [true; 10]);
}

#[test]
fn ean8_and_upca_carry_the_same_kind_of_check_digit() {
    assert_eq!(symbol(BarcodeSystem::EAN8, "1234567"), Ok("12345670".to_owned()));
    assert_eq!(symbol(BarcodeSystem::EAN8, "12345670"), Ok("12345670".to_owned()));
    assert_eq!(symbol(BarcodeSystem::EAN8, "12345671"), Err(PrinterError::UnsupportedSymbology));
    assert_eq!(symbol(BarcodeSystem::UPCA, "03600029145"), Ok("036000291452".to_owned()));
    assert_eq!(symbol(BarcodeSystem::UPCA, "036000291452"), Ok("036000291452".to_owned()));
    assert_eq!(symbol(BarcodeSystem::UPCA, "036000291453"), Err(PrinterError::UnsupportedSymbology));
    assert_eq!(symbol(BarcodeSystem::UPCA, "0360002914"), Err(PrinterError::UnsupportedSymbology));
}

#[test]
fn upce_takes_its_check_digit_from_the_number_it_stands_for() {
    assert_eq!(symbol(BarcodeSystem::UPCE, "123456"), Ok("01234565".to_owned()));
    assert_eq!(symbol(BarcodeSystem::UPCE, "0123456"), Ok("01234565".to_owned()));
    assert_eq!(symbol(BarcodeSystem::UPCE, "01234565"), Ok("01234565".to_owned()));
    assert_eq!(symbol(BarcodeSystem::UPCE, "01234566"), Err(PrinterError::UnsupportedSymbology));
    assert_eq!(symbol(BarcodeSystem::UPCE, "1123456"), Err(PrinterError::UnsupportedSymbology));
    assert_eq!(symbol(BarcodeSystem::UPCE, "12345"), Err(PrinterError::UnsupportedSymbology));
    // 425261 stands for 04252614 in full: 0 42 1 0000 526 -> 04210000526, check digit 4.
    assert_eq!(symbol(BarcodeSystem::UPCE, "425261"), Ok("04252614".to_owned()));
    // A last digit of 3 or 4 moves the zeros: 123453 stands for 01230000045,
    // 123454 for 01234000005.
    assert_eq!(symbol(BarcodeSystem::UPCE, "123453"), Ok("01234531".to_owned()));
    assert_eq!(symbol(BarcodeSystem::UPCE, "123454"), Ok("01234543".to_owned()));
    assert_eq!(symbol(BarcodeSystem::UPCA, "01230000045"), Ok("012300000451".to_owned()));
    assert_eq!(symbol(BarcodeSystem::UPCA, "01234000005"), Ok("012340000053".to_owned()));
}

#[test]
fn code39_wraps_the_payload_in_asterisks() {
    assert_eq!(symbol(BarcodeSystem::CODE39, "ABC-123"), Ok("*ABC-123*".to_owned()));
    assert_eq!(symbol(BarcodeSystem::CODE39, "A $%+-./Z"), Ok("*A $%+-./Z*".to_owned()));
    assert_eq!(symbol(BarcodeSystem::CODE39, ""), Err(PrinterError::UnsupportedSymbology));
    assert_eq!(symbol(BarcodeSystem::CODE39, "abc"), Err(PrinterError::UnsupportedSymbology));
    assert_eq!(symbol(BarcodeSystem::CODE39, "*ABC*"), Err(PrinterError::UnsupportedSymbology));
}

#[test]
fn codabar_needs_a_start_and_a_stop_character() {
    assert_eq!(symbol(BarcodeSystem::CODABAR, "A12345B"), Ok("A12345B".to_owned()));
    assert_eq!(symbol(BarcodeSystem::CODABAR, "C1-$:/.+9D"), Ok("C1-$:/.+9D".to_owned()));
    assert_eq!(symbol(BarcodeSystem::CODABAR, "AB"), Ok("AB".to_owned()));
    assert_eq!(symbol(BarcodeSystem::CODABAR, "12345"), Err(PrinterError::UnsupportedSymbology));
    assert_eq!(symbol(BarcodeSystem::CODABAR, "A12345"), Err(PrinterError::UnsupportedSymbology));
    assert_eq!(symbol(BarcodeSystem::CODABAR, "A12B45B"), Err(PrinterError::UnsupportedSymbology));
    assert_eq!(symbol(BarcodeSystem::CODABAR, "A"), Err(PrinterError::UnsupportedSymbology));
    assert_eq!(symbol(BarcodeSystem::CODABAR, "E123E"), Err(PrinterError::UnsupportedSymbology));
}

#[test]
fn itf_takes_digits_in_pairs() {
    assert_eq!(symbol(BarcodeSystem::ITF, "1234"), Ok("1234".to_owned()));
    assert_eq!(symbol(BarcodeSystem::ITF, "123"), Err(PrinterError::UnsupportedSymbology));
    assert_eq!(symbol(BarcodeSystem::ITF, ""), Err(PrinterError::UnsupportedSymbology));
    assert_eq!(symbol(BarcodeSystem::ITF, "12a4"), Err(PrinterError::UnsupportedSymbology));
}

#[test]
fn a_symbol_longer_than_a_command_carries_is_too_large() {
    let digits = "12".repeat(128);
    assert_eq!(symbol(BarcodeSystem::ITF, &digits), Err(PrinterError::PayloadTooLarge));
    let longest = "12".repeat(127);
    assert_eq!(symbol(BarcodeSystem::ITF, &longest), Ok(longest.clone()));
    let text = "A".repeat(254);
    assert_eq!(symbol(BarcodeSystem::CODE39, &text), Err(PrinterError::PayloadTooLarge));
    let fits = "A".repeat(253);
    assert_eq!(symbol(BarcodeSystem::CODE39, &fits), Ok(format!("*{}*", fits)));
    let codabar = format!("A{}B", "1".repeat(254));
    assert_eq!(symbol(BarcodeSystem::CODABAR, &codabar), Err(PrinterError::PayloadTooLarge));
}

#[test]
fn encoding_an_encoded_symbol_changes_nothing() {
    let once = encode(BarcodeSystem::EAN13, b"978014300723").unwrap();
    let twice = encode(BarcodeSystem::EAN13, &once).unwrap();
    assert_eq!(once, twice);
    assert_eq!(once, b"9780143007234".to_vec());
}
