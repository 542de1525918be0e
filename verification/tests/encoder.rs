use escpos::barcode::BarcodeSystem;
use escpos::domain::{
    BarcodeFont, BarcodeOption, BarcodePosition, CashDrawer, DebugMode, Font, JustifyMode,
    QRCodeCorrectionLevel, QRCodeModel, QRCodeOption, UnderlineMode,
};
use escpos::encoder::code_commands::Code2D;
use escpos::encoder::encode;
use escpos::encoder::instruction::{EncoderState, Instruction};
use escpos::errors::PrinterError;
use escpos::page_code::PageCode;
use escpos::text::render;

fn bytes(instruction: Instruction) -> Vec<u8> {
    let mut state = EncoderState::new(None);
    encode(&instruction, &mut state).unwrap()
}

#[test]
fn fixed_commands_have_their_fixed_bytes() {
    assert_eq!(bytes(Instruction::Init), vec![0x1B, 0x40]);
    assert_eq!(bytes(Instruction::Reset), vec![0x1B, 0x3F, 0x0A, 0x00]);
    assert_eq!(bytes(Instruction::Cut), vec![0x1D, 0x56, 0x41, 0x00]);
    assert_eq!(bytes(Instruction::PartialCut), vec![0x1D, 0x56, 0x41, 0x01]);
    assert_eq!(bytes(Instruction::ResetSize), vec![0x1D, 0x21, 0x00]);
    assert_eq!(bytes(Instruction::ResetLineSpacing), vec![0x1B, 0x32]);
}

#[test]
fn style_commands_carry_their_parameter() {
    assert_eq!(bytes(Instruction::Bold(true)), vec![0x1B, 0x45, 1]);
    assert_eq!(bytes(Instruction::Bold(false)), vec![0x1B, 0x45, 0]);
    assert_eq!(bytes(Instruction::Underline(UnderlineMode::Off)), vec![0x1B, 0x2D, 0]);
    assert_eq!(bytes(Instruction::Underline(UnderlineMode::Single)), vec![0x1B, 0x2D, 1]);
    assert_eq!(bytes(Instruction::Underline(UnderlineMode::Double)), vec![0x1B, 0x2D, 2]);
    assert_eq!(bytes(Instruction::DoubleStrike(true)), vec![0x1B, 0x47, 1]);
    assert_eq!(bytes(Instruction::Font(Font::A)), vec![0x1B, 0x4D, 0]);
    assert_eq!(bytes(Instruction::Font(Font::B)), vec![0x1B, 0x4D, 1]);
    assert_eq!(bytes(Instruction::Font(Font::C)), vec![0x1B, 0x4D, 2]);
    assert_eq!(bytes(Instruction::Flip(true)), vec![0x1B, 0x56, 1]);
    assert_eq!(bytes(Instruction::Justify(JustifyMode::LEFT)), vec![0x1B, 0x61, 0]);
    assert_eq!(bytes(Instruction::Justify(JustifyMode::CENTER)), vec![0x1B, 0x61, 1]);
    assert_eq!(bytes(Instruction::Justify(JustifyMode::RIGHT)), vec![0x1B, 0x61, 2]);
    assert_eq!(bytes(Instruction::Reverse(true)), vec![0x1D, 0x42, 1]);
    assert_eq!(bytes(Instruction::Smoothing(true)), vec![0x1D, 0x62, 1]);
    assert_eq!(bytes(Instruction::Feed(3)), vec![0x1B, 0x64, 3]);
    assert_eq!(bytes(Instruction::LineSpacing(40)), vec![0x1B, 0x33, 40]);
    assert_eq!(bytes(Instruction::UpsideDown(true)), vec![0x1B, 0x7B, 1]);
    assert_eq!(bytes(Instruction::MotionUnits(180, 90)), vec![0x1D, 0x50, 180, 90]);
    assert_eq!(bytes(Instruction::Pulse(CashDrawer::Pin2, 25, 250)), vec![0x1B, 0x70, 0, 25, 250]);
    assert_eq!(bytes(Instruction::Pulse(CashDrawer::Pin5, 1, 2)), vec![0x1B, 0x70, 1, 1, 2]);
    assert_eq!(bytes(Instruction::PageCode(PageCode::PC437)), vec![0x1B, 0x74, 0]);
    assert_eq!(bytes(Instruction::PageCode(PageCode::WPC1252)), vec![0x1B, 0x74, 16]);
}

#[test]
fn size_packs_two_factors_into_one_byte() {
    assert_eq!(bytes(Instruction::Size(1, 1)), vec![0x1D, 0x21, 0x00]);
    assert_eq!(bytes(Instruction::Size(2, 3)), vec![0x1D, 0x21, 0x12]);
    assert_eq!(bytes(Instruction::Size(8, 8)), vec![0x1D, 0x21, 0x77]);
    assert_eq!(bytes(Instruction::Size(8, 1)), vec![0x1D, 0x21, 0x70]);
}

#[test]
fn size_outside_one_to_eight_is_invalid_and_changes_nothing() {
    for (width, height) in [(0u8, 1u8), (1, 0), (9, 1), (1, 9), (0, 0), (255, 255)] {
        let mut state = EncoderState::new(Some(DebugMode::Hex));
        state.bold = true;
        let before = state;
        assert_eq!(
            encode(&Instruction::Size(width, height), &mut state),
            Err(PrinterError::InvalidOption)
        );
        assert_eq!(state, before);
    }
}

#[test]
fn a_switch_and_its_inverse_restore_the_state() {
    let mut state = EncoderState::new(None);
    state.justify = JustifyMode::CENTER;
    state.underline = UnderlineMode::Single;
    let before = state;

    encode(&Instruction::Bold(true), &mut state).unwrap();
    assert!(state.bold);
    encode(&Instruction::Bold(false), &mut state).unwrap();
    assert_eq!(state, before);

    encode(&Instruction::Underline(UnderlineMode::Double), &mut state).unwrap();
    assert_eq!(state.underline, UnderlineMode::Double);
    encode(&Instruction::Underline(UnderlineMode::Single), &mut state).unwrap();
    assert_eq!(state, before);

    encode(&Instruction::Reverse(true), &mut state).unwrap();
    assert!(state.reverse);
    encode(&Instruction::Reverse(false), &mut state).unwrap();
    assert_eq!(state, before);

    encode(&Instruction::DoubleStrike(true), &mut state).unwrap();
    assert!(state.double_strike);
    encode(&Instruction::DoubleStrike(false), &mut state).unwrap();
    assert_eq!(state, before);
}

#[test]
fn init_restores_the_defaults_and_keeps_the_debug_mode() {
    let mut state = EncoderState::new(Some(DebugMode::Dec));
    encode(&Instruction::Bold(true), &mut state).unwrap();
    encode(&Instruction::Size(3, 4), &mut state).unwrap();
    encode(&Instruction::PageCode(PageCode::WPC1252), &mut state).unwrap();
    encode(&Instruction::LineSpacing(9), &mut state).unwrap();
    assert_ne!(state, EncoderState::new(Some(DebugMode::Dec)));
    encode(&Instruction::Init, &mut state).unwrap();
    assert_eq!(state, EncoderState::new(Some(DebugMode::Dec)));
    assert_eq!(state.width, 1);
    assert_eq!(state.line_spacing, None);
}

#[test]
fn text_is_encoded_under_the_table_in_force() {
    let mut state = EncoderState::new(None);
    let text = Instruction::Text("caf\u{e9} \u{a3}5".to_owned());
    assert_eq!(encode(&text, &mut state), Ok(vec![0x63, 0x61, 0x66, 0x82, 0x20, 0x9C, 0x35]));
    encode(&Instruction::PageCode(PageCode::WPC1252), &mut state).unwrap();
    assert_eq!(encode(&text, &mut state), Ok(vec![0x63, 0x61, 0x66, 0xE9, 0x20, 0xA3, 0x35]));
}

#[test]
fn text_that_the_table_lacks_is_rejected_whole() {
    let mut state = EncoderState::new(None);
    let euro = Instruction::Text("5 \u{20ac}".to_owned());
    assert_eq!(encode(&euro, &mut state), Err(PrinterError::InvalidOption));
    assert_eq!(state, EncoderState::new(None));
    encode(&Instruction::PageCode(PageCode::WPC1252), &mut state).unwrap();
    assert_eq!(encode(&euro, &mut state), Ok(vec![0x35, 0x20, 0x80]));
    let box_drawing = Instruction::Text("\u{2500}".to_owned());
    assert_eq!(encode(&box_drawing, &mut state), Err(PrinterError::InvalidOption));
    encode(&Instruction::PageCode(PageCode::PC437), &mut state).unwrap();
    assert_eq!(encode(&box_drawing, &mut state), Ok(vec![0xC4]));
}

#[test]
fn every_byte_of_a_table_comes_back_from_its_character() {
    for page in [PageCode::PC437, PageCode::WPC1252] {
        let mut seen = Vec::new();
        for code in 0u32..0x3000 {
            if let Some(c) = char::from_u32(code) {
                if let Some(b) = page.encode_char(c) {
                    assert!(!seen.contains(&b));
                    seen.push(b);
                }
            }
        }
        let undefined = if page == PageCode::WPC1252 { 5 } else { 0 };
        assert_eq!(seen.len(), 256 - undefined);
    }
    assert_eq!(PageCode::PC437.encode_char('\u{a0}'), Some(0xFF));
    assert_eq!(PageCode::PC437.encode_char('\u{c7}'), Some(0x80));
    assert_eq!(PageCode::WPC1252.encode_char('\u{178}'), Some(0x9F));
    assert_eq!(PageCode::WPC1252.encode_char('\u{ff}'), Some(0xFF));
    assert_eq!(PageCode::WPC1252.encode_char('\u{81}'), None);
    assert_eq!(PageCode::PC437.encode_char('A'), Some(0x41));
}

#[test]
fn custom_bytes_pass_through_unchanged() {
    let mut state = EncoderState::new(None);
    let raw = vec![0x00, 0xFF, 0x1B, 0x40, 0x80];
    assert_eq!(encode(&Instruction::Custom(raw.clone(), None), &mut state), Ok(raw.clone()));
    assert_eq!(state.page_code, PageCode::PC437);
    assert_eq!(
        encode(&Instruction::Custom(raw.clone(), Some(PageCode::WPC1252)), &mut state),
        Ok(vec![0x1B, 0x74, 16, 0x00, 0xFF, 0x1B, 0x40, 0x80])
    );
    assert_eq!(state.page_code, PageCode::WPC1252);
    assert_eq!(encode(&Instruction::Custom(Vec::new(), None), &mut state), Ok(Vec::new()));
}

#[test]
fn a_barcode_is_its_options_then_the_print_command() {
    let option = BarcodeOption::new(2, 80, BarcodeFont::B, BarcodePosition::Above).unwrap();
    let barcode = Instruction::Barcode(BarcodeSystem::EAN13, b"123456789012".to_vec(), option);
    let mut expected = vec![
        0x1D, 0x77, 2, 0x1D, 0x68, 80, 0x1D, 0x66, 1, 0x1D, 0x48, 1, 0x1D, 0x6B, 67, 13,
    ];
    expected.extend_from_slice(b"1234567890128");
    assert_eq!(bytes(barcode), expected);

    let standard = Instruction::Barcode(
        BarcodeSystem::CODE39,
        b"OK".to_vec(),
        BarcodeOption::default(),
    );
    let mut expected = vec![
        0x1D, 0x77, 3, 0x1D, 0x68, 162, 0x1D, 0x66, 0, 0x1D, 0x48, 2, 0x1D, 0x6B, 69, 4,
    ];
    expected.extend_from_slice(b"*OK*");
    assert_eq!(bytes(standard), expected);
}

#[test]
fn each_symbology_has_its_own_code() {
    let codes: Vec<u8> = [
        BarcodeSystem::UPCA,
        BarcodeSystem::UPCE,
        BarcodeSystem::EAN13,
        BarcodeSystem::EAN8,
        BarcodeSystem::CODE39,
        BarcodeSystem::ITF,
        BarcodeSystem::CODABAR,
    ]
    .iter()
    .map(|s| s.byte())
    .collect();
    assert_eq!(codes, vec![65, 66, 67, 68, 69, 70, 71]);
}

#[test]
fn a_rejected_barcode_emits_nothing() {
    let mut state = EncoderState::new(None);
    let barcode =
        Instruction::Barcode(BarcodeSystem::EAN13, b"12345678901X".to_vec(), BarcodeOption::default());
    assert_eq!(encode(&barcode, &mut state), Err(PrinterError::UnsupportedSymbology));
    let long = Instruction::Barcode(BarcodeSystem::ITF, vec![b'1'; 256], BarcodeOption::default());
    assert_eq!(encode(&long, &mut state), Err(PrinterError::PayloadTooLarge));
    assert_eq!(state, EncoderState::new(None));
}

#[test]
fn barcode_options_outside_the_device_range_are_rejected() {
    let font = BarcodeFont::A;
    let position = BarcodePosition::Hidden;
    assert_eq!(BarcodeOption::new(1, 50, font, position), Err(PrinterError::InvalidOption));
    assert_eq!(BarcodeOption::new(7, 50, font, position), Err(PrinterError::InvalidOption));
    assert_eq!(BarcodeOption::new(3, 0, font, position), Err(PrinterError::InvalidOption));
    let widest = BarcodeOption::new(6, 255, font, BarcodePosition::Both).unwrap();
    assert_eq!((widest.width(), widest.height()), (6, 255));
    assert_eq!(widest.position().byte(), 3);
    let narrowest = BarcodeOption::new(2, 1, font, position).unwrap();
    assert_eq!((narrowest.width(), narrowest.height()), (2, 1));
    assert_eq!(narrowest.position().byte(), 0);
}

#[test]
fn a_qr_code_is_stored_then_printed() {
    let option = QRCodeOption::new(QRCodeModel::Model1, 6, QRCodeCorrectionLevel::H).unwrap();
    let code = Instruction::QRCode(b"https://example.org".to_vec(), option);
    let mut expected = vec![
        0x1D, 0x28, 0x6B, 4, 0, 49, 65, 49, 0, // model
        0x1D, 0x28, 0x6B, 3, 0, 49, 67, 6, // module size
        0x1D, 0x28, 0x6B, 3, 0, 49, 69, 51, // error correction
        0x1D, 0x28, 0x6B, 22, 0, 49, 80, 48, // store
    ];
    expected.extend_from_slice(b"https://example.org");
    expected.extend_from_slice(&[0x1D, 0x28, 0x6B, 3, 0, 49, 81, 48]);
    assert_eq!(bytes(code), expected);
}

#[test]
fn a_long_qr_payload_states_its_length_in_two_bytes() {
    let payload = vec![b'7'; 1000];
    let out = bytes(Instruction::QRCode(payload.clone(), QRCodeOption::default()));
    // 1003 = 0x03EB
    assert_eq!(&out[25..33], &[0x1D, 0x28, 0x6B, 0xEB, 0x03, 49, 80, 48]);
    assert_eq!(&out[9..17], &[0x1D, 0x28, 0x6B, 3, 0, 49, 67, 4]);
    assert_eq!(&out[7..8], &[50]);
    assert_eq!(&out[24..25], &[49]);
    assert_eq!(&out[33..1033], payload.as_slice());
    assert_eq!(out.len(), 33 + 1000 + 8);
}

#[test]
fn qr_payloads_have_a_floor_and_a_ceiling() {
    let mut state = EncoderState::new(None);
    let option = QRCodeOption::default();
    assert_eq!(
        encode(&Instruction::QRCode(Vec::new(), option), &mut state),
        Err(PrinterError::UnsupportedSymbology)
    );
    assert_eq!(
        encode(&Instruction::QRCode(vec![b'1'; 7090], option), &mut state),
        Err(PrinterError::PayloadTooLarge)
    );
    assert!(encode(&Instruction::QRCode(vec![b'1'; 7089], option), &mut state).is_ok());
    assert_eq!(
        QRCodeOption::new(QRCodeModel::Model2, 0, QRCodeCorrectionLevel::L),
        Err(PrinterError::InvalidOption)
    );
    assert_eq!(
        QRCodeOption::new(QRCodeModel::Model2, 17, QRCodeCorrectionLevel::L),
        Err(PrinterError::InvalidOption)
    );
    let largest = QRCodeOption::new(QRCodeModel::Micro, 16, QRCodeCorrectionLevel::Q).unwrap();
    assert_eq!((largest.model().byte(), largest.size(), largest.level().byte()), (51, 16, 50));
}

#[test]
fn bytes_are_rendered_in_decimal_or_hexadecimal() {
    assert_eq!(render(&[0x1B, 0x40], DebugMode::Dec), "27 64");
    assert_eq!(render(&[0x1B, 0x40], DebugMode::Hex), "1B 40");
    assert_eq!(render(&[0, 9, 10, 255], DebugMode::Dec), "0 9 10 255");
    assert_eq!(render(&[0, 9, 10, 255, 0xA5], DebugMode::Hex), "00 09 0A FF A5");
    assert_eq!(render(&[], DebugMode::Hex), "");
    assert_eq!(render(&[7], DebugMode::Dec), "7");
}

#[test]
fn a_2d_symbol_is_stored_then_printed() {
    assert_eq!(
        bytes(Instruction::Symbol(Code2D::PDF417, b"ab".to_vec())),
        vec![0x1D, 0x28, 0x6B, 5, 0, 48, 80, 48, b'a', b'b', 0x1D, 0x28, 0x6B, 3, 0, 48, 81, 48]
    );
    for (kind, code) in [
        (Code2D::PDF417, 48u8),
        (Code2D::MaxiCode, 50),
        (Code2D::GS1DataBar, 51),
        (Code2D::Aztec, 53),
        (Code2D::DataMatrix, 54),
    ] {
        assert_eq!(kind.byte(), code);
        let out = bytes(Instruction::Symbol(kind, vec![7]));
        assert_eq!(out, vec![0x1D, 0x28, 0x6B, 4, 0, code, 80, 48, 7, 0x1D, 0x28, 0x6B, 3, 0, code, 81, 48]);
    }
    let mut state = EncoderState::new(None);
    assert_eq!(
        encode(&Instruction::Symbol(Code2D::Aztec, Vec::new()), &mut state),
        Err(PrinterError::UnsupportedSymbology)
    );
}

#[test]
fn a_block_too_long_for_one_store_command_is_split() {
    let block: Vec<u8> = (0..65532 + 10).map(|i| (i % 251) as u8).collect();
    let out = bytes(Instruction::Symbol(Code2D::DataMatrix, block.clone()));
    assert_eq!(out.len(), 8 + 65532 + 8 + 10 + 8);
    // The first command is full: 65532 + 3 = 0xFFFF.
    assert_eq!(&out[..8], &[0x1D, 0x28, 0x6B, 0xFF, 0xFF, 54, 80, 48]);
    assert_eq!(&out[8..8 + 65532], &block[..65532]);
    // The second carries the rest: 10 + 3.
    let second = 8 + 65532;
    assert_eq!(&out[second..second + 8], &[0x1D, 0x28, 0x6B, 13, 0, 54, 80, 48]);
    assert_eq!(&out[second + 8..second + 18], &block[65532..]);
    assert_eq!(&out[second + 18..], &[0x1D, 0x28, 0x6B, 3, 0, 54, 81, 48]);

    let exact = vec![1u8; 65532];
    let out = bytes(Instruction::Symbol(Code2D::PDF417, exact));
    assert_eq!(out.len(), 8 + 65532 + 8);
    let twice = vec![1u8; 2 * 65532];
    let out = bytes(Instruction::Symbol(Code2D::PDF417, twice));
    assert_eq!(out.len(), 2 * (8 + 65532) + 8);
}
