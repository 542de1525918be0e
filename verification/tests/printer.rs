use escpos::domain::{BitImageSize, DebugMode, JustifyMode, UnderlineMode};
use escpos::driver::{Driver, MemoryDriver};
use escpos::encoder::instruction::{EncoderState, Instruction};
use escpos::errors::PrinterError;
use escpos::page_code::PageCode;
use escpos::printer::Printer;
use escpos::raster::{BitImageOption, Bitmap};

/// A driver that takes bytes until told to fail, and records what it took.
struct Flaky {
    taken: Vec<u8>,
    fail_write: bool,
    fail_flush: bool,
    flushed: usize,
}

impl Flaky {
    fn new() -> Flaky {
        Flaky { taken: Vec::new(), fail_write: false, fail_flush: false, flushed: 0 }
    }
}

impl Driver for Flaky {
    fn name(&self) -> String {
        "flaky".to_owned()
    }

    fn write(&mut self, data: &[u8]) -> Result<(), PrinterError> {
        if self.fail_write {
            return Err(PrinterError::Io("write refused".to_owned()));
        }
        self.taken.extend_from_slice(data);
        Ok(())
    }

    fn read(&mut self, _buf: &mut [u8]) -> Result<usize, PrinterError> {
        Ok(0)
    }

    fn flush(&mut self) -> Result<(), PrinterError> {
        if self.fail_flush {
            return Err(PrinterError::Io("flush refused".to_owned()));
        }
        self.flushed += 1;
        Ok(())
    }
}

#[test]
fn init_bold_line_unbold_cut_in_that_order() {
    let mut printer = Printer::new(MemoryDriver::open(), None);
    printer
        .init()
        .unwrap()
        .bold(true)
        .unwrap()
        .writeln("A")
        .unwrap()
        .bold(false)
        .unwrap()
        .cut()
        .unwrap();
    let expected: Vec<u8> = vec![
        0x1B, 0x40, // init
        0x1B, 0x45, 0x01, // bold on
        0x41, 0x0A, // "A" and the line feed
        0x1B, 0x45, 0x00, // bold off
        0x1D, 0x56, 0x41, 0x00, // cut
    ];
    assert_eq!(printer.buffer(), &expected);
    assert_eq!(&printer.buffer()[..2], &[0x1B, 0x40]);
    assert!(printer.driver().written().is_empty());
    assert_eq!(printer.driver().delivered_len(), 0);
    printer.print().unwrap();
    assert_eq!(printer.driver().written(), &expected);
    assert_eq!(printer.driver().delivered_len(), expected.len());
    assert!(printer.buffer().is_empty());
    assert_eq!(printer.driver().flushes(), 1);
}

#[test]
fn a_failing_call_leaves_the_buffer_as_it_was() {
    let mut printer = Printer::new(MemoryDriver::open(), Some(DebugMode::Hex));
    printer.init().unwrap().justify(JustifyMode::CENTER).unwrap();
    let buffer = printer.buffer().clone();
    let state = printer.state();
    let diagnostics_len = "1B 40\n1B 61 01\n".len();

    assert_eq!(printer.size(0, 3).err(), Some(PrinterError::InvalidOption));
    assert_eq!(printer.write("\u{20ac}").err(), Some(PrinterError::InvalidOption));
    assert_eq!(printer.writeln("ok \u{20ac}").err(), Some(PrinterError::InvalidOption));
    assert_eq!(printer.ean13("12345").err(), Some(PrinterError::UnsupportedSymbology));
    assert_eq!(printer.itf(&"1".repeat(256)).err(), Some(PrinterError::PayloadTooLarge));
    assert_eq!(printer.qrcode("").err(), Some(PrinterError::UnsupportedSymbology));

    assert_eq!(printer.buffer(), &buffer);
    assert_eq!(printer.state(), state);
    assert_eq!(printer.take_diagnostics().len(), diagnostics_len);

    // The same call with corrected arguments goes through.
    printer.size(2, 3).unwrap();
    assert_eq!(&printer.buffer()[buffer.len()..], &[0x1D, 0x21, 0x12]);
}

#[test]
fn a_chain_stops_at_the_first_error() {
    fn build(printer: &mut Printer<MemoryDriver>) -> Result<(), PrinterError> {
        printer.init()?.bold(true)?.size(9, 9)?.writeln("never")?.cut()?;
        Ok(())
    }
    let mut printer = Printer::new(MemoryDriver::open(), None);
    assert_eq!(build(&mut printer), Err(PrinterError::InvalidOption));
    assert_eq!(printer.buffer(), &vec![0x1B, 0x40, 0x1B, 0x45, 0x01]);
}

#[test]
fn the_buffer_is_cleared_only_when_the_driver_succeeds() {
    let mut printer = Printer::new(Flaky::new(), None);
    printer.init().unwrap().write("x").unwrap();
    let document = printer.buffer().clone();

    let mut refusing = Flaky::new();
    refusing.fail_write = true;
    let mut printer_a = Printer::new(refusing, None);
    printer_a.init().unwrap().write("x").unwrap();
    assert_eq!(printer_a.print().err(), Some(PrinterError::Io("write refused".to_owned())));
    assert_eq!(printer_a.buffer(), &document);
    assert!(printer_a.driver().taken.is_empty());

    let mut stuck = Flaky::new();
    stuck.fail_flush = true;
    let mut printer_b = Printer::new(stuck, None);
    printer_b.init().unwrap().write("x").unwrap();
    assert_eq!(printer_b.print().err(), Some(PrinterError::Io("flush refused".to_owned())));
    assert_eq!(printer_b.buffer(), &document);

    printer.print().unwrap();
    assert!(printer.buffer().is_empty());
    assert_eq!(printer.driver().taken, document);
    assert_eq!(printer.driver().flushed, 1);
}

#[test]
fn two_documents_on_one_printer_are_delivered_one_after_the_other() {
    let mut printer = Printer::new(MemoryDriver::open(), None);
    printer.write("one").unwrap().print().unwrap();
    printer.write("two").unwrap().print().unwrap();
    assert_eq!(printer.driver().written(), &b"onetwo".to_vec());
    assert_eq!(printer.driver().flushes(), 2);
    assert_eq!(printer.driver().name(), "Memory Driver");
}

#[test]
fn print_cut_cuts_then_prints() {
    let mut printer = Printer::new(MemoryDriver::open(), None);
    printer.write("bye").unwrap().print_cut().unwrap();
    assert_eq!(printer.driver().written(), &vec![0x62, 0x79, 0x65, 0x1D, 0x56, 0x41, 0x00]);
    assert!(printer.buffer().is_empty());

    let mut stuck = Flaky::new();
    stuck.fail_flush = true;
    let mut failing = Printer::new(stuck, None);
    failing.write("bye").unwrap();
    assert!(failing.print_cut().is_err());
    assert_eq!(failing.buffer(), &vec![0x62, 0x79, 0x65, 0x1D, 0x56, 0x41, 0x00]);
}

#[test]
fn debug_mode_traces_the_bytes_and_sends_the_same_ones() {
    let mut plain = Printer::new(MemoryDriver::open(), None);
    plain.init().unwrap().underline(UnderlineMode::Double).unwrap().writeln("Hi").unwrap();
    assert_eq!(plain.take_diagnostics(), "");

    let mut hex = Printer::new(MemoryDriver::open(), Some(DebugMode::Hex));
    hex.init().unwrap().underline(UnderlineMode::Double).unwrap().writeln("Hi").unwrap();
    assert_eq!(hex.take_diagnostics(), "1B 40\n1B 2D 02\n48 69 0A\n");
    assert_eq!(hex.take_diagnostics(), "");

    let mut dec = Printer::new(MemoryDriver::open(), None);
    dec.debug_mode(Some(DebugMode::Dec))
        .init()
        .unwrap()
        .underline(UnderlineMode::Double)
        .unwrap()
        .writeln("Hi")
        .unwrap();
    assert_eq!(dec.take_diagnostics(), "27 64\n27 45 2\n72 105 10\n");

    assert_eq!(plain.buffer(), hex.buffer());
    assert_eq!(plain.buffer(), dec.buffer());
}

#[test]
fn text_follows_the_table_selected_at_the_time_of_writing() {
    let mut printer = Printer::new(MemoryDriver::open(), None);
    printer
        .write("\u{e9}")
        .unwrap()
        .page_code(PageCode::WPC1252)
        .unwrap()
        .write("\u{e9}")
        .unwrap();
    assert_eq!(printer.buffer(), &vec![0x82, 0x1B, 0x74, 16, 0xE9]);
    assert_eq!(printer.state().page_code, PageCode::WPC1252);
    printer.init().unwrap();
    assert_eq!(printer.state(), EncoderState::new(None));
}

#[test]
fn every_fluent_call_is_its_instruction() {
    let mut fluent = Printer::new(MemoryDriver::open(), None);
    fluent
        .reset()
        .unwrap()
        .partial_cut()
        .unwrap()
        .double_strike(true)
        .unwrap()
        .font(escpos::domain::Font::B)
        .unwrap()
        .flip(true)
        .unwrap()
        .reverse(true)
        .unwrap()
        .reset_size()
        .unwrap()
        .smoothing(true)
        .unwrap()
        .feed()
        .unwrap()
        .feeds(4)
        .unwrap()
        .line_spacing(30)
        .unwrap()
        .reset_line_spacing()
        .unwrap()
        .upside_down(true)
        .unwrap()
        .cash_drawer(escpos::domain::CashDrawer::Pin2)
        .unwrap()
        .motion_units(1, 2)
        .unwrap()
        .custom(&[1, 2, 3])
        .unwrap()
        .custom_with_page_code(&[4], PageCode::WPC1252)
        .unwrap();
    let mut applied = Printer::new(MemoryDriver::open(), None);
    for instruction in [
        Instruction::Reset,
        Instruction::PartialCut,
        Instruction::DoubleStrike(true),
        Instruction::Font(escpos::domain::Font::B),
        Instruction::Flip(true),
        Instruction::Reverse(true),
        Instruction::ResetSize,
        Instruction::Smoothing(true),
        Instruction::Feed(1),
        Instruction::Feed(4),
        Instruction::LineSpacing(30),
        Instruction::ResetLineSpacing,
        Instruction::UpsideDown(true),
        Instruction::Pulse(escpos::domain::CashDrawer::Pin2, 25, 250),
        Instruction::MotionUnits(1, 2),
        Instruction::Custom(vec![1, 2, 3], None),
        Instruction::Custom(vec![4], Some(PageCode::WPC1252)),
    ] {
        applied.apply(&instruction).unwrap();
    }
    assert_eq!(fluent.buffer(), applied.buffer());
    assert_eq!(fluent.state(), applied.state());
    assert_eq!(&fluent.buffer()[fluent.buffer().len() - 16..], &[
        0x1B, 0x70, 0, 25, 250, 0x1D, 0x50, 1, 2, 1, 2, 3, 0x1B, 0x74, 16, 4,
    ][..]);
}

#[test]
fn barcodes_and_codes_reach_the_buffer() {
    let mut printer = Printer::new(MemoryDriver::open(), None);
    printer.ean13("123456789012").unwrap();
    let mut expected = vec![
        0x1D, 0x77, 3, 0x1D, 0x68, 162, 0x1D, 0x66, 0, 0x1D, 0x48, 2, 0x1D, 0x6B, 67, 13,
    ];
    expected.extend_from_slice(b"1234567890128");
    assert_eq!(printer.buffer(), &expected);

    let mut others = Printer::new(MemoryDriver::open(), None);
    others
        .ean8("1234567")
        .unwrap()
        .upca("03600029145")
        .unwrap()
        .upce("123456")
        .unwrap()
        .code39("A1")
        .unwrap()
        .codabar("A1B")
        .unwrap()
        .itf("12")
        .unwrap()
        .qrcode("q")
        .unwrap();
    let text = String::from_utf8_lossy(others.buffer()).into_owned();
    for symbol in ["12345670", "036000291452", "01234565", "*A1*", "A1B", "12", "q"] {
        assert!(text.contains(symbol), "{} is missing", symbol);
    }
}

#[test]
fn symbols_built_by_the_device_reach_the_buffer() {
    let mut printer = Printer::new(MemoryDriver::open(), None);
    printer
        .pdf417("a")
        .unwrap()
        .maxi_code("b")
        .unwrap()
        .gs1_databar_2d("c")
        .unwrap()
        .aztec("d")
        .unwrap()
        .data_matrix("e")
        .unwrap();
    let mut expected = Vec::new();
    for (code, data) in [(48u8, b'a'), (50, b'b'), (51, b'c'), (53, b'd'), (54, b'e')] {
        expected.extend_from_slice(&[0x1D, 0x28, 0x6B, 4, 0, code, 80, 48, data]);
        expected.extend_from_slice(&[0x1D, 0x28, 0x6B, 3, 0, code, 81, 48]);
    }
    assert_eq!(printer.buffer(), &expected);
    assert_eq!(printer.pdf417("").err(), Some(PrinterError::UnsupportedSymbology));
    assert_eq!(printer.buffer(), &expected);
}

#[test]
fn settling_clears_the_buffer_only_after_a_delivery() {
    let mut printer = Printer::new(MemoryDriver::open(), None);
    printer.write("kept").unwrap();
    let refused = PrinterError::Io("line down".to_owned());
    assert_eq!(printer.settle(Err(refused)).err(), Some(PrinterError::Io("line down".to_owned())));
    assert_eq!(printer.buffer(), &b"kept".to_vec());
    printer.settle(Ok(())).unwrap();
    assert!(printer.buffer().is_empty());
}

#[test]
fn an_image_reaches_the_buffer_as_raster_bands() {
    let mut printer = Printer::new(MemoryDriver::open(), None);
    printer.bit_image(Bitmap::new(8, 1, vec![0, 255, 0, 255, 0, 255, 0, 255]).unwrap()).unwrap();
    assert_eq!(printer.buffer(), &vec![0x1D, 0x76, 0x30, 0, 1, 0, 1, 0, 0b1010_1010]);
    let option = BitImageOption::new(Some(4), None, BitImageSize::DoubleHeight).unwrap();
    let mut scaled = Printer::new(MemoryDriver::open(), None);
    scaled
        .bit_image_option(Bitmap::new(8, 1, vec![0, 0, 255, 255, 0, 0, 255, 255]).unwrap(), option)
        .unwrap();
    assert_eq!(scaled.buffer(), &vec![0x1D, 0x76, 0x30, 2, 1, 0, 1, 0, 0b1010_0000]);
}

#[test]
fn what_is_written_is_delivered_only_by_a_flush() {
    let mut driver = MemoryDriver::open();
    driver.write(&[1, 2, 3]).unwrap();
    assert_eq!(driver.delivered_len(), 0);
    driver.flush().unwrap();
    assert_eq!(driver.delivered_len(), 3);
    driver.write(&[4]).unwrap();
    assert_eq!(driver.delivered_len(), 3);
    assert_eq!(driver.written(), &vec![1, 2, 3, 4]);
    let mut buf = [0u8; 2];
    assert_eq!(driver.read(&mut buf), Ok(0));
    driver.flush().unwrap();
    assert_eq!(driver.delivered_len(), 4);
}
