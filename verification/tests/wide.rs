use escpos::driver::windows::{WindowsDriver, WindowsPrinter};
use escpos::wide::to_wide;

#[test]
fn text_becomes_zero_terminated_utf16() {
    assert_eq!(to_wide(""), vec![0]);
    assert_eq!(to_wide("A"), vec![0x41, 0]);
    assert_eq!(to_wide("A\u{e9}\u{20ac}"), vec![0x41, 0xE9, 0x20AC, 0]);
    assert_eq!(to_wide("\u{1F600}"), vec![0xD83D, 0xDE00, 0]);
    assert_eq!(to_wide("\u{10000}\u{10FFFF}"), vec![0xD800, 0xDC00, 0xDBFF, 0xDFFF, 0]);
    assert_eq!(to_wide("\u{FFFF}"), vec![0xFFFF, 0]);
    let text = "Receipts \u{1F9FE} printer";
    let mut expected: Vec<u16> = text.encode_utf16().collect();
    expected.push(0);
    assert_eq!(to_wide(text), expected);
}

#[test]
fn a_printer_is_known_by_its_wide_name() {
    let printer = WindowsPrinter::new("POS-80");
    assert_eq!(printer.get_raw_vec(), &vec![0x50, 0x4F, 0x53, 0x2D, 0x38, 0x30, 0]);
    assert_eq!(WindowsPrinter::from_raw(vec![0x50, 0]).get_raw_vec(), &vec![0x50, 0]);
    assert_eq!(WindowsPrinter::from_raw(vec![0x50]).get_raw_vec(), &vec![0x50, 0]);
    assert_eq!(WindowsPrinter::from_raw(vec![]).get_raw_vec(), &vec![0]);
}

#[test]
fn an_open_driver_buffers_what_it_is_given() {
    let printer = WindowsPrinter::new("POS-80");
    let mut driver = WindowsDriver::open(&printer).unwrap();
    assert_eq!(driver.name(), "Windows Driver");
    assert_eq!(driver.printer_name(), printer.get_raw_vec());
    assert_eq!(driver.print_count(), 0);
    assert!(driver.payload().is_empty());
    driver.write(&[1, 2]).unwrap();
    driver.write(&[]).unwrap();
    driver.write(&[3]).unwrap();
    assert_eq!(driver.payload(), &vec![1, 2, 3]);
    let mut buf = [9u8; 4];
    assert_eq!(driver.read(&mut buf), Ok(0));
    assert_eq!(buf, [9u8; 4]);
    let job = driver.start_job();
    assert_eq!(job.payload_len, 3);
    assert_eq!(job.job_number, 0);
    assert!(!job.with_page);
    driver.set_with_page(true);
    assert!(driver.start_job().with_page);
}
