use escpos::driver::job_name::document_name;
use escpos::driver::spooler::{JobAction, JobFailure, SpoolerJob, SpoolerReply};
use escpos::driver::windows::{WindowsDriver, WindowsPrinter};
use escpos::errors::PrinterError;

/// Runs `job` to its end against a spooler that answers each call with
/// `answer`, and returns the calls in the order in which they were made.
fn run(job: &mut SpoolerJob, answer: &dyn Fn(JobAction) -> SpoolerReply) -> Vec<JobAction> {
    let mut calls = Vec::new();
    let mut steps = 0;
    while !job.is_finished() {
        let action = job.next_action();
        calls.push(action);
        job.advance(answer(action));
        steps += 1;
        assert!(steps <= 7, "a job makes at most seven calls");
    }
    calls
}

fn count(calls: &[JobAction], action: JobAction) -> usize {
    calls.iter().filter(|c| **c == action).count()
}

fn all_good(payload_len: u32) -> impl Fn(JobAction) -> SpoolerReply {
    move |action| match action {
        JobAction::WritePayload => SpoolerReply::wrote(payload_len),
        _ => SpoolerReply::success(),
    }
}

#[test]
fn short_write_is_an_io_error_and_tears_down_document_then_printer() {
    let mut job = SpoolerJob::new(5, 0, false);
    let calls = run(&mut job, &|action| match action {
        JobAction::WritePayload => SpoolerReply::wrote(3),
        _ => SpoolerReply::success(),
    });
    assert_eq!(
        job.outcome(),
        Err(PrinterError::Io("Failed to write all bytes to printer".to_owned()))
    );
    assert_eq!(
        calls,
        vec![
            JobAction::OpenPrinter,
            JobAction::StartDocument,
            JobAction::WritePayload,
            JobAction::EndDocument,
            JobAction::ClosePrinter,
        ]
    );
    assert_eq!(count(&calls, JobAction::EndDocument), 1);
    assert_eq!(count(&calls, JobAction::ClosePrinter), 1);
    assert_eq!(count(&calls, JobAction::EndPage), 0);
    assert!(!job.printer_opened && !job.document_started && !job.page_started);
}

#[test]
fn unknown_printer_is_an_io_error_without_teardown() {
    let mut job = SpoolerJob::new(5, 0, false);
    let calls = run(&mut job, &|_| SpoolerReply::failure());
    assert_eq!(job.outcome(), Err(PrinterError::Io("Failed to open printer".to_owned())));
    assert_eq!(calls, vec![JobAction::OpenPrinter]);
    assert_eq!(job.failure, Some(JobFailure::OpenPrinter));
    assert!(!job.printer_opened && !job.document_started && !job.page_started);
    assert!(job.failed_releases().is_empty());
}

#[test]
fn two_sessions_on_one_driver_are_two_documents() {
    let printer = WindowsPrinter::new("Receipts");
    let mut driver = WindowsDriver::open(&printer).unwrap();

    driver.write(&[0x1B, 0x40]).unwrap();
    let mut first = driver.start_job();
    assert_eq!(first.payload_len, 2);
    assert_eq!(driver.payload(), &vec![0x1B, 0x40]);
    let first_calls = run(&mut first, &all_good(2));
    assert_eq!(driver.finish_job(&first), Ok(()));
    assert!(driver.payload().is_empty());

    driver.write(&[0x0A]).unwrap();
    let mut second = driver.start_job();
    // Nothing of the first session is in the second document.
    assert_eq!(second.payload_len, 1);
    assert_eq!(driver.payload(), &vec![0x0A]);
    let second_calls = run(&mut second, &all_good(1));
    assert_eq!(driver.finish_job(&second), Ok(()));
    assert!(driver.payload().is_empty());

    assert_eq!(first.job_number, 0);
    assert_eq!(second.job_number, 1);
    assert_eq!(first.document_name(), "Raw document #0");
    assert_eq!(second.document_name(), "Raw document #1");
    assert_ne!(first.document_name(), second.document_name());
    assert_eq!(first_calls, second_calls);
    assert_eq!(count(&first_calls, JobAction::StartDocument), 1);
    assert_eq!(count(&second_calls, JobAction::StartDocument), 1);
    assert!(!second.printer_opened && !second.document_started && !second.page_started);
    assert_eq!(driver.print_count(), 2);
    assert_eq!(document_name(1234567890), "Raw document #1234567890");
}

#[test]
fn a_failed_session_keeps_its_bytes_for_the_next() {
    let printer = WindowsPrinter::new("Receipts");
    let mut driver = WindowsDriver::open(&printer).unwrap();
    driver.write(b"ab").unwrap();
    let mut failed = driver.start_job();
    run(&mut failed, &|action| match action {
        JobAction::WritePayload => SpoolerReply::wrote(1),
        _ => SpoolerReply::success(),
    });
    assert_eq!(
        driver.finish_job(&failed),
        Err(PrinterError::Io("Failed to write all bytes to printer".to_owned()))
    );
    assert_eq!(driver.payload(), &b"ab".to_vec());
    driver.write(b"c").unwrap();
    let mut again = driver.start_job();
    assert_eq!(again.payload_len, 3);
    assert_eq!(again.job_number, 1);
    run(&mut again, &all_good(3));
    assert_eq!(driver.finish_job(&again), Ok(()));
    assert!(driver.payload().is_empty());
}

#[test]
fn the_spooler_is_asked_for_the_whole_payload_or_the_most_it_can_state() {
    assert_eq!(SpoolerJob::new(0, 0, false).asked_len(), 0);
    assert_eq!(SpoolerJob::new(14, 0, false).asked_len(), 14);
    assert_eq!(SpoolerJob::new(u32::MAX as usize, 0, true).asked_len(), u32::MAX);
    if usize::BITS > 32 {
        assert_eq!(SpoolerJob::new(u32::MAX as usize + 1, 0, false).asked_len(), u32::MAX);
        assert_eq!(SpoolerJob::new(usize::MAX, 0, false).asked_len(), u32::MAX);
    }
}

#[test]
fn a_receipt_written_in_parts_is_one_payload() {
    let printer = WindowsPrinter::new("Receipts");
    let mut driver = WindowsDriver::open(&printer).unwrap();
    let parts: [&[u8]; 5] = [
        &[0x1B, 0x40],
        &[0x1B, 0x45, 0x01],
        &[0x41, 0x0A],
        &[0x1B, 0x45, 0x00],
        &[0x1D, 0x56, 0x41, 0x00],
    ];
    for part in parts {
        driver.write(part).unwrap();
    }
    let whole = parts.concat();
    assert_eq!(driver.payload(), &whole);
    let mut job = driver.start_job();
    assert_eq!(job.asked_len(), 14);
    let calls = run(&mut job, &all_good(14));
    assert_eq!(count(&calls, JobAction::WritePayload), 1);
    assert_eq!(driver.finish_job(&job), Ok(()));
}

#[test]
fn a_job_with_a_page_ends_the_page_first() {
    let mut job = SpoolerJob::new(4, 7, true);
    let calls = run(&mut job, &all_good(4));
    assert_eq!(job.outcome(), Ok(()));
    assert_eq!(
        calls,
        vec![
            JobAction::OpenPrinter,
            JobAction::StartDocument,
            JobAction::StartPage,
            JobAction::WritePayload,
            JobAction::EndPage,
            JobAction::EndDocument,
            JobAction::ClosePrinter,
        ]
    );
    assert_eq!(job.document_name(), "Raw document #7");
    assert_eq!(job.data_type(), "Raw");
}

#[test]
fn each_failed_step_has_its_own_teardown_and_text() {
    let cases: Vec<(bool, JobAction, &str, Vec<JobAction>)> = vec![
        (
            false,
            JobAction::StartDocument,
            "Failed to start doc",
            vec![JobAction::OpenPrinter, JobAction::StartDocument, JobAction::ClosePrinter],
        ),
        (
            true,
            JobAction::StartPage,
            "Failed to start page",
            vec![
                JobAction::OpenPrinter,
                JobAction::StartDocument,
                JobAction::StartPage,
                JobAction::EndDocument,
                JobAction::ClosePrinter,
            ],
        ),
        (
            true,
            JobAction::WritePayload,
            "Failed to write to printer",
            vec![
                JobAction::OpenPrinter,
                JobAction::StartDocument,
                JobAction::StartPage,
                JobAction::WritePayload,
                JobAction::EndPage,
                JobAction::EndDocument,
                JobAction::ClosePrinter,
            ],
        ),
    ];
    for (with_page, failing, text, expected) in cases {
        let mut job = SpoolerJob::new(9, 0, with_page);
        let calls = run(&mut job, &|action| {
            if action == failing {
                SpoolerReply::failure()
            } else {
                SpoolerReply::wrote(9)
            }
        });
        assert_eq!(job.outcome(), Err(PrinterError::Io(text.to_owned())));
        assert_eq!(calls, expected);
        assert!(!job.printer_opened && !job.document_started && !job.page_started);
    }
}

#[test]
fn a_failed_release_is_noted_and_hides_nothing() {
    let mut job = SpoolerJob::new(2, 0, true);
    let calls = run(&mut job, &|action| match action {
        JobAction::WritePayload => SpoolerReply::wrote(1),
        JobAction::EndPage | JobAction::ClosePrinter => SpoolerReply::failure(),
        _ => SpoolerReply::success(),
    });
    assert_eq!(
        job.outcome(),
        Err(PrinterError::Io("Failed to write all bytes to printer".to_owned()))
    );
    assert_eq!(&calls[4..], &[JobAction::EndPage, JobAction::EndDocument, JobAction::ClosePrinter]);
    assert_eq!(job.failed_releases(), vec![JobAction::EndPage, JobAction::ClosePrinter]);

    let mut clean = SpoolerJob::new(2, 0, false);
    run(&mut clean, &|action| match action {
        JobAction::EndDocument => SpoolerReply::failure(),
        _ => SpoolerReply::wrote(2),
    });
    assert_eq!(clean.outcome(), Ok(()));
    assert_eq!(clean.failed_releases(), vec![JobAction::EndDocument]);
}

#[test]
fn a_finished_job_ignores_further_replies() {
    let mut job = SpoolerJob::new(0, 0, false);
    run(&mut job, &all_good(0));
    let done = job;
    assert_eq!(job.advance(SpoolerReply::failure()), JobAction::Finish);
    assert_eq!(job, done);
    assert_eq!(job.outcome(), Ok(()));
}

#[test]
fn a_payload_too_long_for_the_count_is_a_short_write() {
    if usize::BITS > 32 {
        let mut job = SpoolerJob::new(u32::MAX as usize + 1, 0, false);
        run(&mut job, &all_good(0));
        assert_eq!(job.failure, Some(JobFailure::ShortWrite));
    }
}

#[test]
fn a_job_that_never_opened_names_no_document() {
    let printer = WindowsPrinter::new("Nowhere");
    let mut driver = WindowsDriver::open(&printer).unwrap();
    driver.write(b"x").unwrap();
    let mut job = driver.start_job();
    run(&mut job, &|_| SpoolerReply::failure());
    assert_eq!(
        driver.finish_job(&job),
        Err(PrinterError::Io("Failed to open printer".to_owned()))
    );
    assert_eq!(driver.print_count(), 0);
    assert_eq!(driver.payload(), &b"x".to_vec());

    let mut failed_later = driver.start_job();
    run(&mut failed_later, &|action| match action {
        JobAction::StartDocument => SpoolerReply::failure(),
        _ => SpoolerReply::success(),
    });
    assert!(driver.finish_job(&failed_later).is_err());
    assert_eq!(driver.print_count(), 1);
}
