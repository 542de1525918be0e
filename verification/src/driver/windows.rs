//! The driver that prints through the Windows print spooler.
//!
//! The driver buffers what it is given. Flushing it is one spooler job over
//! everything buffered since the last job that succeeded: `start_job` sets
//! the job up, the owner of the spooler handles makes the calls the job
//! names, and `finish_job` books the job and reports its outcome. A job
//! that succeeded takes its payload with it; one that failed leaves the
//! buffer for the caller to try again or give up.

use vstd::prelude::*;
use crate::bytes::append;
use crate::driver::spooler::{JobAction, JobFailure, SpoolerJob, SpoolerReply};
use crate::errors::PrinterError;
use crate::wide::{to_wide, wide};

verus! {

/// A printer known to the spooler by its name.
#[derive(Debug)]
pub struct WindowsPrinter {
    raw_name: Vec<u16>,
}

impl View for WindowsPrinter {
    type V = Seq<u16>;

    /// The printer's name as a zero-terminated UTF-16 string.
    closed spec fn view(&self) -> Seq<u16> {
        self.raw_name@
    }
}

impl WindowsPrinter {
    /// The printer called `name`.
    pub fn new(name: &str) -> (printer: WindowsPrinter)
        ensures
            printer@ == wide(name@),
    {
        WindowsPrinter { raw_name: to_wide(name) }
    }

    /// The printer whose name is the UTF-16 string `raw_name`; a terminating
    /// zero is added where it is missing.
    pub fn from_raw(raw_name: Vec<u16>) -> (printer: WindowsPrinter)
        ensures
            printer@ == if raw_name@.len() > 0 && raw_name@.last() == 0 {
                raw_name@
            } else {
                raw_name@.push(0u16)
            },
    {
        let mut raw_name = raw_name;
        let n = raw_name.len();
        if n == 0 || raw_name[n - 1] != 0 {
            raw_name.push(0u16);
        }
        WindowsPrinter { raw_name }
    }

    /// The printer's name as a zero-terminated UTF-16 string.
    pub fn get_raw_vec(&self) -> (raw: &Vec<u16>)
        ensures
            raw@ == self@,
    {
        &self.raw_name
    }
}

/// What a spooler driver is at any time: the printer it prints to, what it
/// has buffered, and how many documents it has started.
pub struct Spool {
    /// The number of documents started so far; the next job's number.
    pub print_count: nat,
    /// The printer's name as a zero-terminated UTF-16 string.
    pub printer_name: Seq<u16>,
    /// Everything written since the last job that succeeded.
    pub buffer: Seq<u8>,
    /// Whether jobs wrap their payload in a page.
    pub with_page: bool,
}

impl Spool {
    /// A driver just opened for the printer `printer_name`.
    pub open spec fn opened(printer_name: Seq<u16>) -> Spool {
        Spool { print_count: 0, printer_name, buffer: Seq::empty(), with_page: false }
    }

    /// The numbers are ones the machine can hold, as they are in every
    /// driver.
    pub open spec fn fits(self) -> bool {
        self.print_count <= usize::MAX && self.buffer.len() <= usize::MAX
    }

    /// The driver after `data` was written to it.
    pub open spec fn written(self, data: Seq<u8>) -> Spool {
        Spool { buffer: self.buffer + data, ..self }
    }

    /// The job that sends what is buffered: its payload is the whole
    /// buffer, its number the count of documents so far.
    pub open spec fn job(self) -> SpoolerJob {
        SpoolerJob::fresh(self.buffer.len() as usize, self.print_count as usize, self.with_page)
    }

    /// The driver after `job` was booked: a job that got the printer open
    /// has named a document and is counted, and a job without failure has
    /// taken the buffer with it.
    pub open spec fn booked(self, job: SpoolerJob) -> Spool {
        Spool {
            print_count: if job.reached_printer() {
                self.print_count + 1
            } else {
                self.print_count
            },
            buffer: if job.failure is None {
                Seq::empty()
            } else {
                self.buffer
            },
            ..self
        }
    }

    /// The driver after a flush to which the spooler answered `replies`.
    pub open spec fn flushed(self, replies: Seq<SpoolerReply>) -> Spool {
        self.booked(self.job().run(replies))
    }

    /// What went wrong in a flush to which the spooler answered `replies`,
    /// if anything did.
    pub open spec fn flush_failure(self, replies: Seq<SpoolerReply>) -> Option<JobFailure> {
        self.job().run(replies).failure
    }
}

/// A driver for one printer of the Windows print spooler.
#[derive(Debug)]
pub struct WindowsDriver {
    print_count: usize,
    printer_name: Vec<u16>,
    buffer: Vec<u8>,
    with_page: bool,
}

impl View for WindowsDriver {
    type V = Spool;

    closed spec fn view(&self) -> Spool {
        Spool {
            print_count: self.print_count as nat,
            printer_name: self.printer_name@,
            buffer: self.buffer@,
            with_page: self.with_page,
        }
    }
}

impl WindowsDriver {
    /// A driver for `printer`, with nothing buffered and no document
    /// started yet. Nothing is asked of the spooler before a job runs, so
    /// this always succeeds.
    pub fn open(printer: &WindowsPrinter) -> (result: Result<WindowsDriver, PrinterError>)
        ensures
            result matches Ok(driver) && driver@ == Spool::opened(printer@),
    {
        let raw = printer.get_raw_vec();
        let mut printer_name: Vec<u16> = Vec::new();
        let mut i: usize = 0;
        while i < raw.len()
            invariant
                i <= raw.len(),
                printer_name@ == raw@.subrange(0, i as int),
            decreases raw.len() - i,
        {
            printer_name.push(raw[i]);
            assert(printer_name@ =~= raw@.subrange(0, i + 1));
            i += 1;
        }
        assert(printer_name@ =~= raw@);
        Ok(WindowsDriver { print_count: 0, printer_name, buffer: Vec::new(), with_page: false })
    }

    /// Chooses whether jobs wrap their payload in a page.
    pub fn set_with_page(&mut self, with_page: bool)
        ensures
            final(self)@ == (Spool { with_page, ..old(self)@ }),
    {
        self.with_page = with_page;
    }

    /// The driver's name for diagnostics.
    pub fn name(&self) -> (name: String)
        ensures
            name@ == "Windows Driver"@,
    {
        "Windows Driver".to_owned()
    }

    /// Buffers `data` behind what is already buffered. Never fails and
    /// drops nothing.
    pub fn write(&mut self, data: &[u8]) -> (result: Result<(), PrinterError>)
        ensures
            result is Ok,
            final(self)@ == old(self)@.written(data@),
    {
        append(&mut self.buffer, data);
        Ok(())
    }

    /// The spooler has no channel back: reads nothing and leaves `buf` as
    /// it is.
    pub fn read(&self, buf: &mut [u8]) -> (result: Result<usize, PrinterError>)
        ensures
            result == Ok::<usize, PrinterError>(0),
            final(buf)@ == old(buf)@,
    {
        Ok(0)
    }

    /// The printer's name as a zero-terminated UTF-16 string.
    pub fn printer_name(&self) -> (name: &Vec<u16>)
        ensures
            name@ == self@.printer_name,
    {
        &self.printer_name
    }

    /// Everything written since the last job that succeeded: the payload
    /// of the next job.
    pub fn payload(&self) -> (bytes: &Vec<u8>)
        ensures
            bytes@ == self@.buffer,
            self@.fits(),
    {
        let _len = self.buffer.len();
        &self.buffer
    }

    /// The number of documents started so far.
    pub fn print_count(&self) -> (count: usize)
        ensures
            count == self@.print_count,
    {
        self.print_count
    }

    /// A fresh job over everything buffered, numbered after the documents
    /// started so far.
    pub fn start_job(&self) -> (job: SpoolerJob)
        ensures
            job == self@.job(),
            job.payload_len == self@.buffer.len(),
            job.job_number == self@.print_count,
            job.wf(),
            self@.fits(),
    {
        SpoolerJob::new(self.buffer.len(), self.print_count, self.with_page)
    }

    /// Books a job that is over and reports its outcome. A job that got the
    /// printer open has named a document, so the next job gets the next
    /// number. A job without failure has delivered the buffer, which is
    /// cleared; after a failure the buffer stays as it is.
    pub fn finish_job(&mut self, job: &SpoolerJob) -> (result: Result<(), PrinterError>)
        requires
            job.next is Finish,
            old(self)@.print_count < usize::MAX,
        ensures
            final(self)@ == old(self)@.booked(*job),
            match result {
                Ok(_) => job.failure is None,
                Err(e) => job.failure is Some && e is Io && e.io_text()
                    == job.failure->Some_0.text(),
            },
    {
        let opened = match job.next_action() {
            JobAction::OpenPrinter => false,
            _ => match job.failure {
                Some(JobFailure::OpenPrinter) => false,
                _ => true,
            },
        };
        if opened {
            self.print_count = self.print_count + 1;
        }
        if job.failure.is_none() {
            self.buffer.clear();
        }
        job.outcome()
    }
}

} // verus!
