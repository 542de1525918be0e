//! The life of one print job on an operating system's print spooler.
//!
//! A job is a short conversation with the spooler: open the printer, start a
//! document, optionally start a page, write the payload, then give back what
//! was taken, innermost first. `SpoolerJob` holds the decisions of that
//! conversation and nothing else: it names the call that is due, takes the
//! spooler's reply, and names the next call. Whoever owns the operating
//! system handles makes the calls.

use vstd::prelude::*;
use crate::driver::job_name::{data_type, document_name, document_title, raw_data_type};
use crate::errors::PrinterError;

verus! {

/// One call to the print spooler, or `Finish` when no call is left.
#[derive(Debug, Clone, Copy, PartialEq, Eq, Structural)]
pub enum JobAction {
    /// Open a handle to the printer, by name.
    OpenPrinter,
    /// Start a document of raw data under the job's name.
    StartDocument,
    /// Start a page inside the document.
    StartPage,
    /// Write the whole payload in one call.
    WritePayload,
    /// End the page.
    EndPage,
    /// End the document.
    EndDocument,
    /// Close the printer handle.
    ClosePrinter,
    /// The job is over; its outcome can be read.
    Finish,
}

/// The step at which a job went wrong.
#[derive(Debug, Clone, Copy, PartialEq, Eq, Structural)]
pub enum JobFailure {
    /// The printer could not be opened.
    OpenPrinter,
    /// The document could not be started.
    StartDocument,
    /// The page could not be started.
    StartPage,
    /// The spooler refused the payload.
    WritePayload,
    /// The spooler took the payload but not all of it.
    ShortWrite,
}

/// What the spooler answered to one call.
#[derive(Debug, Clone, Copy, PartialEq, Eq)]
pub struct SpoolerReply {
    /// Whether the call succeeded.
    pub ok: bool,
    /// The number of bytes the spooler reports as written; read only after
    /// `WritePayload`.
    pub written: u32,
}

/// The state of one job: the call that is due, how far the job got, and what
/// went wrong.
#[derive(Debug, Clone, Copy, PartialEq, Eq)]
pub struct SpoolerJob {
    /// The call that is due.
    pub next: JobAction,
    /// The printer handle is open and not yet closed.
    pub printer_opened: bool,
    /// A document is started and not yet ended.
    pub document_started: bool,
    /// A page is started and not yet ended.
    pub page_started: bool,
    /// Whether the job wraps the payload in a page.
    pub with_page: bool,
    /// The length of the payload the spooler is asked to write.
    pub payload_len: usize,
    /// The number that tells this job's document from the others.
    pub job_number: usize,
    /// The first thing that went wrong, if anything did.
    pub failure: Option<JobFailure>,
    /// Ending the page failed.
    pub end_page_failed: bool,
    /// Ending the document failed.
    pub end_document_failed: bool,
    /// Closing the printer failed.
    pub close_printer_failed: bool,
}

impl JobAction {
    /// The calls that give a resource back.
    pub open spec fn is_release(self) -> bool {
        self is EndPage || self is EndDocument || self is ClosePrinter
    }
}

impl JobFailure {
    /// The text reported for this failure.
    pub open spec fn text(self) -> Seq<char> {
        match self {
            JobFailure::OpenPrinter => "Failed to open printer"@,
            JobFailure::StartDocument => "Failed to start doc"@,
            JobFailure::StartPage => "Failed to start page"@,
            JobFailure::WritePayload => "Failed to write to printer"@,
            JobFailure::ShortWrite => "Failed to write all bytes to printer"@,
        }
    }

    /// The text reported for this failure.
    pub fn message(self) -> (text: String)
        ensures
            text@ == self.text(),
    {
        match self {
            JobFailure::OpenPrinter => "Failed to open printer".to_owned(),
            JobFailure::StartDocument => "Failed to start doc".to_owned(),
            JobFailure::StartPage => "Failed to start page".to_owned(),
            JobFailure::WritePayload => "Failed to write to printer".to_owned(),
            JobFailure::ShortWrite => "Failed to write all bytes to printer".to_owned(),
        }
    }
}

impl SpoolerReply {
    /// The reply of a call that succeeded and wrote nothing.
    pub fn success() -> (reply: SpoolerReply)
        ensures
            reply == (SpoolerReply { ok: true, written: 0 }),
    {
        SpoolerReply { ok: true, written: 0 }
    }

    /// The reply of a call that failed.
    pub fn failure() -> (reply: SpoolerReply)
        ensures
            reply == (SpoolerReply { ok: false, written: 0 }),
    {
        SpoolerReply { ok: false, written: 0 }
    }

    /// The reply of a write call that succeeded and reports `written` bytes.
    pub fn wrote(written: u32) -> (reply: SpoolerReply)
        ensures
            reply == (SpoolerReply { ok: true, written }),
    {
        SpoolerReply { ok: true, written }
    }
}

impl SpoolerJob {
    /// A job that has made no call yet.
    pub open spec fn fresh(payload_len: usize, job_number: usize, with_page: bool) -> SpoolerJob {
        SpoolerJob {
            next: JobAction::OpenPrinter,
            printer_opened: false,
            document_started: false,
            page_started: false,
            with_page,
            payload_len,
            job_number,
            failure: None,
            end_page_failed: false,
            end_document_failed: false,
            close_printer_failed: false,
        }
    }

    /// Nothing is held: no printer, no document, no page.
    pub open spec fn holds_nothing(self) -> bool {
        !self.printer_opened && !self.document_started && !self.page_started
    }

    /// The call that gives back the innermost resource still held, or
    /// `Finish` when nothing is held.
    pub open spec fn release_due(self) -> JobAction {
        if self.page_started {
            JobAction::EndPage
        } else if self.document_started {
            JobAction::EndDocument
        } else if self.printer_opened {
            JobAction::ClosePrinter
        } else {
            JobAction::Finish
        }
    }

    /// The releases still owed, innermost first: exactly those whose
    /// progress flag is set.
    pub open spec fn releases_owed(self) -> Seq<JobAction> {
        let page = if self.page_started { seq![JobAction::EndPage] } else { seq![] };
        let document = if self.document_started { seq![JobAction::EndDocument] } else { seq![] };
        let printer = if self.printer_opened { seq![JobAction::ClosePrinter] } else { seq![] };
        page + document + printer
    }

    /// The number of bytes the spooler is asked to write: the length of
    /// the payload, or the most the call can state where the payload is
    /// longer. The spooler can then never report the whole of a longer
    /// payload as written.
    pub open spec fn spec_asked_len(self) -> u32 {
        if self.payload_len <= u32::MAX {
            self.payload_len as u32
        } else {
            u32::MAX
        }
    }

    /// The job got the printer open at some point, and so has named a
    /// document.
    pub open spec fn reached_printer(self) -> bool {
        !(self.next is OpenPrinter) && self.failure != Some(JobFailure::OpenPrinter)
    }

    /// The job with `failure` recorded, unless an earlier one is, and turned
    /// to giving back what it holds.
    pub open spec fn failed_at(self, failure: JobFailure) -> SpoolerJob {
        SpoolerJob {
            failure: if self.failure is None { Some(failure) } else { self.failure },
            next: self.release_due(),
            ..self
        }
    }

    /// The job turned to giving back what it holds.
    pub open spec fn released(self) -> SpoolerJob {
        SpoolerJob { next: self.release_due(), ..self }
    }

    /// The job after the spooler answered `reply` to the call that was due.
    pub open spec fn spec_advance(self, reply: SpoolerReply) -> SpoolerJob {
        match self.next {
            JobAction::OpenPrinter => if reply.ok {
                SpoolerJob { printer_opened: true, next: JobAction::StartDocument, ..self }
            } else {
                self.failed_at(JobFailure::OpenPrinter)
            },
            JobAction::StartDocument => if reply.ok {
                SpoolerJob {
                    document_started: true,
                    next: if self.with_page { JobAction::StartPage } else { JobAction::WritePayload },
                    ..self
                }
            } else {
                self.failed_at(JobFailure::StartDocument)
            },
            JobAction::StartPage => if reply.ok {
                SpoolerJob { page_started: true, next: JobAction::WritePayload, ..self }
            } else {
                self.failed_at(JobFailure::StartPage)
            },
            JobAction::WritePayload => if !reply.ok {
                self.failed_at(JobFailure::WritePayload)
            } else if reply.written as int != self.payload_len as int {
                self.failed_at(JobFailure::ShortWrite)
            } else {
                self.released()
            },
            JobAction::EndPage => (SpoolerJob {
                page_started: false,
                end_page_failed: self.end_page_failed || !reply.ok,
                ..self
            }).released(),
            JobAction::EndDocument => (SpoolerJob {
                document_started: false,
                end_document_failed: self.end_document_failed || !reply.ok,
                ..self
            }).released(),
            JobAction::ClosePrinter => (SpoolerJob {
                printer_opened: false,
                close_printer_failed: self.close_printer_failed || !reply.ok,
                ..self
            }).released(),
            JobAction::Finish => self,
        }
    }

    /// What holds of every job that started fresh and was only advanced:
    /// resources are nested, the call that is due fits what is held, and
    /// nothing has failed while the job still acquires.
    pub open spec fn wf(self) -> bool {
        &&& self.page_started ==> self.document_started
        &&& self.document_started ==> self.printer_opened
        &&& self.page_started ==> self.with_page
        &&& match self.next {
            JobAction::OpenPrinter => self.holds_nothing() && self.failure is None,
            JobAction::StartDocument => self.printer_opened && !self.document_started
                && self.failure is None,
            JobAction::StartPage => self.with_page && self.document_started && !self.page_started
                && self.failure is None,
            JobAction::WritePayload => self.document_started && self.page_started == self.with_page
                && self.failure is None,
            JobAction::EndPage | JobAction::EndDocument | JobAction::ClosePrinter
            | JobAction::Finish => self.next == self.release_due(),
        }
    }

    /// The job after the spooler answered each of `replies` in turn.
    pub open spec fn run(self, replies: Seq<SpoolerReply>) -> SpoolerJob
        decreases replies.len(),
    {
        if replies.len() == 0 {
            self
        } else {
            self.spec_advance(replies[0]).run(replies.drop_first())
        }
    }

    /// The calls made while the spooler answered each of `replies` in turn,
    /// up to the end of the job.
    pub open spec fn calls(self, replies: Seq<SpoolerReply>) -> Seq<JobAction>
        decreases replies.len(),
    {
        if replies.len() == 0 || self.next is Finish {
            seq![]
        } else {
            seq![self.next] + self.spec_advance(replies[0]).calls(replies.drop_first())
        }
    }

    /// A job that has made no call yet, for a payload of `payload_len` bytes.
    pub fn new(payload_len: usize, job_number: usize, with_page: bool) -> (job: SpoolerJob)
        ensures
            job == SpoolerJob::fresh(payload_len, job_number, with_page),
            job.wf(),
    {
        SpoolerJob {
            next: JobAction::OpenPrinter,
            printer_opened: false,
            document_started: false,
            page_started: false,
            with_page,
            payload_len,
            job_number,
            failure: None,
            end_page_failed: false,
            end_document_failed: false,
            close_printer_failed: false,
        }
    }

    /// The number of bytes the spooler is asked to write: the length of
    /// the payload, or the most the call can state where the payload is
    /// longer.
    pub fn asked_len(&self) -> (asked: u32)
        ensures
            asked == self.spec_asked_len(),
            asked as int == if self.payload_len <= u32::MAX {
                self.payload_len as int
            } else {
                u32::MAX as int
            },
    {
        if self.payload_len <= 0xFFFF_FFFF {
            self.payload_len as u32
        } else {
            0xFFFF_FFFF
        }
    }

    /// The call that is due.
    pub fn next_action(&self) -> (next: JobAction)
        ensures
            next == self.next,
    {
        self.next
    }

    /// Whether the job is over.
    pub fn is_finished(&self) -> (done: bool)
        ensures
            done == (self.next is Finish),
    {
        match self.next {
            JobAction::Finish => true,
            _ => false,
        }
    }

    fn turn_to_release(&mut self)
        ensures
            *final(self) == old(self).released(),
    {
        self.next = if self.page_started {
            JobAction::EndPage
        } else if self.document_started {
            JobAction::EndDocument
        } else if self.printer_opened {
            JobAction::ClosePrinter
        } else {
            JobAction::Finish
        };
    }

    fn fail(&mut self, failure: JobFailure)
        ensures
            *final(self) == old(self).failed_at(failure),
    {
        if self.failure.is_none() {
            self.failure = Some(failure);
        }
        self.turn_to_release();
    }

    /// Takes the spooler's reply to the call that was due and names the next
    /// call. A failed acquisition or write is recorded and turns the job to
    /// teardown; a failed release is noted and teardown goes on.
    pub fn advance(&mut self, reply: SpoolerReply) -> (next: JobAction)
        ensures
            *final(self) == old(self).spec_advance(reply),
            next == final(self).next,
            old(self).wf() ==> final(self).wf(),
    {
        match self.next {
            JobAction::OpenPrinter => {
                if reply.ok {
                    self.printer_opened = true;
                    self.next = JobAction::StartDocument;
                } else {
                    self.fail(JobFailure::OpenPrinter);
                }
            },
            JobAction::StartDocument => {
                if reply.ok {
                    self.document_started = true;
                    self.next = if self.with_page {
                        JobAction::StartPage
                    } else {
                        JobAction::WritePayload
                    };
                } else {
                    self.fail(JobFailure::StartDocument);
                }
            },
            JobAction::StartPage => {
                if reply.ok {
                    self.page_started = true;
                    self.next = JobAction::WritePayload;
                } else {
                    self.fail(JobFailure::StartPage);
                }
            },
            JobAction::WritePayload => {
                if !reply.ok {
                    self.fail(JobFailure::WritePayload);
                } else if reply.written as u64 != self.payload_len as u64 {
                    self.fail(JobFailure::ShortWrite);
                } else {
                    self.turn_to_release();
                }
            },
            JobAction::EndPage => {
                self.page_started = false;
                self.end_page_failed = self.end_page_failed || !reply.ok;
                self.turn_to_release();
            },
            JobAction::EndDocument => {
                self.document_started = false;
                self.end_document_failed = self.end_document_failed || !reply.ok;
                self.turn_to_release();
            },
            JobAction::ClosePrinter => {
                self.printer_opened = false;
                self.close_printer_failed = self.close_printer_failed || !reply.ok;
                self.turn_to_release();
            },
            JobAction::Finish => {},
        }
        self.next
    }

    /// The job's result: the first failure as an `Io` error, or `Ok` when
    /// nothing failed. Failed releases never show here.
    pub fn outcome(&self) -> (result: Result<(), PrinterError>)
        ensures
            match result {
                Ok(_) => self.failure is None,
                Err(e) => self.failure is Some && e is Io && e.io_text()
                    == self.failure->Some_0.text(),
            },
    {
        match self.failure {
            None => Ok(()),
            Some(failure) => Err(PrinterError::Io(failure.message())),
        }
    }

    /// The name under which the job starts its document.
    pub fn document_name(&self) -> (name: String)
        ensures
            name@ == document_title(self.job_number as nat),
    {
        document_name(self.job_number)
    }

    /// The data type under which the job starts its document.
    pub fn data_type(&self) -> (name: String)
        ensures
            name@ == raw_data_type(),
    {
        data_type()
    }

    /// The releases that failed, in the order in which they were made.
    pub fn failed_releases(&self) -> (failed: Vec<JobAction>)
        ensures
            failed@ == (if self.end_page_failed { seq![JobAction::EndPage] } else { seq![] })
                + (if self.end_document_failed { seq![JobAction::EndDocument] } else { seq![] })
                + (if self.close_printer_failed { seq![JobAction::ClosePrinter] } else { seq![] }),
    {
        let mut failed: Vec<JobAction> = Vec::new();
        if self.end_page_failed {
            failed.push(JobAction::EndPage);
        }
        if self.end_document_failed {
            failed.push(JobAction::EndDocument);
        }
        if self.close_printer_failed {
            failed.push(JobAction::ClosePrinter);
        }
        failed
    }
}

} // verus!
