//! What holds of every spooler job, whatever the spooler answers.

use vstd::prelude::*;
use crate::driver::spooler::{JobAction, JobFailure, SpoolerJob, SpoolerReply};

verus! {

/// The failure a fresh job ends with, read off the replies directly: the
/// first acquisition that failed, else what the write reported.
pub open spec fn first_failure(
    payload_len: usize,
    with_page: bool,
    replies: Seq<SpoolerReply>,
) -> Option<JobFailure>
    recommends
        replies.len() >= 4,
{
    let write = if with_page { replies[3] } else { replies[2] };
    if !replies[0].ok {
        Some(JobFailure::OpenPrinter)
    } else if !replies[1].ok {
        Some(JobFailure::StartDocument)
    } else if with_page && !replies[2].ok {
        Some(JobFailure::StartPage)
    } else if !write.ok {
        Some(JobFailure::WritePayload)
    } else if write.written as int != payload_len as int {
        Some(JobFailure::ShortWrite)
    } else {
        None
    }
}

/// The calls a fresh job makes, read off the replies directly.
pub open spec fn calls_of_job(with_page: bool, replies: Seq<SpoolerReply>) -> Seq<JobAction>
    recommends
        replies.len() >= 3,
{
    if !replies[0].ok {
        seq![JobAction::OpenPrinter]
    } else if !replies[1].ok {
        seq![JobAction::OpenPrinter, JobAction::StartDocument, JobAction::ClosePrinter]
    } else if !with_page {
        seq![
            JobAction::OpenPrinter,
            JobAction::StartDocument,
            JobAction::WritePayload,
            JobAction::EndDocument,
            JobAction::ClosePrinter,
        ]
    } else if !replies[2].ok {
        seq![
            JobAction::OpenPrinter,
            JobAction::StartDocument,
            JobAction::StartPage,
            JobAction::EndDocument,
            JobAction::ClosePrinter,
        ]
    } else {
        seq![
            JobAction::OpenPrinter,
            JobAction::StartDocument,
            JobAction::StartPage,
            JobAction::WritePayload,
            JobAction::EndPage,
            JobAction::EndDocument,
            JobAction::ClosePrinter,
        ]
    }
}

/// A reply never breaks the shape of a job: resources stay nested and the
/// call that is due fits what is held.
pub proof fn advance_keeps_shape(job: SpoolerJob, reply: SpoolerReply)
    requires
        job.wf(),
    ensures
        job.spec_advance(reply).wf(),
{
}

/// Once a failure is recorded no later reply replaces it: a release that
/// fails never hides why the job failed.
pub proof fn failure_is_kept(job: SpoolerJob, replies: Seq<SpoolerReply>)
    requires
        job.failure is Some,
    ensures
        job.run(replies).failure == job.failure,
    decreases replies.len(),
{
    if replies.len() > 0 {
        failure_is_kept(job.spec_advance(replies[0]), replies.drop_first());
    }
}

/// A release is only ever due for a resource that is held, and it is the
/// innermost one; answering it gives that resource up and no other.
pub proof fn release_fits_what_is_held(job: SpoolerJob, reply: SpoolerReply)
    requires
        job.wf(),
        job.next.is_release(),
    ensures
        job.next is EndPage ==> job.page_started,
        job.next is EndDocument ==> job.document_started && !job.page_started,
        job.next is ClosePrinter ==> job.printer_opened && !job.document_started,
        job.releases_owed() == seq![job.next] + job.spec_advance(reply).releases_owed(),
        job.spec_advance(reply).failure == job.failure,
{
}

/// Teardown makes exactly the releases whose progress flag is set, innermost
/// first, whatever the spooler answers to them, and leaves nothing held and
/// the recorded failure as it was.
pub proof fn teardown_releases_what_is_held(job: SpoolerJob, replies: Seq<SpoolerReply>)
    requires
        job.wf(),
        job.next == job.release_due(),
        replies.len() >= 3,
    ensures
        job.calls(replies) == job.releases_owed(),
        job.run(replies).next is Finish,
        job.run(replies).holds_nothing(),
        job.run(replies).failure == job.failure,
{
    teardown_unrolled(job, replies);
}

proof fn teardown_unrolled(job: SpoolerJob, replies: Seq<SpoolerReply>)
    requires
        job.wf(),
        job.next == job.release_due(),
        replies.len() >= job.releases_owed().len(),
    ensures
        job.calls(replies) == job.releases_owed(),
        job.run(replies).next is Finish,
        job.run(replies).holds_nothing(),
        job.run(replies).failure == job.failure,
    decreases replies.len(),
{
    if job.next is Finish {
        finished_stays(job, replies);
    } else {
        let after = job.spec_advance(replies[0]);
        release_fits_what_is_held(job, replies[0]);
        teardown_unrolled(after, replies.drop_first());
    }
}

/// A finished job ignores whatever else it is told.
pub proof fn finished_stays(job: SpoolerJob, replies: Seq<SpoolerReply>)
    requires
        job.next is Finish,
    ensures
        job.run(replies) == job,
        job.calls(replies) == Seq::<JobAction>::empty(),
    decreases replies.len(),
{
    if replies.len() > 0 {
        finished_stays(job.spec_advance(replies[0]), replies.drop_first());
    }
}

/// After four replies every job has turned to giving back what it holds,
/// or is over: no job acquires more than four times. What follows is
/// teardown.
proof fn after_four_replies(job: SpoolerJob, replies: Seq<SpoolerReply>) -> (then: (
    SpoolerJob,
    Seq<SpoolerReply>,
))
    requires
        job.wf(),
        replies.len() >= 7,
    ensures
        then.0 == job.spec_advance(replies[0]).spec_advance(replies[1]).spec_advance(
            replies[2],
        ).spec_advance(replies[3]),
        then.1 == replies.drop_first().drop_first().drop_first().drop_first(),
        job.run(replies) == then.0.run(then.1),
        then.0.calls(then.1) == then.0.releases_owed(),
        then.0.run(then.1).next is Finish,
        then.0.run(then.1).holds_nothing(),
        then.0.run(then.1).failure == then.0.failure,
{
    let r1 = replies.drop_first();
    let r2 = r1.drop_first();
    let r3 = r2.drop_first();
    let r4 = r3.drop_first();
    assert(r1[0] == replies[1] && r2[0] == replies[2] && r3[0] == replies[3]);
    let s4 = job.spec_advance(replies[0]).spec_advance(replies[1]).spec_advance(
        replies[2],
    ).spec_advance(replies[3]);
    assert(job.run(replies) == s4.run(r4)) by {
        reveal_with_fuel(SpoolerJob::run, 5);
    }
    assert(s4.wf() && s4.next == s4.release_due());
    teardown_unrolled(s4, r4);
    (s4, r4)
}

/// Every job ends within seven replies, and ends with nothing held: no
/// printer, document or page outlives it, wherever it failed.
pub proof fn job_ends_with_nothing_held(job: SpoolerJob, replies: Seq<SpoolerReply>)
    requires
        job.wf(),
        replies.len() >= 7,
    ensures
        job.run(replies).next is Finish,
        job.run(replies).holds_nothing(),
{
    after_four_replies(job, replies);
}

/// A fresh job makes exactly the calls that the replies to its acquisitions
/// allow, and ends with the first failure among them, or with none when the
/// spooler took the whole payload.
pub proof fn fresh_job_runs_as_told(
    payload_len: usize,
    job_number: usize,
    with_page: bool,
    replies: Seq<SpoolerReply>,
)
    requires
        replies.len() >= 7,
    ensures
        ({
            let job = SpoolerJob::fresh(payload_len, job_number, with_page);
            &&& job.calls(replies) == calls_of_job(with_page, replies)
            &&& job.run(replies).failure == first_failure(payload_len, with_page, replies)
            &&& job.run(replies).next is Finish
            &&& job.run(replies).holds_nothing()
        }),
{
    let job = SpoolerJob::fresh(payload_len, job_number, with_page);
    let r1 = replies.drop_first();
    let r2 = r1.drop_first();
    let r3 = r2.drop_first();
    assert(r1[0] == replies[1] && r2[0] == replies[2] && r3[0] == replies[3]);
    after_four_replies(job, replies);
    reveal_with_fuel(SpoolerJob::calls, 5);
}

} // verus!
