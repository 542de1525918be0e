//! What holds of a flush of the spooler driver as a whole: of what was
//! written, of the job that sends it, and of what is left afterwards.

use vstd::prelude::*;
use crate::barcode::{all_digits, check_digit, symbol, BarcodeSystem};
use crate::barcode_laws::{check_digit_completes_the_sum, full_sum};
use crate::driver::job_laws::{calls_of_job, first_failure, fresh_job_runs_as_told};
use crate::driver::job_name::{document_title, document_titles_differ};
use crate::driver::spooler::{JobAction, SpoolerReply};
use crate::driver::windows::Spool;
use crate::encoder::code_commands::barcode_command;
use crate::encoder::instruction::{bytes_of, rejection, state_after, EncoderState, Instruction};
use crate::errors::PrinterError;
use crate::page_code::PageCode;
use crate::raster::{BitImageOption, MAX_DOT_WIDTH};

verus! {

/// The spooler answered every call of a flush of `spool` with success and
/// reported the whole payload as written.
pub open spec fn all_went_well(spool: Spool, replies: Seq<SpoolerReply>) -> bool {
    replies.len() >= 7 && first_failure(spool.job().payload_len, spool.with_page, replies) is None
}

/// Writing in parts is writing the whole: the buffer holds the parts in
/// the order in which they were written, none moved, repeated or left out.
pub proof fn writes_add_up(spool: Spool, first: Seq<u8>, second: Seq<u8>)
    ensures
        spool.written(first).written(second) == spool.written(first + second),
        spool.written(first).buffer == spool.buffer + first,
{
    assert(spool.buffer + first + second =~= spool.buffer + (first + second));
}

/// A flush in which all went well succeeds: the job writes the payload,
/// which is the whole buffer, once, gives back all it took, and takes the
/// buffer with it.
pub proof fn good_flush_sends_the_buffer(spool: Spool, replies: Seq<SpoolerReply>)
    requires
        spool.fits(),
        all_went_well(spool, replies),
    ensures
        spool.flush_failure(replies) is None,
        spool.job().payload_len == spool.buffer.len(),
        spool.job().calls(replies) == calls_of_job(spool.with_page, replies),
        spool.job().calls(replies).contains(JobAction::WritePayload),
        spool.job().run(replies).next is Finish,
        spool.job().run(replies).holds_nothing(),
        spool.flushed(replies).buffer == Seq::<u8>::empty(),
        spool.flushed(replies).print_count == spool.print_count + 1,
{
    let job = spool.job();
    fresh_job_runs_as_told(job.payload_len, job.job_number, spool.with_page, replies);
    let calls = calls_of_job(spool.with_page, replies);
    if spool.with_page {
        assert(calls[3] == JobAction::WritePayload);
    } else {
        assert(calls[2] == JobAction::WritePayload);
    }
}

/// A flush that fails keeps the buffer: nothing written is lost, and the
/// next job offers all of it again.
pub proof fn failed_flush_keeps_the_buffer(spool: Spool, replies: Seq<SpoolerReply>)
    requires
        spool.flush_failure(replies) is Some,
    ensures
        spool.flushed(replies).buffer == spool.buffer,
{
}

/// Two sessions on one open driver are independent: after a flush in which
/// all went well, the payload of the next job is what was written since and
/// nothing of the session before, and its document has another name.
pub proof fn sessions_are_independent(
    spool: Spool,
    first: Seq<u8>,
    second: Seq<u8>,
    replies: Seq<SpoolerReply>,
)
    requires
        spool.written(first).fits(),
        spool.print_count < usize::MAX,
        all_went_well(spool.written(first), replies),
    ensures
        spool.written(first).flushed(replies).written(second).buffer == second,
        second.len() <= usize::MAX ==> spool.written(first).flushed(replies).written(
            second,
        ).job().payload_len == second.len(),
        spool.written(first).flushed(replies).written(second).job().job_number
            != spool.written(first).job().job_number,
        document_title(
            spool.written(first).flushed(replies).written(second).job().job_number as nat,
        ) != document_title(spool.written(first).job().job_number as nat),
{
    let before = spool.written(first);
    good_flush_sends_the_buffer(before, replies);
    let after = before.flushed(replies).written(second);
    assert(after.buffer =~= second);
    document_titles_differ(after.job().job_number as nat, before.job().job_number as nat);
}

/// An EAN-13 barcode of twelve digits reaches the spooler with its check
/// digit as the thirteenth: the command written to a driver just opened is
/// the payload of its job, the symbol in it is the twelve digits and the
/// digit that makes them a sound number, and a flush in which all goes well
/// succeeds.
pub proof fn check_digit_reaches_the_job(
    barcode: Instruction,
    state: EncoderState,
    printer_name: Seq<u16>,
    replies: Seq<SpoolerReply>,
)
    requires
        barcode matches Instruction::Barcode(system, payload, _) && system == BarcodeSystem::EAN13
            && payload@.len() == 12 && all_digits(payload@),
        all_went_well(Spool::opened(printer_name).written(bytes_of(barcode, state)), replies),
    ensures
        rejection(barcode, state) is None,
        state_after(barcode, state) == state,
        ({
            let digits = barcode->Barcode_1@;
            let full = digits.push((0x30 + check_digit(digits)) as u8);
            let spool = Spool::opened(printer_name).written(bytes_of(barcode, state));
            &&& bytes_of(barcode, state) == barcode_command(
                BarcodeSystem::EAN13,
                full,
                barcode->Barcode_2,
            )
            &&& full_sum(full) % 10 == 0
            &&& spool.buffer == bytes_of(barcode, state)
            &&& spool.flush_failure(replies) is None
        }),
{
    let digits = barcode->Barcode_1@;
    check_digit_completes_the_sum(digits, 0x30);
    let spool = Spool::opened(printer_name).written(bytes_of(barcode, state));
    assert(spool.buffer =~= bytes_of(barcode, state));
    good_flush_sends_the_buffer(spool, replies);
}

/// Thirteen digits whose last is not the check digit of the first twelve
/// are rejected as an EAN-13 barcode and emit nothing, so a driver that was
/// written to before holds what it held: no byte of the barcode, and no
/// corrected digit, is in its job.
pub proof fn rejected_barcode_stays_out_of_the_job(
    barcode: Instruction,
    state: EncoderState,
    spool: Spool,
    replies: Seq<SpoolerReply>,
)
    requires
        barcode matches Instruction::Barcode(system, payload, _) && system == BarcodeSystem::EAN13
            && payload@.len() == 13 && all_digits(payload@) && payload@[12] != 0x30 + check_digit(
            payload@.drop_last(),
        ),
        spool.fits(),
        all_went_well(spool, replies),
    ensures
        rejection(barcode, state) == Some(PrinterError::UnsupportedSymbology),
        symbol(BarcodeSystem::EAN13, barcode->Barcode_1@) is Err,
        spool.job().payload_len == spool.buffer.len(),
        spool.flush_failure(replies) is None,
{
    good_flush_sends_the_buffer(spool, replies);
}

/// No option exists for an image wider than the device maximum: the width
/// is not accepted, whatever the height, so no raster command is ever
/// built from it and a driver holds only what was written to it.
pub proof fn no_option_for_a_width_beyond_the_maximum(
    width: u32,
    max_height: Option<u32>,
    option: BitImageOption,
)
    requires
        width > MAX_DOT_WIDTH,
    ensures
        !BitImageOption::accepts(Some(width), max_height),
        option.wf() ==> option.spec_max_width() != Some(width),
{
}

/// The bytes of a receipt that initialises the device, prints `line` in
/// bold and cuts, built from any state: each instruction encoded in the
/// state that those before it left.
pub open spec fn receipt(line: Instruction, state: EncoderState) -> Seq<Seq<u8>> {
    let s1 = state_after(Instruction::Init, state);
    let s2 = state_after(Instruction::Bold(true), s1);
    let s3 = state_after(line, s2);
    let s4 = state_after(Instruction::Bold(false), s3);
    seq![
        bytes_of(Instruction::Init, state),
        bytes_of(Instruction::Bold(true), s1),
        bytes_of(line, s2),
        bytes_of(Instruction::Bold(false), s3),
        bytes_of(Instruction::Cut, s4),
    ]
}

/// The receipt `init`, `bold(true)`, `writeln("A")`, `bold(false)`, `cut`
/// reaches the spooler whole and in build order: it is the fixed bytes of
/// the five parts, it is the payload of the job whether it was written in
/// one call or in one call to a part, and a flush in which all goes well
/// succeeds.
pub proof fn receipt_reaches_the_job(
    line: Instruction,
    state: EncoderState,
    printer_name: Seq<u16>,
    replies: Seq<SpoolerReply>,
)
    requires
        line matches Instruction::Text(text) && text@ == seq!['A', '\n'],
        all_went_well(Spool::opened(printer_name).written(receipt(line, state).flatten()), replies),
    ensures
        receipt(line, state) == seq![
            seq![0x1Bu8, 0x40u8],
            seq![0x1Bu8, 0x45u8, 0x01u8],
            seq![0x41u8, 0x0Au8],
            seq![0x1Bu8, 0x45u8, 0x00u8],
            seq![0x1Du8, 0x56u8, 0x41u8, 0x00u8],
        ],
        receipt(line, state).flatten() == seq![
            0x1Bu8,
            0x40u8,
            0x1Bu8,
            0x45u8,
            0x01u8,
            0x41u8,
            0x0Au8,
            0x1Bu8,
            0x45u8,
            0x00u8,
            0x1Du8,
            0x56u8,
            0x41u8,
            0x00u8,
        ],
        rejection(line, state_after(Instruction::Bold(true), state_after(Instruction::Init, state)))
            is None,
        ({
            let parts = receipt(line, state);
            let fresh = Spool::opened(printer_name);
            let at_once = fresh.written(parts.flatten());
            let in_parts = fresh.written(parts[0]).written(parts[1]).written(parts[2]).written(
                parts[3],
            ).written(parts[4]);
            &&& at_once.buffer == parts.flatten()
            &&& in_parts == at_once
            &&& at_once.flush_failure(replies) is None
        }),
{
    let s1 = state_after(Instruction::Init, state);
    let s2 = state_after(Instruction::Bold(true), s1);
    let text = line->Text_0@;
    let page = s2.page_code;
    assert(page == PageCode::PC437);
    assert(page.bytes_of(text) == Some(seq![0x41u8, 0x0Au8])) by {
        reveal_with_fuel(PageCode::bytes_of, 3);
        assert(text.drop_last() =~= seq!['A']);
        assert(text.drop_last().drop_last() =~= Seq::<char>::empty());
        assert(page.byte_of('A') == Some(0x41u8));
        assert(page.byte_of('\n') == Some(0x0Au8));
        assert(Seq::<u8>::empty().push(0x41u8).push(0x0Au8) =~= seq![0x41u8, 0x0Au8]);
    }
    let parts = receipt(line, state);
    assert(parts =~= seq![
        seq![0x1Bu8, 0x40u8],
        seq![0x1Bu8, 0x45u8, 0x01u8],
        seq![0x41u8, 0x0Au8],
        seq![0x1Bu8, 0x45u8, 0x00u8],
        seq![0x1Du8, 0x56u8, 0x41u8, 0x00u8],
    ]);
    let whole = parts[0] + parts[1] + parts[2] + parts[3] + parts[4];
    assert(parts.flatten() =~= whole) by {
        reveal_with_fuel(Seq::flatten, 6);
        let p1 = parts.drop_first();
        let p2 = p1.drop_first();
        let p3 = p2.drop_first();
        let p4 = p3.drop_first();
        assert(p4.drop_first() =~= Seq::<Seq<u8>>::empty());
        assert(parts.flatten() =~= parts[0] + (parts[1] + (parts[2] + (parts[3] + (parts[4]
            + Seq::<u8>::empty())))));
    }
    assert(whole =~= seq![
        0x1Bu8,
        0x40u8,
        0x1Bu8,
        0x45u8,
        0x01u8,
        0x41u8,
        0x0Au8,
        0x1Bu8,
        0x45u8,
        0x00u8,
        0x1Du8,
        0x56u8,
        0x41u8,
        0x00u8,
    ]);
    let fresh = Spool::opened(printer_name);
    let at_once = fresh.written(parts.flatten());
    assert(at_once.buffer =~= parts.flatten());
    let in_parts = fresh.written(parts[0]).written(parts[1]).written(parts[2]).written(
        parts[3],
    ).written(parts[4]);
    assert(in_parts.buffer =~= at_once.buffer);
    good_flush_sends_the_buffer(at_once, replies);
}

} // verus!
