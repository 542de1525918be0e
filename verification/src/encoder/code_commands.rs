//! The commands that print barcodes and QR codes.

use vstd::prelude::*;
use crate::barcode::{BarcodeSystem, MAX_SYMBOL_LEN};
use crate::bytes::append;
use crate::domain::{BarcodeOption, QRCodeOption};
use crate::encoder::commands::GS;
use crate::errors::PrinterError;

verus! {

/// The longest payload the device stores for a QR code.
pub const MAX_QRCODE_LEN: usize = 7089;

/// The bytes that print a barcode: the width of its bars, their height, the
/// font and the place of its text, then the print command with the
/// symbology, the symbol's length and the symbol.
pub open spec fn barcode_command(system: BarcodeSystem, symbol: Seq<u8>, option: BarcodeOption) -> Seq<
    u8,
> {
    seq![
        GS,
        0x77u8,
        option.spec_width(),
        GS,
        0x68u8,
        option.spec_height(),
        GS,
        0x66u8,
        option.spec_font().code(),
        GS,
        0x48u8,
        option.spec_position().code(),
        GS,
        0x6Bu8,
        system.code(),
        symbol.len() as u8,
    ] + symbol
}

/// The bytes that print the barcode `symbol` of `system` as `option` says.
pub(crate) fn barcode_bytes(system: BarcodeSystem, symbol: &[u8], option: &BarcodeOption) -> (out: Vec<u8>)
    requires
        symbol@.len() <= MAX_SYMBOL_LEN,
    ensures
        out@ == barcode_command(system, symbol@, *option),
{
    let mut out: Vec<u8> = Vec::new();
    out.push(GS);
    out.push(0x77);
    out.push(option.width());
    out.push(GS);
    out.push(0x68);
    out.push(option.height());
    out.push(GS);
    out.push(0x66);
    out.push(option.font().byte());
    out.push(GS);
    out.push(0x48);
    out.push(option.position().byte());
    out.push(GS);
    out.push(0x6B);
    out.push(system.byte());
    out.push(symbol.len() as u8);
    append(&mut out, symbol);
    assert(out@ =~= barcode_command(system, symbol@, *option));
    out
}

/// Why a QR code payload cannot be printed, if it cannot: an empty payload
/// has no symbol, and the device stores no more than `MAX_QRCODE_LEN`
/// bytes.
pub open spec fn qrcode_rejection(payload: Seq<u8>) -> Option<PrinterError> {
    if payload.len() == 0 {
        Some(PrinterError::UnsupportedSymbology)
    } else if payload.len() > MAX_QRCODE_LEN {
        Some(PrinterError::PayloadTooLarge)
    } else {
        None
    }
}

/// The 2D symbologies that the device builds from a block of data with
/// its own settings.
#[derive(Debug, Clone, Copy, PartialEq, Eq, Structural)]
pub enum Code2D {
    /// PDF417.
    PDF417,
    /// MaxiCode.
    MaxiCode,
    /// GS1 DataBar, stacked.
    GS1DataBar,
    /// Aztec code.
    Aztec,
    /// Data Matrix.
    DataMatrix,
}

impl Code2D {
    /// The number by which the device knows the symbology.
    pub open spec fn code(self) -> u8 {
        match self {
            Code2D::PDF417 => 48,
            Code2D::MaxiCode => 50,
            Code2D::GS1DataBar => 51,
            Code2D::Aztec => 53,
            Code2D::DataMatrix => 54,
        }
    }

    /// The number by which the device knows the symbology.
    pub fn byte(self) -> (b: u8)
        ensures
            b == self.code(),
    {
        match self {
            Code2D::PDF417 => 48,
            Code2D::MaxiCode => 50,
            Code2D::GS1DataBar => 51,
            Code2D::Aztec => 53,
            Code2D::DataMatrix => 54,
        }
    }
}

/// The number by which the device knows the QR code.
pub const QRCODE: u8 = 49;

/// The most data one store command carries: it states the length of its
/// data plus three in two bytes.
pub const MAX_STORE_LEN: usize = 65532;

/// The command that stores `chunk` in the symbol buffer of the symbology
/// `code`: the length of the chunk plus three, low byte first, then the
/// chunk.
pub open spec fn store_command(code: u8, chunk: Seq<u8>) -> Seq<u8> {
    seq![
        GS,
        0x28u8,
        0x6Bu8,
        ((chunk.len() + 3) % 256) as u8,
        ((chunk.len() + 3) / 256) as u8,
        code,
        80u8,
        48u8,
    ] + chunk
}

/// The command that prints the symbol buffer of the symbology `code`.
pub open spec fn print_command(code: u8) -> Seq<u8> {
    seq![GS, 0x28u8, 0x6Bu8, 3u8, 0u8, code, 81u8, 48u8]
}

/// The store commands for `block`: one where the block fits a command,
/// else one for as much as fits and then those for the rest.
pub open spec fn stored(code: u8, block: Seq<u8>) -> Seq<u8>
    decreases block.len(),
{
    if block.len() <= MAX_STORE_LEN {
        store_command(code, block)
    } else {
        store_command(code, block.subrange(0, MAX_STORE_LEN as int)) + stored(
            code,
            block.subrange(MAX_STORE_LEN as int, block.len() as int),
        )
    }
}

/// The bytes that print a 2D symbol from a block of data: the block stored
/// in the symbol buffer, in as many commands as it takes, then the command
/// that prints the buffer.
pub open spec fn symbol_command(kind: Code2D, block: Seq<u8>) -> Seq<u8> {
    stored(kind.code(), block) + print_command(kind.code())
}

/// The bytes that print a QR code: its model, the size of its modules and
/// its error correction level, then the payload stored in the symbol
/// buffer, then the command that prints the buffer.
pub open spec fn qrcode_command(payload: Seq<u8>, option: QRCodeOption) -> Seq<u8> {
    seq![
        GS,
        0x28u8,
        0x6Bu8,
        4u8,
        0u8,
        QRCODE,
        65u8,
        option.spec_model().code(),
        0u8,
        GS,
        0x28u8,
        0x6Bu8,
        3u8,
        0u8,
        QRCODE,
        67u8,
        option.spec_size(),
        GS,
        0x28u8,
        0x6Bu8,
        3u8,
        0u8,
        QRCODE,
        69u8,
        option.spec_level().code(),
    ] + store_command(QRCODE, payload) + print_command(QRCODE)
}

fn append_store(out: &mut Vec<u8>, code: u8, chunk: &[u8])
    requires
        chunk@.len() <= MAX_STORE_LEN,
    ensures
        final(out)@ == old(out)@ + store_command(code, chunk@),
{
    let stated = chunk.len() + 3;
    out.push(GS);
    out.push(0x28);
    out.push(0x6B);
    out.push((stated % 256) as u8);
    out.push((stated / 256) as u8);
    out.push(code);
    out.push(80);
    out.push(48);
    append(out, chunk);
    assert(out@ =~= old(out)@ + store_command(code, chunk@));
}

fn append_print(out: &mut Vec<u8>, code: u8)
    ensures
        final(out)@ == old(out)@ + print_command(code),
{
    out.push(GS);
    out.push(0x28);
    out.push(0x6B);
    out.push(3);
    out.push(0);
    out.push(code);
    out.push(81);
    out.push(48);
    assert(out@ =~= old(out)@ + print_command(code));
}

/// The bytes that print the 2D symbol of `kind` from `block`. An empty
/// block has no symbol and is `UnsupportedSymbology`.
pub fn symbol_bytes(kind: Code2D, block: &[u8]) -> (result: Result<Vec<u8>, PrinterError>)
    ensures
        match result {
            Ok(v) => block@.len() > 0 && v@ == symbol_command(kind, block@),
            Err(e) => block@.len() == 0 && e == PrinterError::UnsupportedSymbology,
        },
{
    let n = block.len();
    if n == 0 {
        return Err(PrinterError::UnsupportedSymbology);
    }
    let code = kind.byte();
    let mut out: Vec<u8> = Vec::new();
    let mut from: usize = 0;
    assert(block@.subrange(0, n as int) =~= block@);
    while n - from > MAX_STORE_LEN
        invariant
            from <= n,
            n == block@.len(),
            stored(code, block@) == out@ + stored(code, block@.subrange(from as int, n as int)),
        decreases n - from,
    {
        let chunk = vstd::slice::slice_subrange(block, from, from + MAX_STORE_LEN);
        let ghost rest = block@.subrange(from as int, n as int);
        let ghost before = out@;
        append_store(&mut out, code, chunk);
        proof {
            assert(rest.subrange(0, MAX_STORE_LEN as int) =~= chunk@);
            assert(rest.subrange(MAX_STORE_LEN as int, rest.len() as int) =~= block@.subrange(
                from + MAX_STORE_LEN,
                n as int,
            ));
            assert(before + (store_command(code, chunk@) + stored(
                code,
                block@.subrange(from + MAX_STORE_LEN, n as int),
            )) =~= out@ + stored(code, block@.subrange(from + MAX_STORE_LEN, n as int)));
        }
        from += MAX_STORE_LEN;
    }
    let last = vstd::slice::slice_subrange(block, from, n);
    let ghost before = out@;
    append_store(&mut out, code, last);
    append_print(&mut out, code);
    assert(out@ =~= (before + store_command(code, last@)) + print_command(code));
    Ok(out)
}

/// The data of the store commands for `block`, one chunk to a command.
pub open spec fn chunks(block: Seq<u8>) -> Seq<Seq<u8>>
    decreases block.len(),
{
    if block.len() <= MAX_STORE_LEN {
        seq![block]
    } else {
        seq![block.subrange(0, MAX_STORE_LEN as int)] + chunks(
            block.subrange(MAX_STORE_LEN as int, block.len() as int),
        )
    }
}

/// Splitting a block for storing loses nothing and fits every command:
/// the chunks, one after the other, are the block; every chunk but the
/// last fills its command, and the last is not empty unless the block is.
pub proof fn chunks_rebuild_the_block(block: Seq<u8>)
    ensures
        chunks(block).flatten() == block,
        forall|i: int| 0 <= i < chunks(block).len() ==> (#[trigger] chunks(block)[i]).len()
            <= MAX_STORE_LEN,
        forall|i: int|
            0 <= i < chunks(block).len() - 1 ==> (#[trigger] chunks(block)[i]).len()
                == MAX_STORE_LEN,
        block.len() > 0 ==> chunks(block).last().len() > 0,
        chunks(block).len() >= 1,
    decreases block.len(),
{
    if block.len() <= MAX_STORE_LEN {
        assert(seq![block].flatten() =~= block) by {
            reveal_with_fuel(Seq::flatten, 2);
            assert(seq![block].drop_first() =~= Seq::<Seq<u8>>::empty());
        }
    } else {
        let head = block.subrange(0, MAX_STORE_LEN as int);
        let rest = block.subrange(MAX_STORE_LEN as int, block.len() as int);
        chunks_rebuild_the_block(rest);
        let all = seq![head] + chunks(rest);
        assert(all.drop_first() =~= chunks(rest));
        assert(all.flatten() =~= head + chunks(rest).flatten());
        assert(head + rest =~= block);
        assert forall|i: int| 0 <= i < all.len() implies (#[trigger] all[i]).len()
            <= MAX_STORE_LEN by {
            if i > 0 {
                assert(all[i] == chunks(rest)[i - 1]);
            }
        }
        assert forall|i: int| 0 <= i < all.len() - 1 implies (#[trigger] all[i]).len()
            == MAX_STORE_LEN by {
            if i > 0 {
                assert(all[i] == chunks(rest)[i - 1]);
            }
        }
        assert(all.last() == chunks(rest).last());
    }
}

/// The bytes that print `payload` as a QR code as `option` says.
pub fn qrcode_bytes(payload: &[u8], option: &QRCodeOption) -> (result: Result<Vec<u8>, PrinterError>)
    ensures
        match qrcode_rejection(payload@) {
            Some(e) => result matches Err(r) && r == e,
            None => result matches Ok(v) && v@ == qrcode_command(payload@, *option),
        },
{
    if payload.len() == 0 {
        return Err(PrinterError::UnsupportedSymbology);
    }
    if payload.len() > MAX_QRCODE_LEN {
        return Err(PrinterError::PayloadTooLarge);
    }
    let mut out: Vec<u8> = Vec::new();
    out.push(GS);
    out.push(0x28);
    out.push(0x6B);
    out.push(4);
    out.push(0);
    out.push(QRCODE);
    out.push(65);
    out.push(option.model().byte());
    out.push(0);
    out.push(GS);
    out.push(0x28);
    out.push(0x6B);
    out.push(3);
    out.push(0);
    out.push(QRCODE);
    out.push(67);
    out.push(option.size());
    out.push(GS);
    out.push(0x28);
    out.push(0x6B);
    out.push(3);
    out.push(0);
    out.push(QRCODE);
    out.push(69);
    out.push(option.level().byte());
    append_store(&mut out, QRCODE, payload);
    append_print(&mut out, QRCODE);
    assert(out@ =~= qrcode_command(payload@, *option));
    Ok(out)
}

} // verus!
