//! The printer: a fluent sequencer of instructions.
//!
//! A `Printer` gathers the bytes of a document in a buffer, one instruction
//! at a time, and hands the buffer to its driver when the document is
//! printed. An instruction that cannot be encoded leaves the printer as it
//! was, so the call can be made again with better arguments.

use vstd::prelude::*;
use vstd::string::StringSliceAdditionalSpecFns;
use crate::barcode::{symbol, BarcodeSystem};
use crate::bytes::{append, copy};
use crate::domain::{
    BarcodeOption, CashDrawer, DebugMode, Font, JustifyMode, QRCodeOption, UnderlineMode,
};
use crate::driver::{all_delivered, nothing_more_was_taken, took, whole_is_a_leading_part, Driver};
use crate::encoder::code_commands::{
    barcode_command, qrcode_command, qrcode_rejection, symbol_command, Code2D,
};
use crate::encoder::commands::{ESC, LF};
use crate::encoder::encode;
use crate::encoder::instruction::{
    bytes_of, is_text_size, rejection, state_after, EncoderState, Instruction,
};
use crate::encoder::raster_command::raster_command;
use crate::errors::PrinterError;
use crate::page_code::PageCode;
use crate::raster::{converted, BitImageOption, Bitmap};
use crate::text::{render, rendered};

verus! {

/// What the debug mode adds to the diagnostics for the bytes of one
/// instruction: the bytes rendered on a line of their own, or nothing when
/// the mode is off.
pub open spec fn trace_of(bytes: Seq<u8>, mode: Option<DebugMode>) -> Seq<char> {
    match mode {
        Some(m) => rendered(bytes, m) + "\n"@,
        None => Seq::empty(),
    }
}

/// The on time of the usual drawer pulse, in units of two milliseconds.
pub const PULSE_ON: u8 = 25;

/// The off time of the usual drawer pulse, in units of two milliseconds.
pub const PULSE_OFF: u8 = 250;

/// A document in the making, and the driver that will take it.
#[derive(Debug)]
pub struct Printer<D: Driver> {
    driver: D,
    state: EncoderState,
    buffer: Vec<u8>,
    diagnostics: String,
}

impl<D: Driver> Printer<D> {
    /// The driver.
    pub closed spec fn spec_driver(&self) -> D {
        self.driver
    }

    /// The encoder's state: the styles and the character table in force.
    pub closed spec fn spec_state(&self) -> EncoderState {
        self.state
    }

    /// The bytes gathered since the last successful print.
    pub closed spec fn spec_buffer(&self) -> Seq<u8> {
        self.buffer@
    }

    /// The diagnostics gathered since they were last taken.
    pub closed spec fn spec_diagnostics(&self) -> Seq<char> {
        self.diagnostics@
    }

    /// This printer is `before` with `bytes` gathered behind what it had,
    /// in the state `state`, with the same driver, and with the bytes
    /// traced in the diagnostics as the debug mode of `before` asks.
    pub open spec fn extended(&self, before: Self, bytes: Seq<u8>, state: EncoderState) -> bool {
        &&& self.spec_buffer() == before.spec_buffer() + bytes
        &&& self.spec_state() == state
        &&& self.spec_driver() == before.spec_driver()
        &&& self.spec_diagnostics() == before.spec_diagnostics() + trace_of(
            bytes,
            before.spec_state().debug_mode,
        )
    }

    /// A printer on `driver` with an empty document, the device's default
    /// styles and the given debug mode.
    pub fn new(driver: D, debug_mode: Option<DebugMode>) -> (printer: Self)
        ensures
            printer.spec_driver() == driver,
            printer.spec_state() == EncoderState::defaults(debug_mode),
            printer.spec_buffer() == Seq::<u8>::empty(),
            printer.spec_diagnostics() == Seq::<char>::empty(),
    {
        Printer {
            driver,
            state: EncoderState::new(debug_mode),
            buffer: Vec::new(),
            diagnostics: String::new(),
        }
    }

    /// The driver.
    pub fn driver(&self) -> (driver: &D)
        ensures
            *driver == self.spec_driver(),
    {
        &self.driver
    }

    /// The encoder's state.
    pub fn state(&self) -> (state: EncoderState)
        ensures
            state == self.spec_state(),
    {
        self.state
    }

    /// The bytes gathered since the last successful print.
    pub fn buffer(&self) -> (bytes: &Vec<u8>)
        ensures
            bytes@ == self.spec_buffer(),
    {
        &self.buffer
    }

    /// Hands out the diagnostics gathered so far and starts afresh.
    pub fn take_diagnostics(&mut self) -> (text: String)
        ensures
            text@ == old(self).spec_diagnostics(),
            final(self).spec_diagnostics() == Seq::<char>::empty(),
            final(self).spec_buffer() == old(self).spec_buffer(),
            final(self).spec_state() == old(self).spec_state(),
            final(self).spec_driver() == old(self).spec_driver(),
    {
        let mut text = String::new();
        std::mem::swap(&mut text, &mut self.diagnostics);
        text
    }

    /// Sets how the bytes of the instructions to come are rendered in the
    /// diagnostics, or switches rendering off. The bytes that go to the
    /// driver are the same either way.
    pub fn debug_mode(&mut self, mode: Option<DebugMode>) -> (printer: &mut Self)
        ensures
            printer.spec_state() == (EncoderState { debug_mode: mode, ..old(self).spec_state() }),
            printer.spec_buffer() == old(self).spec_buffer(),
            printer.spec_driver() == old(self).spec_driver(),
            printer.spec_diagnostics() == old(self).spec_diagnostics(),
            *final(self) == *final(printer),
    {
        self.state.debug_mode = mode;
        self
    }

    /// Encodes `instruction` in the current state and gathers its bytes
    /// behind the document so far. An instruction that cannot be encoded
    /// is reported at once and leaves the printer exactly as it was.
    pub fn apply(&mut self, instruction: &Instruction) -> (result: Result<&mut Self, PrinterError>)
        ensures
            result is Ok <==> rejection(*instruction, old(self).spec_state()) is None,
            result matches Ok(p) ==> p.extended(
                *old(self),
                bytes_of(*instruction, old(self).spec_state()),
                state_after(*instruction, old(self).spec_state()),
            ) && *final(self) == *final(p),
            result matches Err(e) ==> rejection(*instruction, old(self).spec_state()) == Some(e)
                && *final(self) == *old(self),
    {
        let mode = self.state.debug_mode;
        match encode(instruction, &mut self.state) {
            Ok(bytes) => {
                match mode {
                    Some(m) => {
                        let line = render(bytes.as_slice(), m);
                        self.diagnostics.append(line.as_str());
                        self.diagnostics.append("\n");
                        assert(self.diagnostics@ =~= old(self).diagnostics@ + (rendered(bytes@, m)
                            + "\n"@));
                    },
                    None => {
                        assert(self.diagnostics@ =~= old(self).diagnostics@ + Seq::<char>::empty());
                    },
                }
                append(&mut self.buffer, bytes.as_slice());
                Ok(self)
            },
            Err(e) => Err(e),
        }
    }

    /// This printer is `before` after `instruction`: its bytes gathered,
    /// its state brought up to date.
    pub open spec fn did(&self, before: Self, instruction: Instruction) -> bool {
        self.extended(
            before,
            bytes_of(instruction, before.spec_state()),
            state_after(instruction, before.spec_state()),
        )
    }

    /// This printer is `before` with the barcode of `payload` gathered, and
    /// the state as it was.
    pub open spec fn has_barcode(
        &self,
        before: Self,
        system: BarcodeSystem,
        payload: Seq<u8>,
        option: BarcodeOption,
    ) -> bool {
        symbol(system, payload) matches Ok(s) && self.extended(
            before,
            barcode_command(system, s, option),
            before.spec_state(),
        )
    }

    /// Brings the device and the state back to their defaults.
    pub fn init(&mut self) -> (result: Result<&mut Self, PrinterError>)
        ensures
            result matches Ok(p) && p.did(*old(self), Instruction::Init) && *final(self) == *final(p),
    {
        self.apply(&Instruction::Init)
    }

    /// Restarts the device; the state goes back to the defaults.
    pub fn reset(&mut self) -> (result: Result<&mut Self, PrinterError>)
        ensures
            result matches Ok(p) && p.did(*old(self), Instruction::Reset) && *final(self) == *final(p),
    {
        self.apply(&Instruction::Reset)
    }

    /// Cuts the paper through.
    pub fn cut(&mut self) -> (result: Result<&mut Self, PrinterError>)
        ensures
            result matches Ok(p) && p.did(*old(self), Instruction::Cut) && *final(self) == *final(p),
    {
        self.apply(&Instruction::Cut)
    }

    /// Cuts the paper, leaving a bridge.
    pub fn partial_cut(&mut self) -> (result: Result<&mut Self, PrinterError>)
        ensures
            result matches Ok(p) && p.did(*old(self), Instruction::PartialCut) && *final(self) == *final(p),
    {
        self.apply(&Instruction::PartialCut)
    }

    /// Selects the character table under which the text to come is encoded.
    pub fn page_code(&mut self, page: PageCode) -> (result: Result<&mut Self, PrinterError>)
        ensures
            result matches Ok(p) && p.did(*old(self), Instruction::PageCode(page)) && *final(self) == *final(p),
    {
        self.apply(&Instruction::PageCode(page))
    }

    /// Switches bold on or off.
    pub fn bold(&mut self, on: bool) -> (result: Result<&mut Self, PrinterError>)
        ensures
            result matches Ok(p) && p.did(*old(self), Instruction::Bold(on)) && *final(self) == *final(p),
    {
        self.apply(&Instruction::Bold(on))
    }

    /// Selects the underline.
    pub fn underline(&mut self, mode: UnderlineMode) -> (result: Result<&mut Self, PrinterError>)
        ensures
            result matches Ok(p) && p.did(*old(self), Instruction::Underline(mode)) && *final(self) == *final(p),
    {
        self.apply(&Instruction::Underline(mode))
    }

    /// Switches double strike on or off.
    pub fn double_strike(&mut self, on: bool) -> (result: Result<&mut Self, PrinterError>)
        ensures
            result matches Ok(p) && p.did(*old(self), Instruction::DoubleStrike(on)) && *final(self) == *final(p),
    {
        self.apply(&Instruction::DoubleStrike(on))
    }

    /// Selects the font.
    pub fn font(&mut self, font: Font) -> (result: Result<&mut Self, PrinterError>)
        ensures
            result matches Ok(p) && p.did(*old(self), Instruction::Font(font)) && *final(self) == *final(p),
    {
        self.apply(&Instruction::Font(font))
    }

    /// Switches the quarter turn of characters on or off.
    pub fn flip(&mut self, on: bool) -> (result: Result<&mut Self, PrinterError>)
        ensures
            result matches Ok(p) && p.did(*old(self), Instruction::Flip(on)) && *final(self) == *final(p),
    {
        self.apply(&Instruction::Flip(on))
    }

    /// Selects where lines stand between the margins.
    pub fn justify(&mut self, mode: JustifyMode) -> (result: Result<&mut Self, PrinterError>)
        ensures
            result matches Ok(p) && p.did(*old(self), Instruction::Justify(mode)) && *final(self) == *final(p),
    {
        self.apply(&Instruction::Justify(mode))
    }

    /// Switches white on black on or off.
    pub fn reverse(&mut self, on: bool) -> (result: Result<&mut Self, PrinterError>)
        ensures
            result matches Ok(p) && p.did(*old(self), Instruction::Reverse(on)) && *final(self) == *final(p),
    {
        self.apply(&Instruction::Reverse(on))
    }

    /// Prints characters at their own size again.
    pub fn reset_size(&mut self) -> (result: Result<&mut Self, PrinterError>)
        ensures
            result matches Ok(p) && p.did(*old(self), Instruction::ResetSize) && *final(self) == *final(p),
    {
        self.apply(&Instruction::ResetSize)
    }

    /// Switches smoothing on or off.
    pub fn smoothing(&mut self, on: bool) -> (result: Result<&mut Self, PrinterError>)
        ensures
            result matches Ok(p) && p.did(*old(self), Instruction::Smoothing(on)) && *final(self) == *final(p),
    {
        self.apply(&Instruction::Smoothing(on))
    }

    /// Prints what the device has buffered and feeds one line.
    pub fn feed(&mut self) -> (result: Result<&mut Self, PrinterError>)
        ensures
            result matches Ok(p) && p.did(*old(self), Instruction::Feed(1)) && *final(self) == *final(p),
    {
        self.apply(&Instruction::Feed(1))
    }

    /// Prints what the device has buffered and feeds `lines` lines.
    pub fn feeds(&mut self, lines: u8) -> (result: Result<&mut Self, PrinterError>)
        ensures
            result matches Ok(p) && p.did(*old(self), Instruction::Feed(lines)) && *final(self) == *final(p),
    {
        self.apply(&Instruction::Feed(lines))
    }

    /// Sets the line spacing to `dots` dots.
    pub fn line_spacing(&mut self, dots: u8) -> (result: Result<&mut Self, PrinterError>)
        ensures
            result matches Ok(p) && p.did(*old(self), Instruction::LineSpacing(dots)) && *final(self) == *final(p),
    {
        self.apply(&Instruction::LineSpacing(dots))
    }

    /// Goes back to the default line spacing.
    pub fn reset_line_spacing(&mut self) -> (result: Result<&mut Self, PrinterError>)
        ensures
            result matches Ok(p) && p.did(*old(self), Instruction::ResetLineSpacing) && *final(self) == *final(p),
    {
        self.apply(&Instruction::ResetLineSpacing)
    }

    /// Switches printing upside down on or off.
    pub fn upside_down(&mut self, on: bool) -> (result: Result<&mut Self, PrinterError>)
        ensures
            result matches Ok(p) && p.did(*old(self), Instruction::UpsideDown(on)) && *final(self) == *final(p),
    {
        self.apply(&Instruction::UpsideDown(on))
    }

    /// Kicks the drawer on `pin` with the usual pulse.
    pub fn cash_drawer(&mut self, pin: CashDrawer) -> (result: Result<&mut Self, PrinterError>)
        ensures
            result matches Ok(p) && p.did(*old(self), Instruction::Pulse(pin, PULSE_ON, PULSE_OFF)) && *final(self) == *final(p),
    {
        self.apply(&Instruction::Pulse(pin, PULSE_ON, PULSE_OFF))
    }

    /// Sets the horizontal and vertical motion units.
    pub fn motion_units(&mut self, x: u8, y: u8) -> (result: Result<&mut Self, PrinterError>)
        ensures
            result matches Ok(p) && p.did(*old(self), Instruction::MotionUnits(x, y)) && *final(self) == *final(p),
    {
        self.apply(&Instruction::MotionUnits(x, y))
    }

    /// Magnifies characters `width` times across and `height` times up,
    /// each from one to eight; any other factor is `InvalidOption`.
    pub fn size(&mut self, width: u8, height: u8) -> (result: Result<&mut Self, PrinterError>)
        ensures
            result is Ok <==> is_text_size(width) && is_text_size(height),
            result matches Ok(p) ==> p.did(*old(self), Instruction::Size(width, height))
                && *final(self) == *final(p),
            result matches Err(e) ==> e == PrinterError::InvalidOption && *final(self) == *old(self),
    {
        self.apply(&Instruction::Size(width, height))
    }

    /// Gathers `text`, encoded under the character table in force. A text
    /// with a character that the table lacks is `InvalidOption`, and
    /// nothing of it is gathered.
    pub fn write(&mut self, text: &str) -> (result: Result<&mut Self, PrinterError>)
        ensures
            result is Ok <==> old(self).spec_state().page_code.bytes_of(text@) is Some,
            result matches Ok(p) ==> p.extended(
                *old(self),
                old(self).spec_state().page_code.bytes_of(text@)->Some_0,
                old(self).spec_state(),
            ) && *final(self) == *final(p),
            result matches Err(e) ==> e == PrinterError::InvalidOption && *final(self) == *old(self),
    {
        self.apply(&Instruction::Text(text.to_owned()))
    }

    /// Gathers `text` and a line feed behind it, encoded under the
    /// character table in force; all of it or, where the table lacks a
    /// character, nothing.
    pub fn writeln(&mut self, text: &str) -> (result: Result<&mut Self, PrinterError>)
        ensures
            result is Ok <==> old(self).spec_state().page_code.bytes_of(text@) is Some,
            result matches Ok(p) ==> p.extended(
                *old(self),
                old(self).spec_state().page_code.bytes_of(text@)->Some_0.push(LF),
                old(self).spec_state(),
            ) && *final(self) == *final(p),
            result matches Err(e) ==> e == PrinterError::InvalidOption && *final(self) == *old(self),
    {
        let mut line = text.to_owned();
        line.append("\n");
        proof {
            reveal_strlit("\n");
            assert(line@ =~= text@.push('\n'));
            assert(line@.drop_last() =~= text@);
        }
        self.apply(&Instruction::Text(line))
    }

    /// Gathers `bytes` as they are.
    pub fn custom(&mut self, bytes: &[u8]) -> (result: Result<&mut Self, PrinterError>)
        ensures
            result matches Ok(p) && p.extended(*old(self), bytes@, old(self).spec_state())
                && *final(self) == *final(p),
    {
        self.apply(&Instruction::Custom(copy(bytes), None))
    }

    /// Selects the character table `page` and gathers `bytes` as they are
    /// behind the selection.
    pub fn custom_with_page_code(&mut self, bytes: &[u8], page: PageCode) -> (result: Result<
        &mut Self,
        PrinterError,
    >)
        ensures
            result matches Ok(p) && p.extended(
                *old(self),
                seq![ESC, 0x74u8, page.code()] + bytes@,
                (EncoderState { page_code: page, ..old(self).spec_state() }),
            ) && *final(self) == *final(p),
    {
        self.apply(&Instruction::Custom(copy(bytes), Some(page)))
    }

    /// Gathers the barcode of `data` in `system`, printed as `option` says.
    /// A payload that the symbology does not take is reported with the
    /// symbology's error, and nothing is gathered.
    pub fn barcode_option(
        &mut self,
        system: BarcodeSystem,
        data: &str,
        option: BarcodeOption,
    ) -> (result: Result<&mut Self, PrinterError>)
        ensures
            result is Ok <==> symbol(system, data.spec_bytes()) is Ok,
            result matches Ok(p) ==> p.has_barcode(*old(self), system, data.spec_bytes(), option)
                && *final(self) == *final(p),
            result matches Err(e) ==> symbol(system, data.spec_bytes()) == Err::<
                Seq<u8>,
                PrinterError,
            >(e) && *final(self) == *old(self),
    {
        self.apply(&Instruction::Barcode(system, copy(data.as_bytes()), option))
    }

    /// Gathers the EAN-13 barcode of `data`, printed the standard way.
    pub fn ean13(&mut self, data: &str) -> (result: Result<&mut Self, PrinterError>)
        ensures
            result is Ok <==> symbol(BarcodeSystem::EAN13, data.spec_bytes()) is Ok,
            result matches Ok(p) ==> p.has_barcode(
                *old(self),
                BarcodeSystem::EAN13,
                data.spec_bytes(),
                BarcodeOption::standard(),
            ) && *final(self) == *final(p),
            result matches Err(e) ==> symbol(BarcodeSystem::EAN13, data.spec_bytes()) == Err::<
                Seq<u8>,
                PrinterError,
            >(e) && *final(self) == *old(self),
    {
        self.barcode_option(BarcodeSystem::EAN13, data, BarcodeOption::default())
    }

    /// Gathers the EAN-13 barcode of `data`, printed as `option` says.
    pub fn ean13_option(&mut self, data: &str, option: BarcodeOption) -> (result: Result<
        &mut Self,
        PrinterError,
    >)
        ensures
            result is Ok <==> symbol(BarcodeSystem::EAN13, data.spec_bytes()) is Ok,
            result matches Ok(p) ==> p.has_barcode(
                *old(self),
                BarcodeSystem::EAN13,
                data.spec_bytes(),
                option,
            ) && *final(self) == *final(p),
            result matches Err(e) ==> symbol(BarcodeSystem::EAN13, data.spec_bytes()) == Err::<
                Seq<u8>,
                PrinterError,
            >(e) && *final(self) == *old(self),
    {
        self.barcode_option(BarcodeSystem::EAN13, data, option)
    }

    /// Gathers the EAN-8 barcode of `data`, printed the standard way.
    pub fn ean8(&mut self, data: &str) -> (result: Result<&mut Self, PrinterError>)
        ensures
            result is Ok <==> symbol(BarcodeSystem::EAN8, data.spec_bytes()) is Ok,
            result matches Ok(p) ==> p.has_barcode(
                *old(self),
                BarcodeSystem::EAN8,
                data.spec_bytes(),
                BarcodeOption::standard(),
            ) && *final(self) == *final(p),
            result matches Err(e) ==> symbol(BarcodeSystem::EAN8, data.spec_bytes()) == Err::<
                Seq<u8>,
                PrinterError,
            >(e) && *final(self) == *old(self),
    {
        self.barcode_option(BarcodeSystem::EAN8, data, BarcodeOption::default())
    }

    /// Gathers the EAN-8 barcode of `data`, printed as `option` says.
    pub fn ean8_option(&mut self, data: &str, option: BarcodeOption) -> (result: Result<
        &mut Self,
        PrinterError,
    >)
        ensures
            result is Ok <==> symbol(BarcodeSystem::EAN8, data.spec_bytes()) is Ok,
            result matches Ok(p) ==> p.has_barcode(
                *old(self),
                BarcodeSystem::EAN8,
                data.spec_bytes(),
                option,
            ) && *final(self) == *final(p),
            result matches Err(e) ==> symbol(BarcodeSystem::EAN8, data.spec_bytes()) == Err::<
                Seq<u8>,
                PrinterError,
            >(e) && *final(self) == *old(self),
    {
        self.barcode_option(BarcodeSystem::EAN8, data, option)
    }

    /// Gathers the UPC-A barcode of `data`, printed the standard way.
    pub fn upca(&mut self, data: &str) -> (result: Result<&mut Self, PrinterError>)
        ensures
            result is Ok <==> symbol(BarcodeSystem::UPCA, data.spec_bytes()) is Ok,
            result matches Ok(p) ==> p.has_barcode(
                *old(self),
                BarcodeSystem::UPCA,
                data.spec_bytes(),
                BarcodeOption::standard(),
            ) && *final(self) == *final(p),
            result matches Err(e) ==> symbol(BarcodeSystem::UPCA, data.spec_bytes()) == Err::<
                Seq<u8>,
                PrinterError,
            >(e) && *final(self) == *old(self),
    {
        self.barcode_option(BarcodeSystem::UPCA, data, BarcodeOption::default())
    }

    /// Gathers the UPC-A barcode of `data`, printed as `option` says.
    pub fn upca_option(&mut self, data: &str, option: BarcodeOption) -> (result: Result<
        &mut Self,
        PrinterError,
    >)
        ensures
            result is Ok <==> symbol(BarcodeSystem::UPCA, data.spec_bytes()) is Ok,
            result matches Ok(p) ==> p.has_barcode(
                *old(self),
                BarcodeSystem::UPCA,
                data.spec_bytes(),
                option,
            ) && *final(self) == *final(p),
            result matches Err(e) ==> symbol(BarcodeSystem::UPCA, data.spec_bytes()) == Err::<
                Seq<u8>,
                PrinterError,
            >(e) && *final(self) == *old(self),
    {
        self.barcode_option(BarcodeSystem::UPCA, data, option)
    }

    /// Gathers the UPC-E barcode of `data`, printed the standard way.
    pub fn upce(&mut self, data: &str) -> (result: Result<&mut Self, PrinterError>)
        ensures
            result is Ok <==> symbol(BarcodeSystem::UPCE, data.spec_bytes()) is Ok,
            result matches Ok(p) ==> p.has_barcode(
                *old(self),
                BarcodeSystem::UPCE,
                data.spec_bytes(),
                BarcodeOption::standard(),
            ) && *final(self) == *final(p),
            result matches Err(e) ==> symbol(BarcodeSystem::UPCE, data.spec_bytes()) == Err::<
                Seq<u8>,
                PrinterError,
            >(e) && *final(self) == *old(self),
    {
        self.barcode_option(BarcodeSystem::UPCE, data, BarcodeOption::default())
    }

    /// Gathers the UPC-E barcode of `data`, printed as `option` says.
    pub fn upce_option(&mut self, data: &str, option: BarcodeOption) -> (result: Result<
        &mut Self,
        PrinterError,
    >)
        ensures
            result is Ok <==> symbol(BarcodeSystem::UPCE, data.spec_bytes()) is Ok,
            result matches Ok(p) ==> p.has_barcode(
                *old(self),
                BarcodeSystem::UPCE,
                data.spec_bytes(),
                option,
            ) && *final(self) == *final(p),
            result matches Err(e) ==> symbol(BarcodeSystem::UPCE, data.spec_bytes()) == Err::<
                Seq<u8>,
                PrinterError,
            >(e) && *final(self) == *old(self),
    {
        self.barcode_option(BarcodeSystem::UPCE, data, option)
    }

    /// Gathers the Code 39 barcode of `data`, printed the standard way.
    pub fn code39(&mut self, data: &str) -> (result: Result<&mut Self, PrinterError>)
        ensures
            result is Ok <==> symbol(BarcodeSystem::CODE39, data.spec_bytes()) is Ok,
            result matches Ok(p) ==> p.has_barcode(
                *old(self),
                BarcodeSystem::CODE39,
                data.spec_bytes(),
                BarcodeOption::standard(),
            ) && *final(self) == *final(p),
            result matches Err(e) ==> symbol(BarcodeSystem::CODE39, data.spec_bytes()) == Err::<
                Seq<u8>,
                PrinterError,
            >(e) && *final(self) == *old(self),
    {
        self.barcode_option(BarcodeSystem::CODE39, data, BarcodeOption::default())
    }

    /// Gathers the Code 39 barcode of `data`, printed as `option` says.
    pub fn code39_option(&mut self, data: &str, option: BarcodeOption) -> (result: Result<
        &mut Self,
        PrinterError,
    >)
        ensures
            result is Ok <==> symbol(BarcodeSystem::CODE39, data.spec_bytes()) is Ok,
            result matches Ok(p) ==> p.has_barcode(
                *old(self),
                BarcodeSystem::CODE39,
                data.spec_bytes(),
                option,
            ) && *final(self) == *final(p),
            result matches Err(e) ==> symbol(BarcodeSystem::CODE39, data.spec_bytes()) == Err::<
                Seq<u8>,
                PrinterError,
            >(e) && *final(self) == *old(self),
    {
        self.barcode_option(BarcodeSystem::CODE39, data, option)
    }

    /// Gathers the Codabar barcode of `data`, printed the standard way.
    pub fn codabar(&mut self, data: &str) -> (result: Result<&mut Self, PrinterError>)
        ensures
            result is Ok <==> symbol(BarcodeSystem::CODABAR, data.spec_bytes()) is Ok,
            result matches Ok(p) ==> p.has_barcode(
                *old(self),
                BarcodeSystem::CODABAR,
                data.spec_bytes(),
                BarcodeOption::standard(),
            ) && *final(self) == *final(p),
            result matches Err(e) ==> symbol(BarcodeSystem::CODABAR, data.spec_bytes()) == Err::<
                Seq<u8>,
                PrinterError,
            >(e) && *final(self) == *old(self),
    {
        self.barcode_option(BarcodeSystem::CODABAR, data, BarcodeOption::default())
    }

    /// Gathers the Codabar barcode of `data`, printed as `option` says.
    pub fn codabar_option(&mut self, data: &str, option: BarcodeOption) -> (result: Result<
        &mut Self,
        PrinterError,
    >)
        ensures
            result is Ok <==> symbol(BarcodeSystem::CODABAR, data.spec_bytes()) is Ok,
            result matches Ok(p) ==> p.has_barcode(
                *old(self),
                BarcodeSystem::CODABAR,
                data.spec_bytes(),
                option,
            ) && *final(self) == *final(p),
            result matches Err(e) ==> symbol(BarcodeSystem::CODABAR, data.spec_bytes()) == Err::<
                Seq<u8>,
                PrinterError,
            >(e) && *final(self) == *old(self),
    {
        self.barcode_option(BarcodeSystem::CODABAR, data, option)
    }

    /// Gathers the interleaved 2 of 5 barcode of `data`, printed the standard way.
    pub fn itf(&mut self, data: &str) -> (result: Result<&mut Self, PrinterError>)
        ensures
            result is Ok <==> symbol(BarcodeSystem::ITF, data.spec_bytes()) is Ok,
            result matches Ok(p) ==> p.has_barcode(
                *old(self),
                BarcodeSystem::ITF,
                data.spec_bytes(),
                BarcodeOption::standard(),
            ) && *final(self) == *final(p),
            result matches Err(e) ==> symbol(BarcodeSystem::ITF, data.spec_bytes()) == Err::<
                Seq<u8>,
                PrinterError,
            >(e) && *final(self) == *old(self),
    {
        self.barcode_option(BarcodeSystem::ITF, data, BarcodeOption::default())
    }

    /// Gathers the interleaved 2 of 5 barcode of `data`, printed as `option` says.
    pub fn itf_option(&mut self, data: &str, option: BarcodeOption) -> (result: Result<
        &mut Self,
        PrinterError,
    >)
        ensures
            result is Ok <==> symbol(BarcodeSystem::ITF, data.spec_bytes()) is Ok,
            result matches Ok(p) ==> p.has_barcode(
                *old(self),
                BarcodeSystem::ITF,
                data.spec_bytes(),
                option,
            ) && *final(self) == *final(p),
            result matches Err(e) ==> symbol(BarcodeSystem::ITF, data.spec_bytes()) == Err::<
                Seq<u8>,
                PrinterError,
            >(e) && *final(self) == *old(self),
    {
        self.barcode_option(BarcodeSystem::ITF, data, option)
    }

    /// Gathers the QR code of `data`, printed as `option` says. An empty
    /// payload is `UnsupportedSymbology`, one longer than the device stores
    /// is `PayloadTooLarge`; nothing is gathered then.
    pub fn qrcode_option(&mut self, data: &str, option: QRCodeOption) -> (result: Result<
        &mut Self,
        PrinterError,
    >)
        ensures
            result is Ok <==> qrcode_rejection(data.spec_bytes()) is None,
            result matches Ok(p) ==> p.extended(
                *old(self),
                qrcode_command(data.spec_bytes(), option),
                old(self).spec_state(),
            ) && *final(self) == *final(p),
            result matches Err(e) ==> qrcode_rejection(data.spec_bytes()) == Some(e) && *final(self) == *old(self),
    {
        self.apply(&Instruction::QRCode(copy(data.as_bytes()), option))
    }

    /// Gathers the QR code of `data`, printed the standard way.
    pub fn qrcode(&mut self, data: &str) -> (result: Result<&mut Self, PrinterError>)
        ensures
            result is Ok <==> qrcode_rejection(data.spec_bytes()) is None,
            result matches Ok(p) ==> p.extended(
                *old(self),
                qrcode_command(data.spec_bytes(), QRCodeOption::standard()),
                old(self).spec_state(),
            ) && *final(self) == *final(p),
            result matches Err(e) ==> qrcode_rejection(data.spec_bytes()) == Some(e) && *final(self) == *old(self),
    {
        self.qrcode_option(data, QRCodeOption::default())
    }

    /// Gathers the PDF417 symbol that the device builds from `data`. Empty
    /// data has no symbol and is `UnsupportedSymbology`.
    pub fn pdf417(&mut self, data: &str) -> (result: Result<&mut Self, PrinterError>)
        ensures
            result is Ok <==> data.spec_bytes().len() > 0,
            result matches Ok(p) ==> p.extended(
                *old(self),
                symbol_command(Code2D::PDF417, data.spec_bytes()),
                old(self).spec_state(),
            ) && *final(self) == *final(p),
            result matches Err(e) ==> e == PrinterError::UnsupportedSymbology && *final(self)
                == *old(self),
    {
        self.apply(&Instruction::Symbol(Code2D::PDF417, copy(data.as_bytes())))
    }

    /// Gathers the MaxiCode symbol that the device builds from `data`. Empty
    /// data has no symbol and is `UnsupportedSymbology`.
    pub fn maxi_code(&mut self, data: &str) -> (result: Result<&mut Self, PrinterError>)
        ensures
            result is Ok <==> data.spec_bytes().len() > 0,
            result matches Ok(p) ==> p.extended(
                *old(self),
                symbol_command(Code2D::MaxiCode, data.spec_bytes()),
                old(self).spec_state(),
            ) && *final(self) == *final(p),
            result matches Err(e) ==> e == PrinterError::UnsupportedSymbology && *final(self)
                == *old(self),
    {
        self.apply(&Instruction::Symbol(Code2D::MaxiCode, copy(data.as_bytes())))
    }

    /// Gathers the GS1 DataBar symbol that the device builds from `data`. Empty
    /// data has no symbol and is `UnsupportedSymbology`.
    pub fn gs1_databar_2d(&mut self, data: &str) -> (result: Result<&mut Self, PrinterError>)
        ensures
            result is Ok <==> data.spec_bytes().len() > 0,
            result matches Ok(p) ==> p.extended(
                *old(self),
                symbol_command(Code2D::GS1DataBar, data.spec_bytes()),
                old(self).spec_state(),
            ) && *final(self) == *final(p),
            result matches Err(e) ==> e == PrinterError::UnsupportedSymbology && *final(self)
                == *old(self),
    {
        self.apply(&Instruction::Symbol(Code2D::GS1DataBar, copy(data.as_bytes())))
    }

    /// Gathers the Aztec symbol that the device builds from `data`. Empty
    /// data has no symbol and is `UnsupportedSymbology`.
    pub fn aztec(&mut self, data: &str) -> (result: Result<&mut Self, PrinterError>)
        ensures
            result is Ok <==> data.spec_bytes().len() > 0,
            result matches Ok(p) ==> p.extended(
                *old(self),
                symbol_command(Code2D::Aztec, data.spec_bytes()),
                old(self).spec_state(),
            ) && *final(self) == *final(p),
            result matches Err(e) ==> e == PrinterError::UnsupportedSymbology && *final(self)
                == *old(self),
    {
        self.apply(&Instruction::Symbol(Code2D::Aztec, copy(data.as_bytes())))
    }

    /// Gathers the Data Matrix symbol that the device builds from `data`. Empty
    /// data has no symbol and is `UnsupportedSymbology`.
    pub fn data_matrix(&mut self, data: &str) -> (result: Result<&mut Self, PrinterError>)
        ensures
            result is Ok <==> data.spec_bytes().len() > 0,
            result matches Ok(p) ==> p.extended(
                *old(self),
                symbol_command(Code2D::DataMatrix, data.spec_bytes()),
                old(self).spec_state(),
            ) && *final(self) == *final(p),
            result matches Err(e) ==> e == PrinterError::UnsupportedSymbology && *final(self)
                == *old(self),
    {
        self.apply(&Instruction::Symbol(Code2D::DataMatrix, copy(data.as_bytes())))
    }

    /// Gathers `bitmap` as a raster image, fitted and printed as `option`
    /// says.
    pub fn bit_image_option(&mut self, bitmap: Bitmap, option: BitImageOption) -> (result: Result<
        &mut Self,
        PrinterError,
    >)
        ensures
            result matches Ok(p) && p.extended(
                *old(self),
                raster_command(
                    converted(bitmap@, option.width_limit(), option.height_limit()),
                    option.spec_size(),
                ),
                old(self).spec_state(),
            ) && *final(self) == *final(p),
    {
        self.apply(&Instruction::BitImage(bitmap, option))
    }

    /// Gathers `bitmap` as a raster image, fitted and printed the standard
    /// way.
    pub fn bit_image(&mut self, bitmap: Bitmap) -> (result: Result<&mut Self, PrinterError>)
        ensures
            result matches Ok(p) && p.extended(
                *old(self),
                raster_command(
                    converted(
                        bitmap@,
                        BitImageOption::standard().width_limit(),
                        BitImageOption::standard().height_limit(),
                    ),
                    BitImageOption::standard().spec_size(),
                ),
                old(self).spec_state(),
            ) && *final(self) == *final(p),
    {
        self.bit_image_option(bitmap, BitImageOption::default())
    }

    /// Gathers a cut and prints the document: the cut is encoded and
    /// traced like any instruction, then the document with the cut at its
    /// end is printed as `print` does. When printing fails the cut stays
    /// gathered with the rest.
    pub fn print_cut(&mut self) -> (result: Result<&mut Self, PrinterError>)
        ensures
            result matches Ok(p) ==> {
                &&& p.spec_buffer() == Seq::<u8>::empty()
                &&& took(
                    old(self).spec_driver().account(),
                    p.spec_driver().account(),
                    old(self).spec_buffer() + bytes_of(Instruction::Cut, old(self).spec_state()),
                    true,
                )
                &&& all_delivered(p.spec_driver().account())
                &&& p.spec_state() == old(self).spec_state()
                &&& p.spec_diagnostics() == old(self).spec_diagnostics() + trace_of(
                    bytes_of(Instruction::Cut, old(self).spec_state()),
                    old(self).spec_state().debug_mode,
                )
                &&& *final(self) == *final(p)
            },
            result is Err ==> {
                &&& final(self).spec_buffer() == old(self).spec_buffer() + bytes_of(
                    Instruction::Cut,
                    old(self).spec_state(),
                )
                &&& took(
                    old(self).spec_driver().account(),
                    final(self).spec_driver().account(),
                    old(self).spec_buffer() + bytes_of(Instruction::Cut, old(self).spec_state()),
                    false,
                )
                &&& final(self).spec_state() == old(self).spec_state()
                &&& final(self).spec_diagnostics() == old(self).spec_diagnostics() + trace_of(
                    bytes_of(Instruction::Cut, old(self).spec_state()),
                    old(self).spec_state().debug_mode,
                )
            },
    {
        match self.apply(&Instruction::Cut) {
            Ok(p) => p.print(),
            Err(e) => Err(e),
        }
    }

    /// Closes a print whose delivery went as `delivered` says: after a
    /// delivery that succeeded the buffer is cleared, after one that failed
    /// the error is passed on and the printer stays exactly as it was, so
    /// nothing gathered is lost.
    pub fn settle(&mut self, delivered: Result<(), PrinterError>) -> (result: Result<
        &mut Self,
        PrinterError,
    >)
        ensures
            match delivered {
                Ok(_) => result matches Ok(p) && p.spec_buffer() == Seq::<u8>::empty()
                    && p.spec_state() == old(self).spec_state() && p.spec_driver() == old(self).spec_driver() && p.spec_diagnostics() == old(self).spec_diagnostics()
                    && *final(self) == *final(p),
                Err(e) => result matches Err(r) && r == e && *final(self) == *old(self),
            },
    {
        match delivered {
            Ok(_) => {
                self.buffer.clear();
                Ok(self)
            },
            Err(e) => Err(e),
        }
    }

    /// Hands the document to the driver and has it delivered: the whole
    /// buffer is written and then, if the driver took it, the driver is
    /// flushed. When both succeed the driver has accepted the document
    /// behind what it had and delivered all of it, and the buffer is
    /// cleared. When either fails the error is returned and the buffer
    /// stays; the driver has then accepted at most a leading part of the
    /// document, and nothing else.
    pub fn print(&mut self) -> (result: Result<&mut Self, PrinterError>)
        ensures
            result matches Ok(p) ==> {
                &&& p.spec_buffer() == Seq::<u8>::empty()
                &&& took(
                    old(self).spec_driver().account(),
                    p.spec_driver().account(),
                    old(self).spec_buffer(),
                    true,
                )
                &&& all_delivered(p.spec_driver().account())
                &&& p.spec_state() == old(self).spec_state()
                &&& p.spec_diagnostics() == old(self).spec_diagnostics()
                &&& *final(self) == *final(p)
            },
            result is Err ==> {
                &&& final(self).spec_buffer() == old(self).spec_buffer()
                &&& took(
                    old(self).spec_driver().account(),
                    final(self).spec_driver().account(),
                    old(self).spec_buffer(),
                    false,
                )
                &&& final(self).spec_state() == old(self).spec_state()
                &&& final(self).spec_diagnostics() == old(self).spec_diagnostics()
            },
    {
        let ghost before = self.driver.account();
        let written = self.driver.write(self.buffer.as_slice());
        let ghost between = self.driver.account();
        let delivered = match written {
            Ok(_) => {
                let flushed = self.driver.flush();
                proof {
                    nothing_more_was_taken(
                        before,
                        between,
                        self.driver.account(),
                        self.buffer@,
                        true,
                    );
                    whole_is_a_leading_part(before, self.driver.account(), self.buffer@);
                }
                flushed
            },
            Err(e) => Err(e),
        };
        self.settle(delivered)
    }
}

} // verus!
