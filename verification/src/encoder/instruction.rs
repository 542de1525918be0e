//! Instructions, the state they act on, and what each one means: the bytes
//! it emits and the state it leaves.

use vstd::prelude::*;
use crate::barcode::{symbol, BarcodeSystem};
use crate::domain::{
    BarcodeOption, CashDrawer, DebugMode, Font, JustifyMode, QRCodeOption, UnderlineMode,
};
use crate::encoder::code_commands::{
    barcode_command, qrcode_command, qrcode_rejection, symbol_command, Code2D,
};
use crate::encoder::commands::{flag, ESC, GS, LF};
use crate::encoder::raster_command::raster_command;
use crate::errors::PrinterError;
use crate::page_code::PageCode;
use crate::raster::{converted, BitImageOption, Bitmap};

verus! {

/// The smallest magnification of a character, in each direction.
pub const MIN_TEXT_SIZE: u8 = 1;

/// The largest magnification of a character, in each direction.
pub const MAX_TEXT_SIZE: u8 = 8;

/// One printer operation.
#[derive(Debug)]
pub enum Instruction {
    /// Bring the device back to its defaults.
    Init,
    /// Restart the device.
    Reset,
    /// Cut the paper through.
    Cut,
    /// Cut the paper, leaving a bridge.
    PartialCut,
    /// Select the character table.
    PageCode(PageCode),
    /// Switch bold on or off.
    Bold(bool),
    /// Select the underline.
    Underline(UnderlineMode),
    /// Switch double strike on or off.
    DoubleStrike(bool),
    /// Select the font.
    Font(Font),
    /// Switch the quarter turn of characters on or off.
    Flip(bool),
    /// Select where lines stand.
    Justify(JustifyMode),
    /// Switch white on black on or off.
    Reverse(bool),
    /// Magnify characters, width then height, each from one to eight.
    Size(u8, u8),
    /// Print characters at their own size.
    ResetSize,
    /// Switch smoothing on or off.
    Smoothing(bool),
    /// Print what is buffered and feed so many lines.
    Feed(u8),
    /// Set the line spacing, in dots.
    LineSpacing(u8),
    /// Go back to the default line spacing.
    ResetLineSpacing,
    /// Switch printing upside down on or off.
    UpsideDown(bool),
    /// Send a pulse to a drawer pin; the two times are in units of two
    /// milliseconds, on then off.
    Pulse(CashDrawer, u8, u8),
    /// Set the horizontal and vertical motion units.
    MotionUnits(u8, u8),
    /// Print text.
    Text(String),
    /// Print a barcode of the given symbology from a payload.
    Barcode(BarcodeSystem, Vec<u8>, BarcodeOption),
    /// Print a QR code from a payload.
    QRCode(Vec<u8>, QRCodeOption),
    /// Print a 2D symbol that the device builds from a block of data.
    Symbol(Code2D, Vec<u8>),
    /// Print an image.
    BitImage(Bitmap, BitImageOption),
    /// Send bytes as they are, after selecting a character table if one is
    /// given.
    Custom(Vec<u8>, Option<PageCode>),
}

/// What the encoder remembers between instructions: the character table and
/// the styles in force on the device, and the debug mode.
#[derive(Debug, Clone, Copy, PartialEq, Eq)]
pub struct EncoderState {
    /// The character table in force.
    pub page_code: PageCode,
    /// Bold is on.
    pub bold: bool,
    /// The underline in force.
    pub underline: UnderlineMode,
    /// Double strike is on.
    pub double_strike: bool,
    /// White on black is on.
    pub reverse: bool,
    /// The font in force.
    pub font: Font,
    /// The magnification of characters in width.
    pub width: u8,
    /// The magnification of characters in height.
    pub height: u8,
    /// The line spacing in dots, `None` for the device's default.
    pub line_spacing: Option<u8>,
    /// Where lines stand.
    pub justify: JustifyMode,
    /// The quarter turn of characters is on.
    pub flip: bool,
    /// Printing upside down is on.
    pub upside_down: bool,
    /// Smoothing is on.
    pub smoothing: bool,
    /// How emitted bytes are rendered for diagnostics, if they are.
    pub debug_mode: Option<DebugMode>,
}

impl EncoderState {
    /// The state of a device at its defaults, under the given debug mode.
    pub open spec fn defaults(debug_mode: Option<DebugMode>) -> EncoderState {
        EncoderState {
            page_code: PageCode::PC437,
            bold: false,
            underline: UnderlineMode::Off,
            double_strike: false,
            reverse: false,
            font: Font::A,
            width: 1,
            height: 1,
            line_spacing: None,
            justify: JustifyMode::LEFT,
            flip: false,
            upside_down: false,
            smoothing: false,
            debug_mode,
        }
    }

    /// The state of a device at its defaults, under the given debug mode.
    pub fn new(debug_mode: Option<DebugMode>) -> (state: EncoderState)
        ensures
            state == EncoderState::defaults(debug_mode),
    {
        EncoderState {
            page_code: PageCode::PC437,
            bold: false,
            underline: UnderlineMode::Off,
            double_strike: false,
            reverse: false,
            font: Font::A,
            width: 1,
            height: 1,
            line_spacing: None,
            justify: JustifyMode::LEFT,
            flip: false,
            upside_down: false,
            smoothing: false,
            debug_mode,
        }
    }
}

/// A magnification the device documents.
pub open spec fn is_text_size(n: u8) -> bool {
    MIN_TEXT_SIZE <= n <= MAX_TEXT_SIZE
}

/// Two magnifications packed into one byte: the width less one in the high
/// half, the height less one in the low half.
pub open spec fn packed_size(width: u8, height: u8) -> u8 {
    ((width - 1) * 16 + (height - 1)) as u8
}

/// Why `instruction` cannot be encoded in `state`, if it cannot.
pub open spec fn rejection(instruction: Instruction, state: EncoderState) -> Option<PrinterError> {
    match instruction {
        Instruction::Size(width, height) => if is_text_size(width) && is_text_size(height) {
            None
        } else {
            Some(PrinterError::InvalidOption)
        },
        Instruction::Text(text) => if state.page_code.bytes_of(text@) is None {
            Some(PrinterError::InvalidOption)
        } else {
            None
        },
        Instruction::Barcode(system, payload, _) => match symbol(system, payload@) {
            Ok(_) => None,
            Err(e) => Some(e),
        },
        Instruction::QRCode(payload, _) => qrcode_rejection(payload@),
        Instruction::Symbol(_, block) => if block@.len() == 0 {
            Some(PrinterError::UnsupportedSymbology)
        } else {
            None
        },
        _ => None,
    }
}

/// The bytes of `instruction` in `state`, where it can be encoded.
pub open spec fn bytes_of(instruction: Instruction, state: EncoderState) -> Seq<u8> {
    match instruction {
        Instruction::Init => seq![ESC, 0x40u8],
        Instruction::Reset => seq![ESC, 0x3Fu8, LF, 0x00u8],
        Instruction::Cut => seq![GS, 0x56u8, 0x41u8, 0x00u8],
        Instruction::PartialCut => seq![GS, 0x56u8, 0x41u8, 0x01u8],
        Instruction::PageCode(page) => seq![ESC, 0x74u8, page.code()],
        Instruction::Bold(on) => seq![ESC, 0x45u8, flag(on)],
        Instruction::Underline(mode) => seq![ESC, 0x2Du8, mode.code()],
        Instruction::DoubleStrike(on) => seq![ESC, 0x47u8, flag(on)],
        Instruction::Font(font) => seq![ESC, 0x4Du8, font.code()],
        Instruction::Flip(on) => seq![ESC, 0x56u8, flag(on)],
        Instruction::Justify(mode) => seq![ESC, 0x61u8, mode.code()],
        Instruction::Reverse(on) => seq![GS, 0x42u8, flag(on)],
        Instruction::Size(width, height) => seq![GS, 0x21u8, packed_size(width, height)],
        Instruction::ResetSize => seq![GS, 0x21u8, 0x00u8],
        Instruction::Smoothing(on) => seq![GS, 0x62u8, flag(on)],
        Instruction::Feed(lines) => seq![ESC, 0x64u8, lines],
        Instruction::LineSpacing(dots) => seq![ESC, 0x33u8, dots],
        Instruction::ResetLineSpacing => seq![ESC, 0x32u8],
        Instruction::UpsideDown(on) => seq![ESC, 0x7Bu8, flag(on)],
        Instruction::Pulse(pin, on_time, off_time) => seq![
            ESC,
            0x70u8,
            pin.code(),
            on_time,
            off_time,
        ],
        Instruction::MotionUnits(x, y) => seq![GS, 0x50u8, x, y],
        Instruction::Text(text) => match state.page_code.bytes_of(text@) {
            Some(bytes) => bytes,
            None => seq![],
        },
        Instruction::Barcode(system, payload, option) => match symbol(system, payload@) {
            Ok(s) => barcode_command(system, s, option),
            Err(_) => seq![],
        },
        Instruction::QRCode(payload, option) => qrcode_command(payload@, option),
        Instruction::Symbol(kind, block) => symbol_command(kind, block@),
        Instruction::BitImage(bitmap, option) => raster_command(
            converted(bitmap@, option.width_limit(), option.height_limit()),
            option.spec_size(),
        ),
        Instruction::Custom(bytes, page) => match page {
            Some(p) => seq![ESC, 0x74u8, p.code()] + bytes@,
            None => bytes@,
        },
    }
}

/// The state that `instruction` leaves behind `state`, where it can be
/// encoded.
pub open spec fn state_after(instruction: Instruction, state: EncoderState) -> EncoderState {
    match instruction {
        Instruction::Init => EncoderState::defaults(state.debug_mode),
        Instruction::Reset => EncoderState::defaults(state.debug_mode),
        Instruction::PageCode(page) => EncoderState { page_code: page, ..state },
        Instruction::Bold(on) => EncoderState { bold: on, ..state },
        Instruction::Underline(mode) => EncoderState { underline: mode, ..state },
        Instruction::DoubleStrike(on) => EncoderState { double_strike: on, ..state },
        Instruction::Font(font) => EncoderState { font, ..state },
        Instruction::Flip(on) => EncoderState { flip: on, ..state },
        Instruction::Justify(mode) => EncoderState { justify: mode, ..state },
        Instruction::Reverse(on) => EncoderState { reverse: on, ..state },
        Instruction::Size(width, height) => EncoderState { width, height, ..state },
        Instruction::ResetSize => EncoderState { width: 1, height: 1, ..state },
        Instruction::Smoothing(on) => EncoderState { smoothing: on, ..state },
        Instruction::LineSpacing(dots) => EncoderState { line_spacing: Some(dots), ..state },
        Instruction::ResetLineSpacing => EncoderState { line_spacing: None, ..state },
        Instruction::UpsideDown(on) => EncoderState { upside_down: on, ..state },
        Instruction::Custom(_, page) => match page {
            Some(p) => EncoderState { page_code: p, ..state },
            None => state,
        },
        _ => state,
    }
}

} // verus!
