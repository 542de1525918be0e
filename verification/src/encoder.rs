//! The protocol encoder: printing instructions as the bytes of the command
//! set.
//!
//! `encode` is the one way from an instruction to bytes. It either returns
//! the whole command and brings the state up to date, or returns an error
//! and leaves the state alone.

use vstd::prelude::*;
use crate::barcode::encode as encode_symbol;
use crate::barcode_laws::symbols_fit_a_command;
use crate::bytes::{append, copy};
use crate::encoder::code_commands::{barcode_bytes, qrcode_bytes, symbol_bytes};
use crate::encoder::commands::{flag_byte, ESC, GS, LF};
use crate::encoder::instruction::{
    bytes_of, rejection, state_after, EncoderState, Instruction, MAX_TEXT_SIZE, MIN_TEXT_SIZE,
};
use crate::encoder::raster_command::raster_bytes;
use crate::errors::PrinterError;
use crate::raster::convert;

pub mod code_commands;
pub mod commands;
pub mod instruction;
pub mod raster_command;

verus! {

fn two(a: u8, b: u8) -> (out: Vec<u8>)
    ensures
        out@ == seq![a, b],
{
    let mut out: Vec<u8> = Vec::new();
    out.push(a);
    out.push(b);
    assert(out@ =~= seq![a, b]);
    out
}

fn three(a: u8, b: u8, c: u8) -> (out: Vec<u8>)
    ensures
        out@ == seq![a, b, c],
{
    let mut out = two(a, b);
    out.push(c);
    assert(out@ =~= seq![a, b, c]);
    out
}

fn four(a: u8, b: u8, c: u8, d: u8) -> (out: Vec<u8>)
    ensures
        out@ == seq![a, b, c, d],
{
    let mut out = three(a, b, c);
    out.push(d);
    assert(out@ =~= seq![a, b, c, d]);
    out
}

/// An instruction that carries no payload: a fixed command or one with a
/// few parameter bytes.
pub open spec fn is_plain(instruction: Instruction) -> bool {
    !(instruction is Text || instruction is Barcode || instruction is QRCode
        || instruction is Symbol || instruction is BitImage || instruction is Custom)
}

fn encode_style(instruction: &Instruction, state: &mut EncoderState) -> (out: Vec<u8>)
    requires
        instruction is PageCode || instruction is Bold || instruction is Underline
            || instruction is DoubleStrike || instruction is Font || instruction is Flip
            || instruction is Justify || instruction is Reverse || instruction is Smoothing
            || instruction is UpsideDown || instruction is LineSpacing
            || instruction is ResetLineSpacing || instruction is ResetSize,
    ensures
        out@ == bytes_of(*instruction, *old(state)),
        *final(state) == state_after(*instruction, *old(state)),
{
    match instruction {
        Instruction::PageCode(page) => {
            state.page_code = *page;
            three(ESC, 0x74, page.byte())
        },
        Instruction::Bold(on) => {
            state.bold = *on;
            three(ESC, 0x45, flag_byte(*on))
        },
        Instruction::Underline(mode) => {
            state.underline = *mode;
            three(ESC, 0x2D, mode.byte())
        },
        Instruction::DoubleStrike(on) => {
            state.double_strike = *on;
            three(ESC, 0x47, flag_byte(*on))
        },
        Instruction::Font(font) => {
            state.font = *font;
            three(ESC, 0x4D, font.byte())
        },
        Instruction::Flip(on) => {
            state.flip = *on;
            three(ESC, 0x56, flag_byte(*on))
        },
        Instruction::Justify(mode) => {
            state.justify = *mode;
            three(ESC, 0x61, mode.byte())
        },
        Instruction::Reverse(on) => {
            state.reverse = *on;
            three(GS, 0x42, flag_byte(*on))
        },
        Instruction::Smoothing(on) => {
            state.smoothing = *on;
            three(GS, 0x62, flag_byte(*on))
        },
        Instruction::UpsideDown(on) => {
            state.upside_down = *on;
            three(ESC, 0x7B, flag_byte(*on))
        },
        Instruction::LineSpacing(dots) => {
            state.line_spacing = Some(*dots);
            three(ESC, 0x33, *dots)
        },
        Instruction::ResetLineSpacing => {
            state.line_spacing = None;
            two(ESC, 0x32)
        },
        // What is left is the reset of the size.
        _ => {
            state.width = 1;
            state.height = 1;
            three(GS, 0x21, 0x00)
        },
    }
}

fn encode_action(instruction: &Instruction, state: &mut EncoderState) -> (out: Vec<u8>)
    requires
        instruction is Init || instruction is Reset || instruction is Cut
            || instruction is PartialCut || instruction is Feed || instruction is Pulse
            || instruction is MotionUnits,
    ensures
        out@ == bytes_of(*instruction, *old(state)),
        *final(state) == state_after(*instruction, *old(state)),
{
    match instruction {
        Instruction::Init => {
            *state = EncoderState::new(state.debug_mode);
            two(ESC, 0x40)
        },
        Instruction::Reset => {
            *state = EncoderState::new(state.debug_mode);
            four(ESC, 0x3F, LF, 0x00)
        },
        Instruction::Cut => four(GS, 0x56, 0x41, 0x00),
        Instruction::Feed(lines) => three(ESC, 0x64, *lines),
        Instruction::Pulse(pin, on_time, off_time) => {
            let mut out = three(ESC, 0x70, pin.byte());
            out.push(*on_time);
            out.push(*off_time);
            assert(out@ =~= seq![ESC, 0x70u8, pin.code(), *on_time, *off_time]);
            out
        },
        Instruction::MotionUnits(x, y) => four(GS, 0x50, *x, *y),
        // What is left is the partial cut.
        _ => four(GS, 0x56, 0x41, 0x01),
    }
}

fn encode_size(width: u8, height: u8, state: &mut EncoderState) -> (result: Result<
    Vec<u8>,
    PrinterError,
>)
    ensures
        match rejection(Instruction::Size(width, height), *old(state)) {
            Some(e) => result matches Err(r) && r == e && *final(state) == *old(state),
            None => result matches Ok(v) && v@ == bytes_of(
                Instruction::Size(width, height),
                *old(state),
            ) && *final(state) == state_after(Instruction::Size(width, height), *old(state)),
        },
{
    if width < MIN_TEXT_SIZE || width > MAX_TEXT_SIZE || height < MIN_TEXT_SIZE || height
        > MAX_TEXT_SIZE {
        return Err(PrinterError::InvalidOption);
    }
    state.width = width;
    state.height = height;
    Ok(three(GS, 0x21, (width - 1) * 16 + (height - 1)))
}

fn encode_payload(instruction: &Instruction, state: &mut EncoderState) -> (result: Result<
    Vec<u8>,
    PrinterError,
>)
    requires
        !is_plain(*instruction),
    ensures
        match rejection(*instruction, *old(state)) {
            Some(e) => result matches Err(r) && r == e && *final(state) == *old(state),
            None => result matches Ok(v) && v@ == bytes_of(*instruction, *old(state))
                && *final(state) == state_after(*instruction, *old(state)),
        },
{
    match instruction {
        Instruction::Text(text) => state.page_code.encode_text(text.as_str()),
        Instruction::Barcode(system, payload, option) => {
            match encode_symbol(*system, payload.as_slice()) {
                Ok(found) => {
                    proof {
                        symbols_fit_a_command(*system, payload@);
                    }
                    Ok(barcode_bytes(*system, found.as_slice(), option))
                },
                Err(e) => Err(e),
            }
        },
        Instruction::QRCode(payload, option) => qrcode_bytes(payload.as_slice(), option),
        Instruction::Symbol(kind, block) => symbol_bytes(*kind, block.as_slice()),
        Instruction::BitImage(bitmap, option) => {
            let matrix = convert(bitmap, option);
            Ok(raster_bytes(&matrix, option.size()))
        },
        Instruction::Custom(bytes, page) => {
            match page {
                Some(p) => {
                    let mut out = three(ESC, 0x74, p.byte());
                    append(&mut out, bytes.as_slice());
                    state.page_code = *p;
                    Ok(out)
                },
                None => Ok(copy(bytes.as_slice())),
            }
        },
        // No instruction without a payload comes here.
        _ => Err(PrinterError::InvalidOption),
    }
}

/// Encodes `instruction` as the device in `state` takes it. On success the
/// bytes are the whole command and `state` is what the device is in after
/// it; on failure nothing is emitted and `state` is as it was.
pub fn encode(instruction: &Instruction, state: &mut EncoderState) -> (result: Result<
    Vec<u8>,
    PrinterError,
>)
    ensures
        match rejection(*instruction, *old(state)) {
            Some(e) => result matches Err(r) && r == e && *final(state) == *old(state),
            None => result matches Ok(v) && v@ == bytes_of(*instruction, *old(state))
                && *final(state) == state_after(*instruction, *old(state)),
        },
{
    match instruction {
        Instruction::Size(width, height) => encode_size(*width, *height, state),
        Instruction::Text(_)
        | Instruction::Barcode(_, _, _)
        | Instruction::QRCode(_, _)
        | Instruction::Symbol(_, _)
        | Instruction::BitImage(_, _)
        | Instruction::Custom(_, _) => encode_payload(instruction, state),
        Instruction::Init
        | Instruction::Reset
        | Instruction::Cut
        | Instruction::PartialCut
        | Instruction::Feed(_)
        | Instruction::Pulse(_, _, _)
        | Instruction::MotionUnits(_, _) => Ok(encode_action(instruction, state)),
        _ => Ok(encode_style(instruction, state)),
    }
}

} // verus!
