//! Barcode symbologies: what each accepts and the symbol bytes it yields.
//!
//! A payload is the text under the bars, as ASCII bytes. Each symbology
//! either turns it into the bytes of the symbol or rejects it; none repairs
//! a payload.

use vstd::prelude::*;
use crate::bytes::copy;
use crate::errors::PrinterError;

verus! {

/// The barcode symbologies.
#[derive(Debug, Clone, Copy, PartialEq, Eq, Structural)]
pub enum BarcodeSystem {
    /// UPC-A: eleven digits and a check digit.
    UPCA,
    /// UPC-E: the zero-suppressed form of UPC-A, six digits between a
    /// number system digit and a check digit.
    UPCE,
    /// EAN-13: twelve digits and a check digit.
    EAN13,
    /// EAN-8: seven digits and a check digit.
    EAN8,
    /// Code 39: capitals, digits and a few signs between two asterisks.
    CODE39,
    /// Interleaved 2 of 5: digits in pairs.
    ITF,
    /// Codabar: digits and a few signs between two of the letters A to D.
    CODABAR,
}

impl BarcodeSystem {
    /// The number by which the device knows the symbology in the print
    /// command that states the symbol's length.
    pub open spec fn code(self) -> u8 {
        match self {
            BarcodeSystem::UPCA => 65,
            BarcodeSystem::UPCE => 66,
            BarcodeSystem::EAN13 => 67,
            BarcodeSystem::EAN8 => 68,
            BarcodeSystem::CODE39 => 69,
            BarcodeSystem::ITF => 70,
            BarcodeSystem::CODABAR => 71,
        }
    }

    /// The number by which the device knows the symbology.
    pub fn byte(self) -> (b: u8)
        ensures
            b == self.code(),
    {
        match self {
            BarcodeSystem::UPCA => 65,
            BarcodeSystem::UPCE => 66,
            BarcodeSystem::EAN13 => 67,
            BarcodeSystem::EAN8 => 68,
            BarcodeSystem::CODE39 => 69,
            BarcodeSystem::ITF => 70,
            BarcodeSystem::CODABAR => 71,
        }
    }
}

/// The longest symbol a print command can carry: its length is one byte.
pub const MAX_SYMBOL_LEN: usize = 255;

/// An ASCII digit.
pub open spec fn is_digit(b: u8) -> bool {
    0x30 <= b <= 0x39
}

/// Every byte is an ASCII digit.
pub open spec fn all_digits(s: Seq<u8>) -> bool {
    forall|i: int| 0 <= i < s.len() ==> is_digit(#[trigger] s[i])
}

/// The weight of the data digit that stands `distance` places from the
/// right end of the data, the rightmost at distance 1: three, one, three
/// and so on.
pub open spec fn weight(distance: int) -> int {
    if distance % 2 == 1 {
        3
    } else {
        1
    }
}

/// The weighted sum of the first `upto` digits of `data`.
pub open spec fn partial_sum(data: Seq<u8>, upto: int) -> int
    decreases upto,
{
    if upto <= 0 {
        0
    } else {
        partial_sum(data, upto - 1) + weight(data.len() - (upto - 1)) * (data[upto - 1] - 0x30)
    }
}

/// The weighted sum of all digits of `data`.
pub open spec fn weighted_sum(data: Seq<u8>) -> int {
    partial_sum(data, data.len() as int)
}

/// The modulo-10 check digit of `data`: what brings the weighted sum up to
/// a multiple of ten.
pub open spec fn check_digit(data: Seq<u8>) -> int {
    (10 - weighted_sum(data) % 10) % 10
}

/// `data` followed by its check digit.
pub open spec fn with_check(data: Seq<u8>) -> Seq<u8> {
    data.push((0x30 + check_digit(data)) as u8)
}

/// The last digit of `full` is the check digit of those before it.
pub open spec fn has_valid_check(full: Seq<u8>) -> bool {
    full.len() >= 1 && full.last() == 0x30 + check_digit(full.drop_last())
}

/// The symbol of a payload in one of the fixed-length digit symbologies
/// with `data_len` data digits: the data with its check digit appended, or
/// the payload itself where it brings the right check digit along.
pub open spec fn checked_symbol(payload: Seq<u8>, data_len: int) -> Option<Seq<u8>> {
    if !all_digits(payload) {
        None
    } else if payload.len() == data_len {
        Some(with_check(payload))
    } else if payload.len() == data_len + 1 && has_valid_check(payload) {
        Some(payload)
    } else {
        None
    }
}

/// The eleven UPC-A data digits that six zero-suppressed digits stand for,
/// in number system 0.
pub open spec fn upce_expanded(six: Seq<u8>) -> Seq<u8>
    recommends
        six.len() == 6,
{
    let z = 0x30u8;
    if six[5] <= 0x32 {
        seq![z, six[0], six[1], six[5], z, z, z, z, six[2], six[3], six[4]]
    } else if six[5] == 0x33 {
        seq![z, six[0], six[1], six[2], z, z, z, z, z, six[3], six[4]]
    } else if six[5] == 0x34 {
        seq![z, six[0], six[1], six[2], six[3], z, z, z, z, z, six[4]]
    } else {
        seq![z, six[0], six[1], six[2], six[3], six[4], z, z, z, z, six[5]]
    }
}

/// The UPC-E symbol of six zero-suppressed digits: number system 0, the
/// six digits, and the check digit of the UPC-A number they stand for.
pub open spec fn upce_full(six: Seq<u8>) -> Seq<u8>
    recommends
        six.len() == 6,
{
    (seq![0x30u8] + six).push((0x30 + check_digit(upce_expanded(six))) as u8)
}

/// The symbol of a UPC-E payload: six digits, or seven with the number
/// system 0 in front, or eight with the right check digit behind as well.
pub open spec fn upce_symbol(payload: Seq<u8>) -> Option<Seq<u8>> {
    if !all_digits(payload) {
        None
    } else if payload.len() == 6 {
        Some(upce_full(payload))
    } else if payload.len() == 7 && payload[0] == 0x30 {
        Some(upce_full(payload.subrange(1, 7)))
    } else if payload.len() == 8 && payload == upce_full(payload.subrange(1, 7)) {
        Some(payload)
    } else {
        None
    }
}

/// A character that Code 39 can encode as data.
pub open spec fn is_code39_char(b: u8) -> bool {
    is_digit(b) || (0x41 <= b <= 0x5A) || b == 0x20 || b == 0x24 || b == 0x25 || b == 0x2B
        || b == 0x2D || b == 0x2E || b == 0x2F
}

/// Every byte is a Code 39 data character.
pub open spec fn all_code39(s: Seq<u8>) -> bool {
    forall|i: int| 0 <= i < s.len() ==> is_code39_char(#[trigger] s[i])
}

/// One of the four Codabar start and stop characters, A to D.
pub open spec fn is_codabar_guard(b: u8) -> bool {
    0x41 <= b <= 0x44
}

/// A character that Codabar can encode as data.
pub open spec fn is_codabar_char(b: u8) -> bool {
    is_digit(b) || b == 0x24 || b == 0x2B || b == 0x2D || b == 0x2E || b == 0x2F || b == 0x3A
}

/// Every byte from `from` up to `to` is a Codabar data character.
pub open spec fn all_codabar(s: Seq<u8>, from: int, to: int) -> bool {
    forall|i: int| from <= i < to ==> is_codabar_char(#[trigger] s[i])
}

/// A payload that Codabar takes: data characters between a start and a
/// stop character.
pub open spec fn is_codabar(s: Seq<u8>) -> bool {
    s.len() >= 2 && is_codabar_guard(s[0]) && is_codabar_guard(s.last()) && all_codabar(
        s,
        1,
        s.len() - 1,
    )
}

/// The asterisk that starts and stops a Code 39 symbol.
pub open spec fn code39_guard() -> u8 {
    0x2A
}

/// The symbol bytes of `payload` in `system`, or why there are none.
pub open spec fn symbol(system: BarcodeSystem, payload: Seq<u8>) -> Result<Seq<u8>, PrinterError> {
    match system {
        BarcodeSystem::UPCA => match checked_symbol(payload, 11) {
            Some(s) => Ok(s),
            None => Err(PrinterError::UnsupportedSymbology),
        },
        BarcodeSystem::EAN13 => match checked_symbol(payload, 12) {
            Some(s) => Ok(s),
            None => Err(PrinterError::UnsupportedSymbology),
        },
        BarcodeSystem::EAN8 => match checked_symbol(payload, 7) {
            Some(s) => Ok(s),
            None => Err(PrinterError::UnsupportedSymbology),
        },
        BarcodeSystem::UPCE => match upce_symbol(payload) {
            Some(s) => Ok(s),
            None => Err(PrinterError::UnsupportedSymbology),
        },
        BarcodeSystem::CODE39 => if payload.len() == 0 || !all_code39(payload) {
            Err(PrinterError::UnsupportedSymbology)
        } else if payload.len() + 2 > MAX_SYMBOL_LEN {
            Err(PrinterError::PayloadTooLarge)
        } else {
            Ok((seq![code39_guard()] + payload).push(code39_guard()))
        },
        BarcodeSystem::ITF => if payload.len() < 2 || payload.len() % 2 != 0 || !all_digits(
            payload,
        ) {
            Err(PrinterError::UnsupportedSymbology)
        } else if payload.len() > MAX_SYMBOL_LEN {
            Err(PrinterError::PayloadTooLarge)
        } else {
            Ok(payload)
        },
        BarcodeSystem::CODABAR => if !is_codabar(payload) {
            Err(PrinterError::UnsupportedSymbology)
        } else if payload.len() > MAX_SYMBOL_LEN {
            Err(PrinterError::PayloadTooLarge)
        } else {
            Ok(payload)
        },
    }
}

/// What an encoder returns for a spec-level result: the same bytes, or the
/// same error.
pub open spec fn yields(result: Result<Vec<u8>, PrinterError>, expected: Result<Seq<u8>, PrinterError>) -> bool {
    match expected {
        Ok(bytes) => result matches Ok(v) && v@ == bytes,
        Err(e) => result matches Err(r) && r == e,
    }
}

fn byte_is_digit(b: u8) -> (yes: bool)
    ensures
        yes == is_digit(b),
{
    0x30 <= b && b <= 0x39
}

fn check_all_digits(payload: &[u8]) -> (yes: bool)
    ensures
        yes == all_digits(payload@),
{
    let mut i: usize = 0;
    while i < payload.len()
        invariant
            i <= payload.len(),
            forall|j: int| 0 <= j < i ==> is_digit(#[trigger] payload@[j]),
        decreases payload.len() - i,
    {
        if !byte_is_digit(payload[i]) {
            return false;
        }
        i += 1;
    }
    true
}

fn compute_check_digit(data: &[u8]) -> (digit: u8)
    requires
        all_digits(data@),
        data@.len() <= MAX_SYMBOL_LEN,
    ensures
        digit == check_digit(data@),
        digit <= 9,
{
    let n = data.len();
    let mut sum: u32 = 0;
    let mut i: usize = 0;
    while i < n
        invariant
            i <= n,
            n == data@.len(),
            n <= MAX_SYMBOL_LEN,
            all_digits(data@),
            sum == partial_sum(data@, i as int),
            sum <= 27 * i,
        decreases n - i,
    {
        let value: u32 = (data[i] - 0x30) as u32;
        assert(is_digit(data@[i as int]));
        let w: u32 = if (n - i) % 2 == 1 { 3 } else { 1 };
        sum = sum + w * value;
        i += 1;
    }
    ((10 - sum % 10) % 10) as u8
}

fn checked(payload: &[u8], data_len: usize) -> (result: Option<Vec<u8>>)
    requires
        data_len < MAX_SYMBOL_LEN,
    ensures
        match checked_symbol(payload@, data_len as int) {
            Some(s) => result matches Some(v) && v@ == s,
            None => result is None,
        },
{
    if !check_all_digits(payload) {
        return None;
    }
    if payload.len() == data_len {
        let mut out = copy(payload);
        out.push(0x30 + compute_check_digit(payload));
        Some(out)
    } else if payload.len() == data_len + 1 {
        let data = vstd::slice::slice_subrange(payload, 0, data_len);
        assert(data@ =~= payload@.drop_last());
        if payload[data_len] == 0x30 + compute_check_digit(data) {
            Some(copy(payload))
        } else {
            None
        }
    } else {
        None
    }
}

fn upce_from_six(six: &[u8]) -> (out: Vec<u8>)
    requires
        six@.len() == 6,
        all_digits(six@),
    ensures
        out@ == upce_full(six@),
{
    let z: u8 = 0x30;
    let last = six[5];
    let mut expanded: Vec<u8> = Vec::new();
    expanded.push(z);
    expanded.push(six[0]);
    expanded.push(six[1]);
    if last <= 0x32 {
        expanded.push(last);
        expanded.push(z);
        expanded.push(z);
        expanded.push(z);
        expanded.push(z);
        expanded.push(six[2]);
        expanded.push(six[3]);
        expanded.push(six[4]);
    } else if last == 0x33 {
        expanded.push(six[2]);
        expanded.push(z);
        expanded.push(z);
        expanded.push(z);
        expanded.push(z);
        expanded.push(z);
        expanded.push(six[3]);
        expanded.push(six[4]);
    } else if last == 0x34 {
        expanded.push(six[2]);
        expanded.push(six[3]);
        expanded.push(z);
        expanded.push(z);
        expanded.push(z);
        expanded.push(z);
        expanded.push(z);
        expanded.push(six[4]);
    } else {
        expanded.push(six[2]);
        expanded.push(six[3]);
        expanded.push(six[4]);
        expanded.push(z);
        expanded.push(z);
        expanded.push(z);
        expanded.push(z);
        expanded.push(last);
    }
    assert(expanded@ =~= upce_expanded(six@));
    assert(all_digits(expanded@)) by {
        assert(forall|i: int| 0 <= i < 6 ==> is_digit(#[trigger] six@[i]));
    }
    let check = compute_check_digit(expanded.as_slice());
    let mut out: Vec<u8> = Vec::new();
    out.push(z);
    crate::bytes::append(&mut out, six);
    out.push(0x30 + check);
    out
}

fn upce(payload: &[u8]) -> (result: Option<Vec<u8>>)
    ensures
        match upce_symbol(payload@) {
            Some(s) => result matches Some(v) && v@ == s,
            None => result is None,
        },
{
    if !check_all_digits(payload) {
        return None;
    }
    if payload.len() == 6 {
        Some(upce_from_six(payload))
    } else if payload.len() == 7 && payload[0] == 0x30 {
        let six = vstd::slice::slice_subrange(payload, 1, 7);
        assert(all_digits(six@)) by {
            assert(forall|i: int| 0 <= i < 6 ==> six@[i] == payload@[i + 1]);
        }
        Some(upce_from_six(six))
    } else if payload.len() == 8 {
        let six = vstd::slice::slice_subrange(payload, 1, 7);
        assert(all_digits(six@)) by {
            assert(forall|i: int| 0 <= i < 6 ==> six@[i] == payload@[i + 1]);
        }
        let full = upce_from_six(six);
        if same_bytes(full.as_slice(), payload) {
            Some(full)
        } else {
            None
        }
    } else {
        None
    }
}

fn same_bytes(a: &[u8], b: &[u8]) -> (same: bool)
    ensures
        same == (a@ == b@),
{
    if a.len() != b.len() {
        return false;
    }
    let mut i: usize = 0;
    while i < a.len()
        invariant
            i <= a.len(),
            a@.len() == b@.len(),
            forall|j: int| 0 <= j < i ==> a@[j] == b@[j],
        decreases a.len() - i,
    {
        if a[i] != b[i] {
            return false;
        }
        i += 1;
    }
    assert(a@ =~= b@);
    true
}

fn byte_is_code39(b: u8) -> (yes: bool)
    ensures
        yes == is_code39_char(b),
{
    byte_is_digit(b) || (0x41 <= b && b <= 0x5A) || b == 0x20 || b == 0x24 || b == 0x25 || b
        == 0x2B || b == 0x2D || b == 0x2E || b == 0x2F
}

fn byte_is_codabar(b: u8) -> (yes: bool)
    ensures
        yes == is_codabar_char(b),
{
    byte_is_digit(b) || b == 0x24 || b == 0x2B || b == 0x2D || b == 0x2E || b == 0x2F || b == 0x3A
}

fn check_all_code39(payload: &[u8]) -> (yes: bool)
    ensures
        yes == all_code39(payload@),
{
    let mut i: usize = 0;
    while i < payload.len()
        invariant
            i <= payload.len(),
            forall|j: int| 0 <= j < i ==> is_code39_char(#[trigger] payload@[j]),
        decreases payload.len() - i,
    {
        if !byte_is_code39(payload[i]) {
            return false;
        }
        i += 1;
    }
    true
}

fn check_codabar(payload: &[u8]) -> (yes: bool)
    ensures
        yes == is_codabar(payload@),
{
    let n = payload.len();
    if n < 2 {
        return false;
    }
    let first = payload[0];
    let last = payload[n - 1];
    if !(0x41 <= first && first <= 0x44 && 0x41 <= last && last <= 0x44) {
        return false;
    }
    let mut i: usize = 1;
    while i < n - 1
        invariant
            1 <= i <= n - 1,
            n == payload@.len(),
            forall|j: int| 1 <= j < i ==> is_codabar_char(#[trigger] payload@[j]),
        decreases n - i,
    {
        if !byte_is_codabar(payload[i]) {
            return false;
        }
        i += 1;
    }
    true
}

fn or_unsupported(found: Option<Vec<u8>>) -> (result: Result<Vec<u8>, PrinterError>)
    ensures
        match found {
            Some(v) => result == Ok::<Vec<u8>, PrinterError>(v),
            None => result == Err::<Vec<u8>, PrinterError>(PrinterError::UnsupportedSymbology),
        },
{
    match found {
        Some(v) => Ok(v),
        None => Err(PrinterError::UnsupportedSymbology),
    }
}

/// Encodes `payload` in `system`: the bytes of the symbol, check digit and
/// start and stop characters included where the symbology has them.
/// A payload that breaks the symbology's length or character rules, or
/// brings a wrong check digit, is `UnsupportedSymbology`; a symbol too long
/// for a print command is `PayloadTooLarge`.
pub fn encode(system: BarcodeSystem, payload: &[u8]) -> (result: Result<Vec<u8>, PrinterError>)
    ensures
        yields(result, symbol(system, payload@)),
{
    match system {
        BarcodeSystem::UPCA => or_unsupported(checked(payload, 11)),
        BarcodeSystem::EAN13 => or_unsupported(checked(payload, 12)),
        BarcodeSystem::EAN8 => or_unsupported(checked(payload, 7)),
        BarcodeSystem::UPCE => or_unsupported(upce(payload)),
        BarcodeSystem::CODE39 => {
            if payload.len() == 0 || !check_all_code39(payload) {
                Err(PrinterError::UnsupportedSymbology)
            } else if payload.len() > MAX_SYMBOL_LEN - 2 {
                Err(PrinterError::PayloadTooLarge)
            } else {
                let mut out: Vec<u8> = Vec::new();
                out.push(0x2A);
                crate::bytes::append(&mut out, payload);
                out.push(0x2A);
                Ok(out)
            }
        },
        BarcodeSystem::ITF => {
            if payload.len() < 2 || payload.len() % 2 != 0 || !check_all_digits(payload) {
                Err(PrinterError::UnsupportedSymbology)
            } else if payload.len() > MAX_SYMBOL_LEN {
                Err(PrinterError::PayloadTooLarge)
            } else {
                Ok(copy(payload))
            }
        },
        BarcodeSystem::CODABAR => {
            if !check_codabar(payload) {
                Err(PrinterError::UnsupportedSymbology)
            } else if payload.len() > MAX_SYMBOL_LEN {
                Err(PrinterError::PayloadTooLarge)
            } else {
                Ok(copy(payload))
            }
        },
    }
}

} // verus!
