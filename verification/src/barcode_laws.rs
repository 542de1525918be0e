//! What holds of the check digits that the digit symbologies carry.

use vstd::prelude::*;
use crate::barcode::{
    all_digits, check_digit, checked_symbol, has_valid_check, is_digit, partial_sum, symbol,
    weight, weighted_sum, with_check, BarcodeSystem, MAX_SYMBOL_LEN,
};
use crate::errors::PrinterError;

verus! {

/// The sum that the standard asks of a complete number, check digit
/// included: the first `upto` digits, each weighted by its place, the last
/// digit of the number counting once, the one before it three times, and so
/// on in turn.
pub open spec fn full_partial_sum(full: Seq<u8>, upto: int) -> int
    decreases upto,
{
    if upto <= 0 {
        0
    } else {
        full_partial_sum(full, upto - 1) + weight(full.len() - (upto - 1) + 1) * (full[upto - 1]
            - 0x30)
    }
}

/// The sum that the standard asks of a complete number, check digit
/// included. The number is sound when this is a multiple of ten.
pub open spec fn full_sum(full: Seq<u8>) -> int {
    full_partial_sum(full, full.len() as int)
}

proof fn data_part_of_full_sum(data: Seq<u8>, last: u8, upto: int)
    requires
        0 <= upto <= data.len(),
    ensures
        full_partial_sum(data.push(last), upto) == partial_sum(data, upto),
    decreases upto,
{
    if upto > 0 {
        data_part_of_full_sum(data, last, upto - 1);
        assert(data.push(last)[upto - 1] == data[upto - 1]);
        assert(weight(data.len() + 1 - (upto - 1) + 1) == weight(data.len() - (upto - 1)));
    }
}

proof fn sums_are_not_negative(data: Seq<u8>, upto: int)
    requires
        all_digits(data),
        0 <= upto <= data.len(),
    ensures
        0 <= partial_sum(data, upto),
    decreases upto,
{
    if upto > 0 {
        sums_are_not_negative(data, upto - 1);
        assert(is_digit(data[upto - 1]));
    }
}

/// The check digit is the one digit that completes the data to a sound
/// number: with it the standard's sum is a multiple of ten, with any other
/// digit it is not.
pub proof fn check_digit_completes_the_sum(data: Seq<u8>, digit: u8)
    requires
        all_digits(data),
        is_digit(digit),
    ensures
        0 <= check_digit(data) <= 9,
        full_sum(data.push(digit)) % 10 == 0 <==> digit == 0x30 + check_digit(data),
        full_sum(with_check(data)) % 10 == 0,
{
    sums_are_not_negative(data, data.len() as int);
    data_part_of_full_sum(data, digit, data.len() as int);
    let check = (0x30 + check_digit(data)) as u8;
    data_part_of_full_sum(data, check, data.len() as int);
    let full = data.push(digit);
    assert(full[full.len() - 1] == digit);
    assert(full_sum(full) == weighted_sum(data) + (digit - 0x30));
    let sound = with_check(data);
    assert(sound[sound.len() - 1] == check);
    assert(full_sum(sound) == weighted_sum(data) + check_digit(data));
}

/// Twelve digits become an EAN-13 symbol by gaining their check digit as
/// the thirteenth, and the symbol is a sound number.
pub proof fn ean13_appends_the_check_digit(payload: Seq<u8>)
    requires
        payload.len() == 12,
        all_digits(payload),
    ensures
        symbol(BarcodeSystem::EAN13, payload) == Ok::<Seq<u8>, PrinterError>(
            payload.push((0x30 + check_digit(payload)) as u8),
        ),
        full_sum(payload.push((0x30 + check_digit(payload)) as u8)) % 10 == 0,
{
    check_digit_completes_the_sum(payload, 0x30);
}

/// Thirteen digits are an EAN-13 symbol exactly when the thirteenth is the
/// check digit of the first twelve, that is, when they are a sound number;
/// otherwise they are rejected.
pub proof fn ean13_checks_the_thirteenth_digit(payload: Seq<u8>)
    requires
        payload.len() == 13,
        all_digits(payload),
    ensures
        full_sum(payload) % 10 == 0 ==> symbol(BarcodeSystem::EAN13, payload) == Ok::<
            Seq<u8>,
            PrinterError,
        >(payload),
        full_sum(payload) % 10 != 0 ==> symbol(BarcodeSystem::EAN13, payload) == Err::<
            Seq<u8>,
            PrinterError,
        >(PrinterError::UnsupportedSymbology),
{
    let data = payload.drop_last();
    assert(all_digits(data)) by {
        assert(forall|i: int| 0 <= i < data.len() ==> data[i] == payload[i]);
    }
    assert(is_digit(payload[12]));
    assert(data.push(payload[12]) =~= payload);
    check_digit_completes_the_sum(data, payload[12]);
}

/// A symbol made by appending the check digit is accepted again as it is:
/// encoding what was encoded changes nothing.
pub proof fn checked_symbol_is_stable(payload: Seq<u8>, data_len: int)
    requires
        payload.len() == data_len,
        all_digits(payload),
    ensures
        checked_symbol(with_check(payload), data_len) == Some(with_check(payload)),
{
    check_digit_completes_the_sum(payload, 0x30);
    let full = with_check(payload);
    assert(full.drop_last() =~= payload);
    assert(all_digits(full)) by {
        assert(forall|i: int| 0 <= i < payload.len() ==> full[i] == payload[i]);
        assert(forall|i: int| 0 <= i < full.len() ==> is_digit(#[trigger] full[i]));
    }
    assert(has_valid_check(full));
}

/// Every symbol that a symbology yields is short enough for the print
/// command, whose length field is one byte.
pub proof fn symbols_fit_a_command(system: BarcodeSystem, payload: Seq<u8>)
    ensures
        symbol(system, payload) matches Ok(s) ==> s.len() <= MAX_SYMBOL_LEN,
{
}

} // verus!
