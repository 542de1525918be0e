//! Character tables: which byte stands for which character.
//!
//! A device shows the bytes from 0x80 on according to the character table
//! that is selected at the time. The lower half is ASCII in every table.

use vstd::prelude::*;
use crate::errors::PrinterError;

verus! {

/// The character tables the encoder knows.
#[derive(Debug, Clone, Copy, PartialEq, Eq, Structural)]
pub enum PageCode {
    /// Code page 437: USA, standard Europe.
    PC437,
    /// Windows code page 1252: Latin 1.
    WPC1252,
}

/// The upper half of code page 437: the code point of each byte from 0x80.
pub const PC437_HIGH: [u32; 128] = [
    0x00C7, 0x00FC, 0x00E9, 0x00E2, 0x00E4, 0x00E0, 0x00E5, 0x00E7,
    0x00EA, 0x00EB, 0x00E8, 0x00EF, 0x00EE, 0x00EC, 0x00C4, 0x00C5,
    0x00C9, 0x00E6, 0x00C6, 0x00F4, 0x00F6, 0x00F2, 0x00FB, 0x00F9,
    0x00FF, 0x00D6, 0x00DC, 0x00A2, 0x00A3, 0x00A5, 0x20A7, 0x0192,
    0x00E1, 0x00ED, 0x00F3, 0x00FA, 0x00F1, 0x00D1, 0x00AA, 0x00BA,
    0x00BF, 0x2310, 0x00AC, 0x00BD, 0x00BC, 0x00A1, 0x00AB, 0x00BB,
    0x2591, 0x2592, 0x2593, 0x2502, 0x2524, 0x2561, 0x2562, 0x2556,
    0x2555, 0x2563, 0x2551, 0x2557, 0x255D, 0x255C, 0x255B, 0x2510,
    0x2514, 0x2534, 0x252C, 0x251C, 0x2500, 0x253C, 0x255E, 0x255F,
    0x255A, 0x2554, 0x2569, 0x2566, 0x2560, 0x2550, 0x256C, 0x2567,
    0x2568, 0x2564, 0x2565, 0x2559, 0x2558, 0x2552, 0x2553, 0x256B,
    0x256A, 0x2518, 0x250C, 0x2588, 0x2584, 0x258C, 0x2590, 0x2580,
    0x03B1, 0x00DF, 0x0393, 0x03C0, 0x03A3, 0x03C3, 0x00B5, 0x03C4,
    0x03A6, 0x0398, 0x03A9, 0x03B4, 0x221E, 0x03C6, 0x03B5, 0x2229,
    0x2261, 0x00B1, 0x2265, 0x2264, 0x2320, 0x2321, 0x00F7, 0x2248,
    0x00B0, 0x2219, 0x00B7, 0x221A, 0x207F, 0x00B2, 0x25A0, 0x00A0,
];

/// The upper half of Windows code page 1252: the code point of each byte
/// from 0x80, zero where the table leaves the byte undefined.
pub const WPC1252_HIGH: [u32; 128] = [
    0x20AC, 0x0000, 0x201A, 0x0192, 0x201E, 0x2026, 0x2020, 0x2021,
    0x02C6, 0x2030, 0x0160, 0x2039, 0x0152, 0x0000, 0x017D, 0x0000,
    0x0000, 0x2018, 0x2019, 0x201C, 0x201D, 0x2022, 0x2013, 0x2014,
    0x02DC, 0x2122, 0x0161, 0x203A, 0x0153, 0x0000, 0x017E, 0x0178,
    0x00A0, 0x00A1, 0x00A2, 0x00A3, 0x00A4, 0x00A5, 0x00A6, 0x00A7,
    0x00A8, 0x00A9, 0x00AA, 0x00AB, 0x00AC, 0x00AD, 0x00AE, 0x00AF,
    0x00B0, 0x00B1, 0x00B2, 0x00B3, 0x00B4, 0x00B5, 0x00B6, 0x00B7,
    0x00B8, 0x00B9, 0x00BA, 0x00BB, 0x00BC, 0x00BD, 0x00BE, 0x00BF,
    0x00C0, 0x00C1, 0x00C2, 0x00C3, 0x00C4, 0x00C5, 0x00C6, 0x00C7,
    0x00C8, 0x00C9, 0x00CA, 0x00CB, 0x00CC, 0x00CD, 0x00CE, 0x00CF,
    0x00D0, 0x00D1, 0x00D2, 0x00D3, 0x00D4, 0x00D5, 0x00D6, 0x00D7,
    0x00D8, 0x00D9, 0x00DA, 0x00DB, 0x00DC, 0x00DD, 0x00DE, 0x00DF,
    0x00E0, 0x00E1, 0x00E2, 0x00E3, 0x00E4, 0x00E5, 0x00E6, 0x00E7,
    0x00E8, 0x00E9, 0x00EA, 0x00EB, 0x00EC, 0x00ED, 0x00EE, 0x00EF,
    0x00F0, 0x00F1, 0x00F2, 0x00F3, 0x00F4, 0x00F5, 0x00F6, 0x00F7,
    0x00F8, 0x00F9, 0x00FA, 0x00FB, 0x00FC, 0x00FD, 0x00FE, 0x00FF,
];

impl PageCode {
    /// The number by which the device knows the table.
    pub open spec fn code(self) -> u8 {
        match self {
            PageCode::PC437 => 0,
            PageCode::WPC1252 => 16,
        }
    }

    /// The number by which the device knows the table.
    pub fn byte(self) -> (b: u8)
        ensures
            b == self.code(),
    {
        match self {
            PageCode::PC437 => 0,
            PageCode::WPC1252 => 16,
        }
    }

    /// The upper half of the table: the code point of each byte from 0x80,
    /// zero where the byte is undefined.
    pub open spec fn high_half(self) -> Seq<u32> {
        match self {
            PageCode::PC437 => PC437_HIGH@,
            PageCode::WPC1252 => WPC1252_HIGH@,
        }
    }

    /// The character that the byte `b` shows under this table, if any.
    pub open spec fn char_of(self, b: u8) -> Option<u32> {
        if b < 0x80 {
            Some(b as u32)
        } else if self.high_half()[b - 0x80] == 0 {
            None
        } else {
            Some(self.high_half()[b - 0x80])
        }
    }

    /// The first byte at or after `0x80 + from` that shows the code point
    /// `c` under this table.
    pub open spec fn find_high(self, c: u32, from: int) -> Option<u8>
        decreases 128 - from,
    {
        if from < 0 || from >= 128 {
            None
        } else if self.high_half()[from] == c {
            Some((0x80 + from) as u8)
        } else {
            self.find_high(c, from + 1)
        }
    }

    /// The byte that shows the character `c` under this table, if the table
    /// has the character.
    pub open spec fn byte_of(self, c: char) -> Option<u8> {
        if (c as u32) < 0x80 {
            Some(c as u8)
        } else {
            self.find_high(c as u32, 0)
        }
    }

    /// The bytes that show `text` under this table, or `None` if the table
    /// lacks one of its characters.
    pub open spec fn bytes_of(self, text: Seq<char>) -> Option<Seq<u8>>
        decreases text.len(),
    {
        if text.len() == 0 {
            Some(seq![])
        } else {
            match (self.bytes_of(text.drop_last()), self.byte_of(text.last())) {
                (Some(bytes), Some(b)) => Some(bytes.push(b)),
                _ => None,
            }
        }
    }

    fn high_at(self, i: usize) -> (c: u32)
        requires
            i < 128,
        ensures
            c == self.high_half()[i as int],
    {
        match self {
            PageCode::PC437 => PC437_HIGH[i],
            PageCode::WPC1252 => WPC1252_HIGH[i],
        }
    }

    /// The byte that shows the character `c` under this table, if the table
    /// has the character.
    pub fn encode_char(self, c: char) -> (found: Option<u8>)
        ensures
            found == self.byte_of(c),
    {
        let v: u32 = c as u32;
        if v < 0x80 {
            return Some(v as u8);
        }
        let mut i: usize = 0;
        while i < 128
            invariant
                i <= 128,
                v >= 0x80,
                v == c as u32,
                self.find_high(v, 0) == self.find_high(v, i as int),
            decreases 128 - i,
        {
            if self.high_at(i) == v {
                return Some((0x80 + i) as u8);
            }
            i += 1;
        }
        None
    }

    /// The bytes that show `text` under this table. A text with a character
    /// that the table lacks is rejected as a whole with `InvalidOption`.
    pub fn encode_text(self, text: &str) -> (result: Result<Vec<u8>, PrinterError>)
        ensures
            match self.bytes_of(text@) {
                Some(bytes) => result matches Ok(v) && v@ == bytes,
                None => result matches Err(e) && e == PrinterError::InvalidOption,
            },
    {
        let mut out: Vec<u8> = Vec::new();
        let n = text.unicode_len();
        let mut i: usize = 0;
        while i < n
            invariant
                i <= n,
                n == text@.len(),
                self.bytes_of(text@.subrange(0, i as int)) == Some(out@),
            decreases n - i,
        {
            let c = text.get_char(i);
            proof {
                let upto = text@.subrange(0, i + 1);
                assert(upto.drop_last() =~= text@.subrange(0, i as int));
                assert(upto.last() == c);
            }
            match self.encode_char(c) {
                Some(b) => {
                    out.push(b);
                },
                None => {
                    proof {
                        lacking_prefix_spoils_text(self, text@, i + 1);
                    }
                    return Err(PrinterError::InvalidOption);
                },
            }
            i += 1;
        }
        assert(text@.subrange(0, n as int) =~= text@);
        Ok(out)
    }
}

proof fn lacking_prefix_spoils_text(page: PageCode, text: Seq<char>, upto: int)
    requires
        0 <= upto <= text.len(),
        page.bytes_of(text.subrange(0, upto)) is None,
    ensures
        page.bytes_of(text) is None,
    decreases text.len() - upto,
{
    if upto < text.len() {
        let longer = text.subrange(0, upto + 1);
        assert(longer.drop_last() =~= text.subrange(0, upto));
        lacking_prefix_spoils_text(page, text, upto + 1);
    } else {
        assert(text.subrange(0, upto) =~= text);
    }
}

/// The bytes of a text show that text again: each byte that `byte_of`
/// picks for a character shows exactly that character under the same table.
pub proof fn byte_shows_its_character(page: PageCode, c: char)
    ensures
        page.byte_of(c) matches Some(b) ==> page.char_of(b) == Some(c as u32),
{
    if (c as u32) >= 0x80 {
        found_byte_shows(page, c as u32, 0);
    }
}

proof fn found_byte_shows(page: PageCode, c: u32, from: int)
    requires
        c >= 0x80,
        0 <= from <= 128,
    ensures
        page.find_high(c, from) matches Some(b) ==> b >= 0x80 + from && page.char_of(b) == Some(c),
    decreases 128 - from,
{
    if from < 128 && page.high_half()[from] != c {
        found_byte_shows(page, c, from + 1);
    }
}

/// A character is turned away only if no byte shows it under the table.
pub proof fn missing_character_has_no_byte(page: PageCode, c: char, b: u8)
    requires
        page.byte_of(c) is None,
    ensures
        page.char_of(b) != Some(c as u32),
{
    if b >= 0x80 {
        not_found_means_absent(page, c as u32, 0, b - 0x80);
    }
}

proof fn not_found_means_absent(page: PageCode, c: u32, from: int, at: int)
    requires
        0 <= from <= at < 128,
        page.find_high(c, from) is None,
    ensures
        page.high_half()[at] != c,
    decreases 128 - from,
{
    if from < at {
        not_found_means_absent(page, c, from + 1, at);
    }
}

} // verus!
