use vstd::prelude::*;
use crate::text::upper_char;
use vstd::string::StrSliceExecFns;
use vstd::arithmetic::div_mod::{lemma_fundamental_div_mod, lemma_fundamental_div_mod_converse};

verus! {

/// An RGBA8 image of the boot screen.
#[derive(Debug, Clone, PartialEq, Eq)]
pub struct BootFramebuffer {
    pub width: u32,
    pub height: u32,
    pub rgba: Vec<u8>,
}

/// Whether the pixel starting at byte `4 * p` has any colour.
pub open spec fn pixel_lit(rgba: Seq<u8>, p: int) -> bool {
    rgba[4 * p] > 0 || rgba[4 * p + 1] > 0 || rgba[4 * p + 2] > 0
}

/// Number of lit pixels among the first `n` whole pixels of `rgba`.
pub open spec fn lit_pixels(rgba: Seq<u8>, n: int) -> nat
    decreases n,
{
    if n <= 0 {
        0
    } else {
        lit_pixels(rgba, n - 1) + if pixel_lit(rgba, n - 1) { 1nat } else { 0nat }
    }
}

/// The weight of the byte at `idx` in the checksum.
pub open spec fn checksum_weight(idx: int) -> u64 {
    ((idx % 251) + 1) as u64
}

/// The checksum of `bytes`: an FNV-style fold in which each byte is weighted
/// by its position, all in wrapping `u64` arithmetic.
pub open spec fn checksum_of(bytes: Seq<u8>) -> u64
    decreases bytes.len(),
{
    if bytes.len() == 0 {
        0
    } else {
        let idx = bytes.len() - 1;
        let weighted = vstd::wrapping::u64_specs::wrapping_mul(
            bytes.last() as u64,
            checksum_weight(idx),
        );
        vstd::wrapping::u64_specs::wrapping_add(
            vstd::wrapping::u64_specs::wrapping_mul(checksum_of(bytes.drop_last()), 1_099_511_628_211),
            weighted,
        )
    }
}

impl BootFramebuffer {
    /// Number of whole pixels in the buffer.
    pub fn pixel_count(&self) -> (n: usize)
        ensures
            n == self.rgba@.len() / 4,
    {
        self.rgba.len() / 4
    }

    /// Number of pixels with a non-zero red, green or blue channel.
    pub fn lit_pixel_count(&self) -> (n: usize)
        ensures
            n == lit_pixels(self.rgba@, (self.rgba@.len() / 4) as int),
            n <= self.rgba@.len() / 4,
    {
        let len = self.rgba.len();
        let total = len / 4;
        let mut n: usize = 0;
        let mut p: usize = 0;
        while p < total
            invariant
                len == self.rgba@.len(),
                total == len / 4,
                p <= total,
                n == lit_pixels(self.rgba@, p as int),
                n <= p,
            decreases total - p,
        {
            assert(4 * p + 3 < self.rgba@.len()) by (nonlinear_arith)
                requires
                    p < total,
                    total == len / 4,
                    len == self.rgba@.len();
            let i = 4 * p;
            if self.rgba[i] > 0 || self.rgba[i + 1] > 0 || self.rgba[i + 2] > 0 {
                n = n + 1;
            }
            p = p + 1;
        }
        n
    }

    /// A position-weighted checksum of every byte of the buffer.
    pub fn checksum(&self) -> (c: u64)
        ensures
            c == checksum_of(self.rgba@),
    {
        let mut acc: u64 = 0;
        let mut idx: usize = 0;
        while idx < self.rgba.len()
            invariant
                idx <= self.rgba@.len(),
                acc == checksum_of(self.rgba@.subrange(0, idx as int)),
            decreases self.rgba@.len() - idx,
        {
            assert(self.rgba@.subrange(0, idx + 1).drop_last() =~= self.rgba@.subrange(0, idx as int));
            let byte = self.rgba[idx];
            let weighted = (byte as u64).wrapping_mul((idx as u64 % 251) + 1);
            acc = acc.wrapping_mul(1_099_511_628_211).wrapping_add(weighted);
            idx = idx + 1;
        }
        assert(self.rgba@.subrange(0, idx as int) =~= self.rgba@);
        acc
    }
}

/// The rows of the 5x7 glyph of an upper-case character; bit 4 is the
/// leftmost column. Characters without a glyph are blank.
pub open spec fn glyph_rows(c: char) -> Seq<u8> {
    if c == 'A' {
        seq![0b01110, 0b10001, 0b10001, 0b11111, 0b10001, 0b10001, 0b10001]
    } else if c == 'B' {
        seq![0b11110, 0b10001, 0b10001, 0b11110, 0b10001, 0b10001, 0b11110]
    } else if c == 'C' {
        seq![0b01110, 0b10001, 0b10000, 0b10000, 0b10000, 0b10001, 0b01110]
    } else if c == 'D' {
        seq![0b11110, 0b10001, 0b10001, 0b10001, 0b10001, 0b10001, 0b11110]
    } else if c == 'E' {
        seq![0b11111, 0b10000, 0b10000, 0b11110, 0b10000, 0b10000, 0b11111]
    } else if c == 'F' {
        seq![0b11111, 0b10000, 0b10000, 0b11110, 0b10000, 0b10000, 0b10000]
    } else if c == 'G' {
        seq![0b01110, 0b10001, 0b10000, 0b10111, 0b10001, 0b10001, 0b01110]
    } else if c == 'H' {
        seq![0b10001, 0b10001, 0b10001, 0b11111, 0b10001, 0b10001, 0b10001]
    } else if c == 'I' {
        seq![0b11111, 0b00100, 0b00100, 0b00100, 0b00100, 0b00100, 0b11111]
    } else if c == 'J' {
        seq![0b11111, 0b00010, 0b00010, 0b00010, 0b10010, 0b10010, 0b01100]
    } else if c == 'K' {
        seq![0b10001, 0b10010, 0b10100, 0b11000, 0b10100, 0b10010, 0b10001]
    } else if c == 'L' {
        seq![0b10000, 0b10000, 0b10000, 0b10000, 0b10000, 0b10000, 0b11111]
    } else if c == 'M' {
        seq![0b10001, 0b11011, 0b10101, 0b10101, 0b10001, 0b10001, 0b10001]
    } else if c == 'N' {
        seq![0b10001, 0b11001, 0b10101, 0b10011, 0b10001, 0b10001, 0b10001]
    } else if c == 'O' {
        seq![0b01110, 0b10001, 0b10001, 0b10001, 0b10001, 0b10001, 0b01110]
    } else if c == 'P' {
        seq![0b11110, 0b10001, 0b10001, 0b11110, 0b10000, 0b10000, 0b10000]
    } else if c == 'Q' {
        seq![0b01110, 0b10001, 0b10001, 0b10001, 0b10101, 0b10010, 0b01101]
    } else if c == 'R' {
        seq![0b11110, 0b10001, 0b10001, 0b11110, 0b10100, 0b10010, 0b10001]
    } else if c == 'S' {
        seq![0b01111, 0b10000, 0b10000, 0b01110, 0b00001, 0b00001, 0b11110]
    } else if c == 'T' {
        seq![0b11111, 0b00100, 0b00100, 0b00100, 0b00100, 0b00100, 0b00100]
    } else if c == 'U' {
        seq![0b10001, 0b10001, 0b10001, 0b10001, 0b10001, 0b10001, 0b01110]
    } else if c == 'V' {
        seq![0b10001, 0b10001, 0b10001, 0b10001, 0b10001, 0b01010, 0b00100]
    } else if c == 'W' {
        seq![0b10001, 0b10001, 0b10001, 0b10101, 0b10101, 0b10101, 0b01010]
    } else if c == 'X' {
        seq![0b10001, 0b10001, 0b01010, 0b00100, 0b01010, 0b10001, 0b10001]
    } else if c == 'Y' {
        seq![0b10001, 0b10001, 0b01010, 0b00100, 0b00100, 0b00100, 0b00100]
    } else if c == 'Z' {
        seq![0b11111, 0b00001, 0b00010, 0b00100, 0b01000, 0b10000, 0b11111]
    } else if c == '0' {
        seq![0b01110, 0b10001, 0b10011, 0b10101, 0b11001, 0b10001, 0b01110]
    } else if c == '1' {
        seq![0b00100, 0b01100, 0b00100, 0b00100, 0b00100, 0b00100, 0b01110]
    } else if c == '2' {
        seq![0b01110, 0b10001, 0b00001, 0b00110, 0b01000, 0b10000, 0b11111]
    } else if c == '3' {
        seq![0b11110, 0b00001, 0b00001, 0b01110, 0b00001, 0b00001, 0b11110]
    } else if c == '4' {
        seq![0b00010, 0b00110, 0b01010, 0b10010, 0b11111, 0b00010, 0b00010]
    } else if c == '5' {
        seq![0b11111, 0b10000, 0b10000, 0b11110, 0b00001, 0b00001, 0b11110]
    } else if c == '6' {
        seq![0b00110, 0b01000, 0b10000, 0b11110, 0b10001, 0b10001, 0b01110]
    } else if c == '7' {
        seq![0b11111, 0b00001, 0b00010, 0b00100, 0b01000, 0b01000, 0b01000]
    } else if c == '8' {
        seq![0b01110, 0b10001, 0b10001, 0b01110, 0b10001, 0b10001, 0b01110]
    } else if c == '9' {
        seq![0b01110, 0b10001, 0b10001, 0b01111, 0b00001, 0b00010, 0b11100]
    } else if c == '-' {
        seq![0b00000, 0b00000, 0b00000, 0b11111, 0b00000, 0b00000, 0b00000]
    } else if c == ':' {
        seq![0b00000, 0b00100, 0b00100, 0b00000, 0b00100, 0b00100, 0b00000]
    } else if c == '.' {
        seq![0b00000, 0b00000, 0b00000, 0b00000, 0b00000, 0b00110, 0b00110]
    } else if c == '_' {
        seq![0b00000, 0b00000, 0b00000, 0b00000, 0b00000, 0b00000, 0b11111]
    } else if c == '|' {
        seq![0b00100, 0b00100, 0b00100, 0b00100, 0b00100, 0b00100, 0b00100]
    } else {
        seq![0u8, 0, 0, 0, 0, 0, 0]
    }
}

/// The 5x7 glyph drawn for `c`, whatever its ASCII case.
pub fn glyph_5x7(c: char) -> (g: [u8; 7])
    ensures
        g@ == glyph_rows(upper_char(c)),
{
    let u = if 'a' <= c && c <= 'z' {
        ((c as u8) - 32) as char
    } else {
        c
    };
    let g = match u {
        'A' => [0b01110, 0b10001, 0b10001, 0b11111, 0b10001, 0b10001, 0b10001],
        'B' => [0b11110, 0b10001, 0b10001, 0b11110, 0b10001, 0b10001, 0b11110],
        'C' => [0b01110, 0b10001, 0b10000, 0b10000, 0b10000, 0b10001, 0b01110],
        'D' => [0b11110, 0b10001, 0b10001, 0b10001, 0b10001, 0b10001, 0b11110],
        'E' => [0b11111, 0b10000, 0b10000, 0b11110, 0b10000, 0b10000, 0b11111],
        'F' => [0b11111, 0b10000, 0b10000, 0b11110, 0b10000, 0b10000, 0b10000],
        'G' => [0b01110, 0b10001, 0b10000, 0b10111, 0b10001, 0b10001, 0b01110],
        'H' => [0b10001, 0b10001, 0b10001, 0b11111, 0b10001, 0b10001, 0b10001],
        'I' => [0b11111, 0b00100, 0b00100, 0b00100, 0b00100, 0b00100, 0b11111],
        'J' => [0b11111, 0b00010, 0b00010, 0b00010, 0b10010, 0b10010, 0b01100],
        'K' => [0b10001, 0b10010, 0b10100, 0b11000, 0b10100, 0b10010, 0b10001],
        'L' => [0b10000, 0b10000, 0b10000, 0b10000, 0b10000, 0b10000, 0b11111],
        'M' => [0b10001, 0b11011, 0b10101, 0b10101, 0b10001, 0b10001, 0b10001],
        'N' => [0b10001, 0b11001, 0b10101, 0b10011, 0b10001, 0b10001, 0b10001],
        'O' => [0b01110, 0b10001, 0b10001, 0b10001, 0b10001, 0b10001, 0b01110],
        'P' => [0b11110, 0b10001, 0b10001, 0b11110, 0b10000, 0b10000, 0b10000],
        'Q' => [0b01110, 0b10001, 0b10001, 0b10001, 0b10101, 0b10010, 0b01101],
        'R' => [0b11110, 0b10001, 0b10001, 0b11110, 0b10100, 0b10010, 0b10001],
        'S' => [0b01111, 0b10000, 0b10000, 0b01110, 0b00001, 0b00001, 0b11110],
        'T' => [0b11111, 0b00100, 0b00100, 0b00100, 0b00100, 0b00100, 0b00100],
        'U' => [0b10001, 0b10001, 0b10001, 0b10001, 0b10001, 0b10001, 0b01110],
        'V' => [0b10001, 0b10001, 0b10001, 0b10001, 0b10001, 0b01010, 0b00100],
        'W' => [0b10001, 0b10001, 0b10001, 0b10101, 0b10101, 0b10101, 0b01010],
        'X' => [0b10001, 0b10001, 0b01010, 0b00100, 0b01010, 0b10001, 0b10001],
        'Y' => [0b10001, 0b10001, 0b01010, 0b00100, 0b00100, 0b00100, 0b00100],
        'Z' => [0b11111, 0b00001, 0b00010, 0b00100, 0b01000, 0b10000, 0b11111],
        '0' => [0b01110, 0b10001, 0b10011, 0b10101, 0b11001, 0b10001, 0b01110],
        '1' => [0b00100, 0b01100, 0b00100, 0b00100, 0b00100, 0b00100, 0b01110],
        '2' => [0b01110, 0b10001, 0b00001, 0b00110, 0b01000, 0b10000, 0b11111],
        '3' => [0b11110, 0b00001, 0b00001, 0b01110, 0b00001, 0b00001, 0b11110],
        '4' => [0b00010, 0b00110, 0b01010, 0b10010, 0b11111, 0b00010, 0b00010],
        '5' => [0b11111, 0b10000, 0b10000, 0b11110, 0b00001, 0b00001, 0b11110],
        '6' => [0b00110, 0b01000, 0b10000, 0b11110, 0b10001, 0b10001, 0b01110],
        '7' => [0b11111, 0b00001, 0b00010, 0b00100, 0b01000, 0b01000, 0b01000],
        '8' => [0b01110, 0b10001, 0b10001, 0b01110, 0b10001, 0b10001, 0b01110],
        '9' => [0b01110, 0b10001, 0b10001, 0b01111, 0b00001, 0b00010, 0b11100],
        '-' => [0b00000, 0b00000, 0b00000, 0b11111, 0b00000, 0b00000, 0b00000],
        ':' => [0b00000, 0b00100, 0b00100, 0b00000, 0b00100, 0b00100, 0b00000],
        '.' => [0b00000, 0b00000, 0b00000, 0b00000, 0b00000, 0b00110, 0b00110],
        '_' => [0b00000, 0b00000, 0b00000, 0b00000, 0b00000, 0b00000, 0b11111],
        '|' => [0b00100, 0b00100, 0b00100, 0b00100, 0b00100, 0b00100, 0b00100],
        _ => [0u8; 7],
    };
    assert(g@ =~= glyph_rows(upper_char(c)));
    g
}


/// The characters the boot font has a glyph for.
pub open spec fn has_glyph(c: char) -> bool {
    c == 'A' || c == 'B' || c == 'C' || c == 'D' || c == 'E' || c == 'F' || c == 'G' || c == 'H' || c == 'I' || c == 'J' || c == 'K' || c == 'L' || c == 'M' || c == 'N' || c == 'O' || c == 'P' || c == 'Q' || c == 'R' || c == 'S' || c == 'T' || c == 'U' || c == 'V' || c == 'W' || c == 'X' || c == 'Y' || c == 'Z' || c == '0' || c == '1' || c == '2' || c == '3' || c == '4' || c == '5' || c == '6' || c == '7' || c == '8' || c == '9' || c == '-' || c == ':' || c == '.' || c == '_' || c == '|'
}

/// The seven rows of a glyph read as one number, five bits per row.
pub open spec fn glyph_code(rows: Seq<u8>) -> int {
    rows[0] + 32 * rows[1] + 1024 * rows[2] + 32768 * rows[3] + 1048576 * rows[4]
        + 33554432 * rows[5] + 1073741824 * rows[6]
}

/// The boot font: the rows of every glyph (bit 4 is the leftmost column), and
/// a blank glyph for every character outside the font.
pub proof fn lemma_glyph_table(c: char)
    ensures
        glyph_rows('A') == seq![0b01110u8, 0b10001, 0b10001, 0b11111, 0b10001, 0b10001, 0b10001],
        glyph_rows('B') == seq![0b11110u8, 0b10001, 0b10001, 0b11110, 0b10001, 0b10001, 0b11110],
        glyph_rows('C') == seq![0b01110u8, 0b10001, 0b10000, 0b10000, 0b10000, 0b10001, 0b01110],
        glyph_rows('D') == seq![0b11110u8, 0b10001, 0b10001, 0b10001, 0b10001, 0b10001, 0b11110],
        glyph_rows('E') == seq![0b11111u8, 0b10000, 0b10000, 0b11110, 0b10000, 0b10000, 0b11111],
        glyph_rows('F') == seq![0b11111u8, 0b10000, 0b10000, 0b11110, 0b10000, 0b10000, 0b10000],
        glyph_rows('G') == seq![0b01110u8, 0b10001, 0b10000, 0b10111, 0b10001, 0b10001, 0b01110],
        glyph_rows('H') == seq![0b10001u8, 0b10001, 0b10001, 0b11111, 0b10001, 0b10001, 0b10001],
        glyph_rows('I') == seq![0b11111u8, 0b00100, 0b00100, 0b00100, 0b00100, 0b00100, 0b11111],
        glyph_rows('J') == seq![0b11111u8, 0b00010, 0b00010, 0b00010, 0b10010, 0b10010, 0b01100],
        glyph_rows('K') == seq![0b10001u8, 0b10010, 0b10100, 0b11000, 0b10100, 0b10010, 0b10001],
        glyph_rows('L') == seq![0b10000u8, 0b10000, 0b10000, 0b10000, 0b10000, 0b10000, 0b11111],
        glyph_rows('M') == seq![0b10001u8, 0b11011, 0b10101, 0b10101, 0b10001, 0b10001, 0b10001],
        glyph_rows('N') == seq![0b10001u8, 0b11001, 0b10101, 0b10011, 0b10001, 0b10001, 0b10001],
        glyph_rows('O') == seq![0b01110u8, 0b10001, 0b10001, 0b10001, 0b10001, 0b10001, 0b01110],
        glyph_rows('P') == seq![0b11110u8, 0b10001, 0b10001, 0b11110, 0b10000, 0b10000, 0b10000],
        glyph_rows('Q') == seq![0b01110u8, 0b10001, 0b10001, 0b10001, 0b10101, 0b10010, 0b01101],
        glyph_rows('R') == seq![0b11110u8, 0b10001, 0b10001, 0b11110, 0b10100, 0b10010, 0b10001],
        glyph_rows('S') == seq![0b01111u8, 0b10000, 0b10000, 0b01110, 0b00001, 0b00001, 0b11110],
        glyph_rows('T') == seq![0b11111u8, 0b00100, 0b00100, 0b00100, 0b00100, 0b00100, 0b00100],
        glyph_rows('U') == seq![0b10001u8, 0b10001, 0b10001, 0b10001, 0b10001, 0b10001, 0b01110],
        glyph_rows('V') == seq![0b10001u8, 0b10001, 0b10001, 0b10001, 0b10001, 0b01010, 0b00100],
        glyph_rows('W') == seq![0b10001u8, 0b10001, 0b10001, 0b10101, 0b10101, 0b10101, 0b01010],
        glyph_rows('X') == seq![0b10001u8, 0b10001, 0b01010, 0b00100, 0b01010, 0b10001, 0b10001],
        glyph_rows('Y') == seq![0b10001u8, 0b10001, 0b01010, 0b00100, 0b00100, 0b00100, 0b00100],
        glyph_rows('Z') == seq![0b11111u8, 0b00001, 0b00010, 0b00100, 0b01000, 0b10000, 0b11111],
        glyph_rows('0') == seq![0b01110u8, 0b10001, 0b10011, 0b10101, 0b11001, 0b10001, 0b01110],
        glyph_rows('1') == seq![0b00100u8, 0b01100, 0b00100, 0b00100, 0b00100, 0b00100, 0b01110],
        glyph_rows('2') == seq![0b01110u8, 0b10001, 0b00001, 0b00110, 0b01000, 0b10000, 0b11111],
        glyph_rows('3') == seq![0b11110u8, 0b00001, 0b00001, 0b01110, 0b00001, 0b00001, 0b11110],
        glyph_rows('4') == seq![0b00010u8, 0b00110, 0b01010, 0b10010, 0b11111, 0b00010, 0b00010],
        glyph_rows('5') == seq![0b11111u8, 0b10000, 0b10000, 0b11110, 0b00001, 0b00001, 0b11110],
        glyph_rows('6') == seq![0b00110u8, 0b01000, 0b10000, 0b11110, 0b10001, 0b10001, 0b01110],
        glyph_rows('7') == seq![0b11111u8, 0b00001, 0b00010, 0b00100, 0b01000, 0b01000, 0b01000],
        glyph_rows('8') == seq![0b01110u8, 0b10001, 0b10001, 0b01110, 0b10001, 0b10001, 0b01110],
        glyph_rows('9') == seq![0b01110u8, 0b10001, 0b10001, 0b01111, 0b00001, 0b00010, 0b11100],
        glyph_rows('-') == seq![0b00000u8, 0b00000, 0b00000, 0b11111, 0b00000, 0b00000, 0b00000],
        glyph_rows(':') == seq![0b00000u8, 0b00100, 0b00100, 0b00000, 0b00100, 0b00100, 0b00000],
        glyph_rows('.') == seq![0b00000u8, 0b00000, 0b00000, 0b00000, 0b00000, 0b00110, 0b00110],
        glyph_rows('_') == seq![0b00000u8, 0b00000, 0b00000, 0b00000, 0b00000, 0b00000, 0b11111],
        glyph_rows('|') == seq![0b00100u8, 0b00100, 0b00100, 0b00100, 0b00100, 0b00100, 0b00100],
        !has_glyph(c) ==> glyph_rows(c) == seq![0u8, 0, 0, 0, 0, 0, 0],
{
    if !has_glyph(c) {
        assert(glyph_rows(c) =~= seq![0u8, 0, 0, 0, 0, 0, 0]);
    }
}

/// Letters are drawn alike in either ASCII case: a small letter's glyph is its
/// capital's, and nothing else changes case.
pub proof fn lemma_glyph_case(c: char)
    ensures
        'a' <= c <= 'z' ==> 'A' <= upper_char(c) <= 'Z' && upper_char(c) as u32 + 32 == c as u32,
        !('a' <= c <= 'z') ==> upper_char(c) == c,
{
    if 'a' <= c <= 'z' {
        let v = c as u32;
        assert(97 <= v <= 122);
        assert(((v - 32) as char) as u32 == v - 32);
    }
}

/// Every character of the font has its own glyph, and none is blank, so no
/// two characters of the font are drawn alike and none draws as nothing.
pub proof fn lemma_glyphs_distinct(c1: char, c2: char)
    requires
        has_glyph(c1),
        has_glyph(c2),
    ensures
        glyph_rows(c1) != seq![0u8, 0, 0, 0, 0, 0, 0],
        c1 != c2 ==> glyph_rows(c1) != glyph_rows(c2),
{
    assert(glyph_code(glyph_rows('A')) == 18842895918);
    assert(glyph_code(glyph_rows('B')) == 32801506878);
    assert(glyph_code(glyph_rows('C')) == 15620129326);
    assert(glyph_code(glyph_rows('D')) == 32801080894);
    assert(glyph_code(glyph_rows('E')) == 33840644639);
    assert(glyph_code(glyph_rows('F')) == 17734517279);
    assert(glyph_code(glyph_rows('G')) == 15621407278);
    assert(glyph_code(glyph_rows('H')) == 18842895921);
    assert(glyph_code(glyph_rows('I')) == 33424543903);
    assert(glyph_code(glyph_rows('J')) == 13507823711);
    assert(glyph_code(glyph_rows('K')) == 18879369809);
    assert(glyph_code(glyph_rows('L')) == 33840185872);
    assert(glyph_code(glyph_rows('M')) == 18842572657);
    assert(glyph_code(glyph_rows('N')) == 18842507057);
    assert(glyph_code(glyph_rows('O')) == 15621211694);
    assert(glyph_code(glyph_rows('P')) == 17734518334);
    assert(glyph_code(glyph_rows('Q')) == 14585218606);
    assert(glyph_code(glyph_rows('R')) == 18879563326);
    assert(glyph_code(glyph_rows('S')) == 32247333391);
    assert(glyph_code(glyph_rows('T')) == 4433514655);
    assert(glyph_code(glyph_rows('U')) == 15621211697);
    assert(glyph_code(glyph_rows('V')) == 4648912433);
    assert(glyph_code(glyph_rows('W')) == 11464787505);
    assert(glyph_code(glyph_rows('X')) == 18834663985);
    assert(glyph_code(glyph_rows('Y')) == 4433521201);
    assert(glyph_code(glyph_rows('Z')) == 33831389247);
    assert(glyph_code(glyph_rows('0')) == 15629733422);
    assert(glyph_code(glyph_rows('1')) == 15170933124);
    assert(glyph_code(glyph_rows('2')) == 33831454254);
    assert(glyph_code(glyph_rows('3')) == 32247317566);
    assert(glyph_code(glyph_rows('4')) == 2247698626);
    assert(glyph_code(glyph_rows('5')) == 32247857695);
    assert(glyph_code(glyph_rows('6')) == 15621636358);
    assert(glyph_code(glyph_rows('7')) == 8866891839);
    assert(glyph_code(glyph_rows('8')) == 15621113390);
    assert(glyph_code(glyph_rows('9')) == 30133437998);
    assert(glyph_code(glyph_rows('-')) == 1015808);
    assert(glyph_code(glyph_rows(':')) == 138416256);
    assert(glyph_code(glyph_rows('.')) == 6643777536);
    assert(glyph_code(glyph_rows('_')) == 33285996544);
    assert(glyph_code(glyph_rows('|')) == 4433514628);
    assert(glyph_code(seq![0u8, 0, 0, 0, 0, 0, 0]) == 0);
    if c1 != c2 && glyph_rows(c1) == glyph_rows(c2) {
        assert(glyph_code(glyph_rows(c1)) == glyph_code(glyph_rows(c2)));
    }
}

/// One channel of `dst` blended toward `src` with opacity `alpha` out of 255.
pub open spec fn blend_channel(dst: u8, src: u8, alpha: u8) -> u8 {
    ((dst as int * (255 - alpha as int) + src as int * alpha as int) / 255) as u8
}

/// Full opacity paints the colour and zero opacity keeps the old one; any
/// opacity gives a value between the two.
pub proof fn lemma_blend_extremes(dst: u8, src: u8, alpha: u8)
    ensures
        blend_channel(dst, src, 255) == src,
        blend_channel(dst, src, 0) == dst,
        dst <= src ==> dst <= blend_channel(dst, src, alpha) <= src,
        src <= dst ==> src <= blend_channel(dst, src, alpha) <= dst,
{
    let a = alpha as int;
    let d = dst as int;
    let s = src as int;
    assert((d * 255 + s * 0) / 255 == d) by (nonlinear_arith);
    assert((d * 0 + s * 255) / 255 == s) by (nonlinear_arith);
    assert(d <= s ==> d <= (d * (255 - a) + s * a) / 255 <= s) by (nonlinear_arith)
        requires 0 <= a <= 255, 0 <= d, 0 <= s;
    assert(s <= d ==> s <= (d * (255 - a) + s * a) / 255 <= d) by (nonlinear_arith)
        requires 0 <= a <= 255, 0 <= d, 0 <= s;
}

/// Whether `(x, y)` lies inside a `width` by `height` image.
pub open spec fn in_frame(width: u32, height: u32, x: i32, y: i32) -> bool {
    0 <= x < width && 0 <= y < height
}

/// Byte offset of pixel `(x, y)` in a row-major RGBA8 image `width` pixels wide.
pub open spec fn pixel_offset(width: u32, x: i32, y: i32) -> int {
    (y as int * width as int + x as int) * 4
}

/// What `blend_pixel` can address without running off the buffer or past `u32`.
pub open spec fn blend_addressable(len: nat, width: u32, height: u32, x: i32, y: i32) -> bool {
    in_frame(width, height, x, y) ==> pixel_offset(width, x, y) + 3 < len
        && pixel_offset(width, x, y) <= u32::MAX
}

/// `rgba` after blending `color` into pixel `(x, y)`; pixels outside the frame
/// are left alone.
pub open spec fn blended(
    rgba: Seq<u8>,
    width: u32,
    height: u32,
    x: i32,
    y: i32,
    color: Seq<u8>,
    alpha: u8,
) -> Seq<u8> {
    if in_frame(width, height, x, y) {
        let i = pixel_offset(width, x, y);
        rgba.update(i, blend_channel(rgba[i], color[0], alpha)).update(
            i + 1,
            blend_channel(rgba[i + 1], color[1], alpha),
        ).update(i + 2, blend_channel(rgba[i + 2], color[2], alpha)).update(i + 3, 255)
    } else {
        rgba
    }
}

/// Blends `color` into pixel `(x, y)` with opacity `alpha` and makes it opaque.
pub fn blend_pixel(
    rgba: &mut [u8],
    width: u32,
    height: u32,
    x: i32,
    y: i32,
    color: [u8; 3],
    alpha: u8,
)
    requires
        blend_addressable(old(rgba)@.len(), width, height, x, y),
    ensures
        final(rgba)@ == blended(old(rgba)@, width, height, x, y, color@, alpha),
{
    if x < 0 || y < 0 || x as u32 >= width || y as u32 >= height {
        return;
    }
    let ghost off = pixel_offset(width, x, y);
    assert((y as u32) as int * width as int <= u32::MAX) by (nonlinear_arith)
        requires
            (y as int * width as int + x as int) * 4 <= u32::MAX,
            0 <= x,
            0 <= y,
            (y as u32) as int == y as int;
    let row: u32 = (y as u32) * width;
    let idx = ((row + x as u32) * 4) as usize;
    assert(idx == off);
    let a = alpha as u16;
    assert(rgba[idx as int] as u16 * (255 - a) + color[0] as u16 * a <= 65025) by (nonlinear_arith)
        requires a <= 255, rgba[idx as int] <= 255, color[0] <= 255;
    assert(rgba[idx + 1] as u16 * (255 - a) + color[1] as u16 * a <= 65025) by (nonlinear_arith)
        requires a <= 255, rgba[idx + 1] <= 255, color[1] <= 255;
    assert(rgba[idx + 2] as u16 * (255 - a) + color[2] as u16 * a <= 65025) by (nonlinear_arith)
        requires a <= 255, rgba[idx + 2] <= 255, color[2] <= 255;
    rgba[idx] = ((rgba[idx] as u16 * (255 - a) + color[0] as u16 * a) / 255) as u8;
    rgba[idx + 1] = ((rgba[idx + 1] as u16 * (255 - a) + color[1] as u16 * a) / 255) as u8;
    rgba[idx + 2] = ((rgba[idx + 2] as u16 * (255 - a) + color[2] as u16 * a) / 255) as u8;
    rgba[idx + 3] = 255;
    assert(rgba@ =~= blended(old(rgba)@, width, height, x, y, color@, alpha));
}

/// Width units of a text run: four for a space, six for any other character.
pub open spec fn text_units(text: Seq<char>) -> int
    decreases text.len(),
{
    if text.len() == 0 {
        0
    } else {
        text_units(text.drop_last()) + if text.last() == ' ' { 4int } else { 6int }
    }
}

proof fn lemma_text_units_bounds(text: Seq<char>)
    ensures
        4 * text.len() <= text_units(text) <= 6 * text.len(),
    decreases text.len(),
{
    if text.len() > 0 {
        lemma_text_units_bounds(text.drop_last());
    }
}

/// Width in pixels of `text` drawn at `scale`.
pub fn text_pixel_width(text: &str, scale: i32) -> (w: i32)
    requires
        text_units(text@) <= i32::MAX,
        i32::MIN <= text_units(text@) * scale <= i32::MAX,
    ensures
        w == text_units(text@) * scale,
{
    let n = text.unicode_len();
    let mut units: i32 = 0;
    let mut i: usize = 0;
    while i < n
        invariant
            n == text@.len(),
            i <= n,
            units == text_units(text@.subrange(0, i as int)),
            text_units(text@) <= i32::MAX,
        decreases n - i,
    {
        let ghost pre = text@.subrange(0, i + 1);
        assert(pre.drop_last() =~= text@.subrange(0, i as int));
        proof {
            lemma_text_units_bounds(text@.subrange(0, i as int));
            lemma_text_units_prefix(text@, i + 1);
        }
        if text.get_char(i) == ' ' {
            units = units + 4;
        } else {
            units = units + 6;
        }
        i = i + 1;
    }
    assert(text@.subrange(0, n as int) =~= text@);
    units * scale
}

proof fn lemma_text_units_prefix(text: Seq<char>, i: int)
    requires
        0 <= i <= text.len(),
    ensures
        text_units(text.subrange(0, i)) <= text_units(text),
    decreases text.len() - i,
{
    if i < text.len() {
        lemma_text_units_prefix(text, i + 1);
        assert(text.subrange(0, i + 1).drop_last() =~= text.subrange(0, i));
    } else {
        assert(text.subrange(0, i) =~= text);
    }
}


/// Whether bit `col` (0 is leftmost) of glyph row `row` is set.
pub open spec fn glyph_bit(rows: Seq<u8>, row: int, col: int) -> bool {
    (rows[row] >> ((4 - col) as u8)) & 1u8 == 1u8
}

/// Whether pixel `(px, py)` is inked by a glyph whose top-left corner is at
/// `(gx, gy)`, each glyph bit drawn as a `scale` by `scale` square.
pub open spec fn glyph_covers(rows: Seq<u8>, gx: int, gy: int, scale: int, px: int, py: int) -> bool {
    &&& scale > 0
    &&& gx <= px < gx + 5 * scale
    &&& gy <= py < gy + 7 * scale
    &&& glyph_bit(rows, (py - gy) / scale, (px - gx) / scale)
}

/// Pixel `(px, py)` comes before offset `(dx, dy)` of the glyph box in
/// row-major order.
pub open spec fn box_before(gx: int, gy: int, px: int, py: int, dx: int, dy: int) -> bool {
    py - gy < dy || (py - gy == dy && px - gx < dx)
}

/// `buf` with the glyph's inked pixels blended, counting only those before
/// box offset `(dx, dy)`; the whole glyph when `dy` is past the box.
pub open spec fn glyph_drawn_upto(
    buf: Seq<u8>,
    width: u32,
    height: u32,
    rows: Seq<u8>,
    gx: int,
    gy: int,
    scale: int,
    color: Seq<u8>,
    alpha: u8,
    dx: int,
    dy: int,
) -> Seq<u8> {
    Seq::new(
        buf.len(),
        |i: int|
            {
                let p = i / 4;
                let px = p % (width as int);
                let py = p / (width as int);
                if width > 0 && py < height && glyph_covers(rows, gx, gy, scale, px, py)
                    && box_before(gx, gy, px, py, dx, dy) {
                    if i % 4 < 3 {
                        blend_channel(buf[i], color[i % 4], alpha)
                    } else {
                        255u8
                    }
                } else {
                    buf[i]
                }
            },
    )
}

/// `buf` with every pixel the glyph inks blended toward `color`.
pub open spec fn glyph_drawn(
    buf: Seq<u8>,
    width: u32,
    height: u32,
    rows: Seq<u8>,
    gx: int,
    gy: int,
    scale: int,
    color: Seq<u8>,
    alpha: u8,
) -> Seq<u8> {
    glyph_drawn_upto(buf, width, height, rows, gx, gy, scale, color, alpha, 0, 7 * scale)
}

/// Offset `(dx, dy)` of a glyph box at `(gx, gy)`: if its bit is set, the
/// pixel there can be blended (it is off the frame, or its bytes are in the
/// buffer at an offset that fits in `u32`).
pub open spec fn glyph_pixel_ok(
    len: nat,
    width: u32,
    height: u32,
    rows: Seq<u8>,
    gx: int,
    gy: int,
    scale: int,
    dx: int,
    dy: int,
) -> bool {
    glyph_bit(rows, dy / scale, dx / scale) ==> blend_addressable(
        len,
        width,
        height,
        (gx + dx) as i32,
        (gy + dy) as i32,
    )
}

/// Every pixel the glyph inks can be blended.
pub open spec fn glyph_addressable(
    len: nat,
    width: u32,
    height: u32,
    rows: Seq<u8>,
    gx: int,
    gy: int,
    scale: int,
) -> bool {
    forall|dx: int, dy: int|
        0 <= dx < 5 * scale && 0 <= dy < 7 * scale ==> #[trigger] glyph_pixel_ok(
            len,
            width,
            height,
            rows,
            gx,
            gy,
            scale,
            dx,
            dy,
        )
}

/// Character `k` of `text`, drawn from pen position `x` on row `y`, inks only
/// pixels that can be blended.
pub open spec fn text_char_ok(
    len: nat,
    width: u32,
    height: u32,
    text: Seq<char>,
    x: int,
    y: int,
    scale: int,
    k: int,
) -> bool {
    text[k] != ' ' ==> glyph_addressable(
        len,
        width,
        height,
        glyph_rows(upper_char(text[k])),
        x + scale * text_units(text.subrange(0, k)),
        y,
        scale,
    )
}

/// Byte `i` belongs to pixel `(px, py)` exactly when it lies in that pixel's
/// four bytes.
proof fn lemma_byte_of_pixel(i: int, width: int, px: int, py: int)
    requires
        0 <= i,
        width > 0,
        0 <= px < width,
        0 <= py,
    ensures
        ((i / 4) % width == px && (i / 4) / width == py) <==> ((py * width + px) * 4 <= i < (
        py * width + px) * 4 + 4),
        ((py * width + px) * 4 <= i < (py * width + px) * 4 + 4) ==> i % 4 == i - (py * width
            + px) * 4,
{
    let p = i / 4;
    lemma_fundamental_div_mod(i, 4);
    lemma_fundamental_div_mod(p, width);
    let off = (py * width + px) * 4;
    if (py * width + px) * 4 <= i < (py * width + px) * 4 + 4 {
        lemma_fundamental_div_mod_converse(i, 4, py * width + px, i - off);
        lemma_fundamental_div_mod_converse(p, width, py, px);
    }
    if p % width == px && p / width == py {
        assert(p == width * py + px);
        assert(i == 4 * p + i % 4);
        assert(0 <= i % 4 < 4);
        assert((py * width + px) * 4 == 4 * p) by (nonlinear_arith)
            requires
                p == width * py + px,
        ;
    }
}

proof fn lemma_glyph_step(
    buf: Seq<u8>,
    orig: Seq<u8>,
    width: u32,
    height: u32,
    rows: Seq<u8>,
    gx: int,
    gy: int,
    scale: int,
    color: Seq<u8>,
    alpha: u8,
    dx: int,
    dy: int,
)
    requires
        buf == glyph_drawn_upto(orig, width, height, rows, gx, gy, scale, color, alpha, dx, dy),
        scale > 0,
        0 <= dx < 5 * scale,
        0 <= dy < 7 * scale,
        rows.len() == 7,
        color.len() == 3,
        i32::MIN <= gx + dx <= i32::MAX,
        i32::MIN <= gy + dy <= i32::MAX,
        buf.len() == orig.len(),
        glyph_pixel_ok(orig.len(), width, height, rows, gx, gy, scale, dx, dy),
    ensures
        ({
            let next = if glyph_bit(rows, dy / scale, dx / scale) {
                blended(buf, width, height, (gx + dx) as i32, (gy + dy) as i32, color, alpha)
            } else {
                buf
            };
            next == glyph_drawn_upto(orig, width, height, rows, gx, gy, scale, color, alpha, dx + 1, dy)
        }),
{
    let px0 = gx + dx;
    let py0 = gy + dy;
    let next = if glyph_bit(rows, dy / scale, dx / scale) {
        blended(buf, width, height, px0 as i32, py0 as i32, color, alpha)
    } else {
        buf
    };
    let target = glyph_drawn_upto(orig, width, height, rows, gx, gy, scale, color, alpha, dx + 1, dy);
    assert(next.len() == target.len());
    assert forall|i: int| 0 <= i < next.len() implies next[i] == target[i] by {
        let p = i / 4;
        if width > 0 {
            let px = p % (width as int);
            let py = p / (width as int);
            lemma_fundamental_div_mod(p, width as int);
            assert(0 <= px < width);
            assert(p >= 0);
            assert(py >= 0) by {
                vstd::arithmetic::div_mod::lemma_div_pos_is_pos(p, width as int);
            }
            let here = px == px0 && py == py0;
            if in_frame(width, height, px0 as i32, py0 as i32) {
                lemma_byte_of_pixel(i, width as int, px0, py0);
            }
            if !here {
                if glyph_bit(rows, dy / scale, dx / scale) && in_frame(
                    width,
                    height,
                    px0 as i32,
                    py0 as i32,
                ) {
                    assert(next[i] == buf[i]);
                }
            } else {
                assert(glyph_covers(rows, gx, gy, scale, px, py) == glyph_bit(
                    rows,
                    dy / scale,
                    dx / scale,
                ));
                if py < height && glyph_bit(rows, dy / scale, dx / scale) {
                    assert(in_frame(width, height, px0 as i32, py0 as i32));
                }
            }
        }
    }
    assert(next =~= target);
}

/// Draws one glyph with its top-left corner at `(gx, gy)`, each bit a
/// `scale` by `scale` square.
fn draw_glyph(
    rgba: &mut [u8],
    width: u32,
    height: u32,
    rows: &[u8; 7],
    gx: i32,
    gy: i32,
    scale: i32,
    color: [u8; 3],
    alpha: u8,
)
    requires
        glyph_addressable(old(rgba)@.len(), width, height, rows@, gx as int, gy as int, scale as int),
        scale > 0,
        gx + 5 * scale <= i32::MAX + 1,
        gy + 7 * scale <= i32::MAX + 1,
    ensures
        final(rgba)@ == glyph_drawn(old(rgba)@, width, height, rows@, gx as int, gy as int, scale as int, color@, alpha),
{
    let ghost orig = rgba@;
    let s: i64 = scale as i64;
    let bw: i64 = 5 * s;
    let bh: i64 = 7 * s;
    assert(rgba@ =~= glyph_drawn_upto(orig, width, height, rows@, gx as int, gy as int, scale as int, color@, alpha, 0, 0));
    let mut dy: i64 = 0;
    while dy < bh
        invariant
            0 <= dy <= bh,
            s == scale,
            bw == 5 * scale,
            bh == 7 * scale,
            scale > 0,
            gx + 5 * scale <= i32::MAX + 1,
            gy + 7 * scale <= i32::MAX + 1,
            rgba@.len() == orig.len(),
            glyph_addressable(orig.len(), width, height, rows@, gx as int, gy as int, scale as int),
            rgba@ == glyph_drawn_upto(orig, width, height, rows@, gx as int, gy as int, scale as int, color@, alpha, 0, dy as int),
        decreases bh - dy,
    {
        let mut dx: i64 = 0;
        while dx < bw
            invariant
                0 <= dy < bh,
                0 <= dx <= bw,
                s == scale,
                bw == 5 * scale,
                bh == 7 * scale,
                scale > 0,
                gx + 5 * scale <= i32::MAX + 1,
                gy + 7 * scale <= i32::MAX + 1,
                rgba@.len() == orig.len(),
                glyph_addressable(orig.len(), width, height, rows@, gx as int, gy as int, scale as int),
                rgba@ == glyph_drawn_upto(orig, width, height, rows@, gx as int, gy as int, scale as int, color@, alpha, dx as int, dy as int),
            decreases bw - dx,
        {
            let row = dy / s;
            let col = dx / s;
            assert(0 <= row < 7 && 0 <= col < 5) by (nonlinear_arith)
                requires
                    row == dy / s,
                    col == dx / s,
                    0 <= dy < 7 * s,
                    0 <= dx < 5 * s,
                    s > 0,
            ;
            let ghost before = rgba@;
            proof {
                assert(glyph_pixel_ok(orig.len(), width, height, rows@, gx as int, gy as int, scale as int, dx as int, dy as int));
                lemma_glyph_step(before, orig, width, height, rows@, gx as int, gy as int, scale as int, color@, alpha, dx as int, dy as int);
            }
            if (rows[row as usize] >> ((4 - col) as u8)) & 1 == 1 {
                let px = (gx as i64 + dx) as i32;
                let py = (gy as i64 + dy) as i32;
                blend_pixel(rgba, width, height, px, py, color, alpha);
            }
            dx = dx + 1;
        }
        proof {
            assert(glyph_drawn_upto(orig, width, height, rows@, gx as int, gy as int, scale as int, color@, alpha, bw as int, dy as int)
                =~= glyph_drawn_upto(orig, width, height, rows@, gx as int, gy as int, scale as int, color@, alpha, 0, dy + 1));
        }
        dy = dy + 1;
    }
}

/// `buf` with `text` drawn from pen position `x` on baseline row `y`: each
/// character's glyph in turn, the pen advancing four units for a space and six
/// for anything else.
pub open spec fn text_drawn(
    buf: Seq<u8>,
    width: u32,
    height: u32,
    text: Seq<char>,
    x: int,
    y: int,
    scale: int,
    color: Seq<u8>,
    alpha: u8,
) -> Seq<u8>
    decreases text.len(),
{
    if text.len() == 0 {
        buf
    } else {
        let c = text[0];
        let after = if c == ' ' {
            buf
        } else {
            glyph_drawn(buf, width, height, glyph_rows(upper_char(c)), x, y, scale, color, alpha)
        };
        text_drawn(
            after,
            width,
            height,
            text.drop_first(),
            x + scale * (if c == ' ' { 4int } else { 6int }),
            y,
            scale,
            color,
            alpha,
        )
    }
}

/// Whether `text` has a character that is not a space.
pub open spec fn has_ink(text: Seq<char>) -> bool {
    exists|k: int| 0 <= k < text.len() && text[k] != ' '
}

/// What `draw_text` needs: every pixel it inks can be blended, and pen and
/// row positions stay within `i32`.
pub open spec fn text_fits(len: nat, width: u32, height: u32, text: Seq<char>, x: i32, y: i32, scale: i32) -> bool {
    &&& forall|k: int| 0 <= k < text.len() ==> #[trigger] text_char_ok(len, width, height, text, x as int, y as int, scale as int, k)
    &&& has_ink(text) ==> i32::MIN <= 6 * scale <= i32::MAX
    &&& text.contains(' ') ==> i32::MIN <= 4 * scale <= i32::MAX
    &&& i32::MIN <= x + scale * text_units(text) <= i32::MAX
    &&& (has_ink(text) && scale > 0) ==> y + 7 * scale <= i32::MAX + 1
}

/// Draws `text` with its top-left corner at `(x, y)`, each glyph bit a
/// `scale` by `scale` square blended toward `color` with opacity `alpha`.
pub fn draw_text(
    rgba: &mut [u8],
    width: u32,
    height: u32,
    text: &str,
    x: i32,
    y: i32,
    scale: i32,
    color: [u8; 3],
    alpha: u8,
)
    requires
        text_fits(old(rgba)@.len(), width, height, text@, x, y, scale),
    ensures
        final(rgba)@ == text_drawn(old(rgba)@, width, height, text@, x as int, y as int, scale as int, color@, alpha),
{
    let ghost orig = rgba@;
    let ghost t = text@;
    let n = text.unicode_len();
    let mut pen: i32 = x;
    let mut i: usize = 0;
    assert(t.subrange(0, n as int) =~= t);
    assert(t.subrange(0, 0) =~= Seq::<char>::empty());
    while i < n
        invariant
            n == t.len(),
            t == text@,
            i <= n,
            rgba@.len() == orig.len(),
            text_fits(orig.len(), width, height, t, x, y, scale),
            pen == x + scale * text_units(t.subrange(0, i as int)),
            text_drawn(orig, width, height, t, x as int, y as int, scale as int, color@, alpha)
                == text_drawn(rgba@, width, height, t.subrange(i as int, n as int), pen as int, y as int, scale as int, color@, alpha),
        decreases n - i,
    {
        let c = text.get_char(i);
        let ghost rest = t.subrange(i as int, n as int);
        assert(rest[0] == c);
        assert(rest.drop_first() =~= t.subrange(i + 1, n as int));
        let ghost pre = t.subrange(0, i + 1);
        assert(pre.drop_last() =~= t.subrange(0, i as int));
        let ghost units_next = text_units(pre);
        proof {
            lemma_text_units_prefix(t, i + 1);
            lemma_text_units_bounds(pre);
            lemma_text_units_bounds(t.subrange(0, i as int));
            assert(i32::MIN <= x + scale * units_next <= i32::MAX) by (nonlinear_arith)
                requires
                    0 <= units_next <= text_units(t),
                    i32::MIN <= x + scale * text_units(t) <= i32::MAX,
                    i32::MIN <= x <= i32::MAX,
            ;
            if c != ' ' {
                assert(has_ink(t)) by { assert(t[i as int] == c); }
            } else {
                assert(t.contains(' ')) by { assert(t[i as int] == c); }
            }
        }
        let ghost step: int = if c == ' ' { 4int } else { 6int };
        let adv: i32 = if c == ' ' { 4 * scale } else { 6 * scale };
        assert(adv == scale * step);
        assert(pen + adv == x + scale * units_next) by (nonlinear_arith)
            requires
                pen == x + scale * text_units(t.subrange(0, i as int)),
                adv == scale * step,
                units_next == text_units(t.subrange(0, i as int)) + step,
        ;
        if c != ' ' {
            let glyph = glyph_5x7(c);
            if scale > 0 {
                assert(pen + 5 * scale <= i32::MAX + 1);
                assert(text_char_ok(orig.len(), width, height, t, x as int, y as int, scale as int, i as int));
                assert(t[i as int] == c);
                draw_glyph(rgba, width, height, &glyph, pen, y, scale, color, alpha);
            } else {
                proof {
                    assert(glyph_drawn(rgba@, width, height, glyph@, pen as int, y as int, scale as int, color@, alpha) =~= rgba@);
                }
            }
        }
        pen = pen + adv;
        i = i + 1;
    }
}

} // verus!
