use vstd::prelude::*;
use vstd::string::StringSliceAdditionalSpecFns;

use crate::device::{signals, window_signals, Lcd, Signal};
use crate::utils::{high_byte, low_byte, u16_to_bytes};

verus! {

/// First character code held by a font table.
pub const CHAR_START: u8 = 0x20;

/// The scales at which glyph bits split evenly into transmit chunks.
pub open spec fn valid_scale(scale: u16) -> bool {
    scale == 1 || scale == 2 || scale == 4 || scale == 8
}

/// Whether bit `i` of a glyph row is set.
pub open spec fn bit_set(row: u8, i: u8) -> bool {
    (row >> i) & 1 == 1
}

/// Byte `q` of a run of pixels of one color, high byte first.
pub open spec fn color_byte(color: u16, q: int) -> u8 {
    if q % 2 == 0 {
        high_byte(color)
    } else {
        low_byte(color)
    }
}

/// Whether output column `col` of glyph row `row` is in the foreground: the
/// leftmost columns come from the most significant bit.
pub open spec fn glyph_pixel(glyph: Seq<u8>, row: int, col: int, scale: u16) -> bool {
    bit_set(glyph[row], (7 - col / scale as int) as u8)
}

/// The `n`-th 16-byte transmit of a scaled glyph. Each output row of
/// `8 * scale` pixels goes out in `scale` chunks; each glyph row is repeated
/// `scale` times.
pub open spec fn glyph_chunk(glyph: Seq<u8>, n: int, scale: u16, fg: u16, bg: u16) -> Seq<u8> {
    Seq::new(
        16,
        |q: int|
            color_byte(
                if glyph_pixel(
                    glyph,
                    n / (scale as int * scale as int),
                    8 * (n % scale as int) + q / 2,
                    scale,
                ) {
                    fg
                } else {
                    bg
                },
                q,
            ),
    )
}

/// A window of `8 * scale` square, then the glyph's pixel stream.
pub open spec fn character_signals(
    x: u16,
    y: u16,
    glyph: Seq<u8>,
    fg: u16,
    bg: u16,
    scale: u16,
) -> Seq<Signal> {
    window_signals(x, y, (x + 8 * scale) as u16, (y + 8 * scale) as u16) + seq![
        Signal::Select(true),
    ] + Seq::new(
        (8 * scale * scale) as nat,
        |n: int| Signal::Transmit(glyph_chunk(glyph, n, scale, fg, bg)),
    )
}

/// The eight rows of the glyph for character code `c` in a font table.
pub open spec fn glyph_of(font: Seq<u8>, c: u8) -> Seq<u8> {
    font.subrange(8 * (c - CHAR_START), 8 * (c - CHAR_START) + 8)
}

/// Whether every byte of `text` has a glyph in `font`.
pub open spec fn covered_by(text: Seq<u8>, font: Seq<u8>) -> bool {
    forall|i: int|
        0 <= i < text.len() ==> CHAR_START <= #[trigger] text[i] && 8 * (text[i] - CHAR_START) + 8
            <= font.len()
}

/// The characters of `text` side by side from `x`, each `8 * scale` wide.
pub open spec fn text_signals(
    x: u16,
    y: u16,
    text: Seq<u8>,
    font: Seq<u8>,
    fg: u16,
    bg: u16,
    scale: u16,
) -> Seq<Signal>
    decreases text.len(),
{
    if text.len() == 0 {
        Seq::empty()
    } else {
        text_signals(x, y, text.drop_last(), font, fg, bg, scale) + character_signals(
            (x + (text.len() - 1) * 8 * scale) as u16,
            y,
            glyph_of(font, text.last()),
            fg,
            bg,
            scale,
        )
    }
}

impl Lcd {
    /// Draws `text` with its top left corner at (x, y), one byte per
    /// character, looking each glyph up in `font`: eight row bytes per
    /// character, starting at code 0x20.
    pub fn draw_text(
        &mut self,
        x: u16,
        y: u16,
        text: &str,
        font: &[u8],
        fg_color: u16,
        bg_color: u16,
        scale: u16,
    )
        requires
            valid_scale(scale),
            covered_by(text.spec_bytes(), font@),
            x + text.spec_bytes().len() * 8 * scale <= u16::MAX,
            y + 8 * scale <= u16::MAX,
        ensures
            final(self).wf(),
            final(self).orientation_spec() == old(self).orientation_spec(),
            final(self).queued() == text_signals(
                x,
                y,
                text.spec_bytes(),
                font@,
                fg_color,
                bg_color,
                scale,
            ),
    {
        proof {
            old(self).lemma_fresh();
        }
        self.start();
        let bytes = text.as_bytes();
        let mut cx: u16 = x;
        for i in 0..bytes.len()
            invariant
                bytes@ == text.spec_bytes(),
                valid_scale(scale),
                covered_by(bytes@, font@),
                x + bytes@.len() * 8 * scale <= u16::MAX,
                y + 8 * scale <= u16::MAX,
                cx == x + i * 8 * scale,
                self.next == 0,
                self.orientation == old(self).orientation,
                self.log() == text_signals(x, y, bytes@.take(i as int), font@, fg_color, bg_color, scale),
        {
            let c = bytes[i];
            assert(CHAR_START <= bytes@[i as int]);
            let offset: usize = 8 * (c - CHAR_START) as usize;
            let mut data = [0u8; 8];
            for k in 0..8
                invariant
                    offset + 8 <= font.len(),
                    forall|j: int| 0 <= j < k ==> data[j] == font@[offset + j],
            {
                data[k] = font[offset + k];
            }
            assert(data@ =~= glyph_of(font@, c));
            assert(cx + 8 * scale <= u16::MAX) by (nonlinear_arith)
                requires
                    cx == x + i * 8 * scale,
                    x + bytes@.len() * 8 * scale <= u16::MAX,
                    i + 1 <= bytes@.len(),
            ;
            self.draw_character(cx, y, &data, fg_color, bg_color, scale);
            assert(bytes@.take(i + 1).drop_last() =~= bytes@.take(i as int));
            assert(self.log() =~= text_signals(x, y, bytes@.take(i + 1), font@, fg_color, bg_color, scale));
            cx = cx + scale * 8;
        }
        assert(bytes@.take(bytes.len() as int) =~= bytes@);
        proof {
            self.lemma_fresh();
        }
    }

    fn draw_character(
        &mut self,
        x: u16,
        y: u16,
        data: &[u8; 8],
        fg_color: u16,
        bg_color: u16,
        scale: u16,
    )
        requires
            valid_scale(scale),
            x + 8 * scale <= u16::MAX,
            y + 8 * scale <= u16::MAX,
        ensures
            final(self).next == old(self).next,
            final(self).log() == old(self).log() + character_signals(
                x,
                y,
                data@,
                fg_color,
                bg_color,
                scale,
            ),
            final(self).orientation == old(self).orientation,
    {
        let ghost l = self.log();
        self.set_window(x, y, x + scale * 8, y + scale * 8);

        let (fgh, fgl) = u16_to_bytes(fg_color);
        let (bgh, bgl) = u16_to_bytes(bg_color);
        self.enable_write_data();
        let ghost base = self.log();

        let per_row: u16 = scale * scale;
        let total: u16 = 8 * per_row;
        for n in 0..total
            invariant
                valid_scale(scale),
                per_row == scale * scale,
                total == 8 * per_row,
                fgh == high_byte(fg_color) && fgl == low_byte(fg_color),
                bgh == high_byte(bg_color) && bgl == low_byte(bg_color),
                self.next == old(self).next,
                self.orientation == old(self).orientation,
                self.log() == base + Seq::new(
                    n as nat,
                    |m: int| Signal::Transmit(glyph_chunk(data@, m, scale, fg_color, bg_color)),
                ),
        {
            let row = n / per_row;
            let part = n % scale;
            assert(row < 8 && part < scale) by (nonlinear_arith)
                requires
                    n < 8 * per_row,
                    per_row > 0,
                    scale > 0,
                    row == n / per_row,
                    part == n % scale,
            ;
            let mut buffer = [0u8; 16];
            for q in 0..16
                invariant
                    valid_scale(scale),
                    row < 8,
                    part < scale,
                    row == n / per_row,
                    part == n % scale,
                    per_row == scale * scale,
                    fgh == high_byte(fg_color) && fgl == low_byte(fg_color),
                    bgh == high_byte(bg_color) && bgl == low_byte(bg_color),
                    forall|j: int|
                        0 <= j < q ==> buffer[j] == glyph_chunk(
                            data@,
                            n as int,
                            scale,
                            fg_color,
                            bg_color,
                        )[j],
            {
                let col: u16 = 8 * part + (q as u16) / 2;
                assert(col / scale < 8) by (nonlinear_arith)
                    requires
                        col == 8 * part + (q as u16) / 2,
                        q < 16,
                        part < scale,
                        scale > 0,
                ;
                let bit: u8 = (7 - col / scale) as u8;
                let on = (data[row as usize] >> bit) & 1 == 1;
                buffer[q] = if q % 2 == 0 {
                    if on { fgh } else { bgh }
                } else {
                    if on { fgl } else { bgl }
                };
            }
            self.write_data_continue(&buffer);
            assert(buffer@ =~= glyph_chunk(data@, n as int, scale, fg_color, bg_color));
            assert(self.log() =~= base + Seq::new(
                (n + 1) as nat,
                |m: int| Signal::Transmit(glyph_chunk(data@, m, scale, fg_color, bg_color)),
            ));
        }
        assert(self.log() =~= l + character_signals(x, y, data@, fg_color, bg_color, scale));
    }
}

} // verus!
