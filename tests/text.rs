use lcd_2inch4::{Lcd, LcdError, Op};

/// A font of two glyphs: ' ' blank and '!' with a few bits set.
fn font() -> Vec<u8> {
    let mut f = vec![0u8; 8];
    f.extend([0b1000_0001, 0b0100_0000, 0, 0, 0, 0, 0, 0xFF]);
    f
}

/// Runs the queued operation, returning each transmitted payload with
/// whether the data line was high.
fn run(lcd: &mut Lcd) -> (Result<(), LcdError>, Vec<(bool, Vec<u8>)>) {
    let mut data = false;
    let mut out = Vec::new();
    loop {
        match lcd.pending() {
            None => return (Ok(()), out),
            Some(Op::Select(d)) => data = *d,
            Some(Op::Transmit(b)) => out.push((data, b.clone())),
            Some(_) => {}
        }
        if let Some(r) = lcd.report(true) {
            return (r, out);
        }
    }
}

fn pixel_bytes(pixels: &[bool], fg: u16, bg: u16) -> Vec<u8> {
    let mut v = Vec::new();
    for p in pixels {
        let c = if *p { fg } else { bg };
        v.push((c >> 8) as u8);
        v.push(c as u8);
    }
    v
}

#[test]
fn draw_text_scale_one() {
    let mut lcd = Lcd::new();
    lcd.draw_text(3, 4, "!", &font(), 0xF800, 0x001F, 1);
    let (r, out) = run(&mut lcd);
    assert_eq!(r, Ok(()));
    assert_eq!(out[0], (false, vec![0x2A]));
    assert_eq!(out[1], (true, vec![0, 3, 0, 10]));
    assert_eq!(out[3], (true, vec![0, 4, 0, 11]));
    assert_eq!(out[4], (false, vec![0x2C]));
    let rows = &out[5..];
    assert_eq!(rows.len(), 8);
    let mut first = [false; 8];
    first[0] = true;
    first[7] = true;
    assert_eq!(rows[0], (true, pixel_bytes(&first, 0xF800, 0x001F)));
    let mut second = [false; 8];
    second[1] = true;
    assert_eq!(rows[1], (true, pixel_bytes(&second, 0xF800, 0x001F)));
    assert_eq!(rows[2], (true, pixel_bytes(&[false; 8], 0xF800, 0x001F)));
    assert_eq!(rows[7], (true, pixel_bytes(&[true; 8], 0xF800, 0x001F)));
}

#[test]
fn draw_text_scale_two_advances_cursor() {
    let mut lcd = Lcd::new();
    lcd.draw_text(0, 0, " !", &font(), 0xFFFF, 0x0000, 2);
    let (r, out) = run(&mut lcd);
    assert_eq!(r, Ok(()));
    // Each character: a window of five transmits, then 8 rows * 2 repeats * 2 chunks.
    assert_eq!(out.len(), 2 * (5 + 32));
    assert_eq!(out[1], (true, vec![0, 0, 0, 15]));
    assert_eq!(out[3], (true, vec![0, 0, 0, 15]));
    for chunk in &out[5..37] {
        assert_eq!(chunk, &(true, vec![0; 16]));
    }
    let second = &out[37..];
    assert_eq!(second[1], (true, vec![0, 16, 0, 31]));
    let glyph = &second[5..];
    // Row 0 = 0b1000_0001: left chunk starts with two lit pixels, right chunk ends with two.
    let mut left = [false; 8];
    left[0] = true;
    left[1] = true;
    let mut right = [false; 8];
    right[6] = true;
    right[7] = true;
    for rep in 0..2 {
        assert_eq!(glyph[rep * 2], (true, pixel_bytes(&left, 0xFFFF, 0)));
        assert_eq!(glyph[rep * 2 + 1], (true, pixel_bytes(&right, 0xFFFF, 0)));
    }
    // Row 1 = 0b0100_0000: pixels 2 and 3 of the left chunk.
    let mut left1 = [false; 8];
    left1[2] = true;
    left1[3] = true;
    assert_eq!(glyph[4], (true, pixel_bytes(&left1, 0xFFFF, 0)));
    assert_eq!(glyph[5], (true, pixel_bytes(&[false; 8], 0xFFFF, 0)));
}

#[test]
fn draw_text_scale_eight_chunk_count() {
    let mut lcd = Lcd::new();
    lcd.draw_text(0, 0, "!", &font(), 1, 2, 8);
    let (r, out) = run(&mut lcd);
    assert_eq!(r, Ok(()));
    assert_eq!(out.len(), 5 + 8 * 8 * 8);
    // Row 0, first chunk: bit 7 set, so all eight pixels in the foreground.
    assert_eq!(out[5], (true, pixel_bytes(&[true; 8], 1, 2)));
    // Row 0, second chunk: bit 6 clear.
    assert_eq!(out[6], (true, pixel_bytes(&[false; 8], 1, 2)));
}

#[test]
fn draw_empty_text_sends_nothing() {
    let mut lcd = Lcd::new();
    lcd.draw_text(0, 0, "", &font(), 1, 2, 1);
    assert!(lcd.pending().is_none());
    let (r, out) = run(&mut lcd);
    assert_eq!(r, Ok(()));
    assert!(out.is_empty());
}
