use vstd::prelude::*;

verus! {

/// The byte sent first for a 16-bit value on the wire.
pub open spec fn high_byte(v: u16) -> u8 {
    (v / 256) as u8
}

/// The byte sent second for a 16-bit value on the wire.
pub open spec fn low_byte(v: u16) -> u8 {
    (v % 256) as u8
}

/// RGB565 packing: 5 bits of red, 6 of green, 5 of blue, red highest.
pub open spec fn rgb565(r: u8, g: u8, b: u8) -> u16 {
    ((r / 8) as int * 2048 + (g / 4) as int * 32 + (b / 8) as int) as u16
}

/// Splits a 16-bit value into its big-endian byte pair.
pub fn u16_to_bytes(val: u16) -> (r: (u8, u8))
    ensures
        r.0 == high_byte(val),
        r.1 == low_byte(val),
{
    let h = (val >> 8) as u8;
    let l = (val & 0xff) as u8;
    assert(h == (val / 256) as u8 && l == (val % 256) as u8) by (bit_vector)
        requires
            h == (val >> 8) as u8,
            l == (val & 0xff) as u8,
    ;
    (h, l)
}

/// Combine RGB channels into 565 RGB format - as u16
pub fn rgb_to_u16(r: u8, g: u8, b: u8) -> (c: u16)
    ensures
        c == rgb565(r, g, b),
        c == ((r >> 3) as u16) << 11 | ((g >> 2) as u16) << 5 | (b >> 3) as u16,
{
    let rb = r >> 3;
    let gb = g >> 2;
    let bb = b >> 3;
    let c = (rb as u16) << 11 | (gb as u16) << 5 | bb as u16;
    assert(c == ((r / 8) as u16) * 2048 + ((g / 4) as u16) * 32 + (b / 8) as u16) by (bit_vector)
        requires
            c == ((r >> 3) as u16) << 11 | ((g >> 2) as u16) << 5 | (b >> 3) as u16,
    ;
    c
}

/// Combine RGB channels into 565 RGB format - as a (u8, u8) tuple
pub fn rgb_to_u8(r: u8, g: u8, b: u8) -> (p: (u8, u8))
    ensures
        p == (high_byte(rgb565(r, g, b)), low_byte(rgb565(r, g, b))),
{
    u16_to_bytes(rgb_to_u16(r, g, b))
}

/// Create a single colored buffer of N/2 pixel length
pub fn color_buffer<const N: usize>(color: u16) -> (buf: [u8; N])
    ensures
        forall|i: int|
            0 <= i < N ==> buf[i] == if i % 2 == 0 {
                high_byte(color)
            } else {
                low_byte(color)
            },
{
    let (h, l) = u16_to_bytes(color);
    let mut buf = [0u8; N];
    for i in 0..N
        invariant
            forall|j: int|
                0 <= j < i ==> buf[j] == if j % 2 == 0 {
                    h
                } else {
                    l
                },
    {
        buf[i] = if i % 2 == 0 {
            h
        } else {
            l
        };
    }
    buf
}

/// Packing to RGB565 and then splitting into bytes is the same as packing
/// straight to bytes, and the two bytes put back together give the packed
/// color again.
pub proof fn rgb_bytes_round_trip(r: u8, g: u8, b: u8)
    ensures
        high_byte(rgb565(r, g, b)) as int * 256 + low_byte(rgb565(r, g, b)) as int == rgb565(
            r,
            g,
            b,
        ) as int,
        rgb565(r, g, b) as int == (r / 8) as int * 2048 + (g / 4) as int * 32 + (b / 8) as int,
{
}

} // verus!
