use vstd::prelude::*;

verus! {

/// Packs three colour channels into a 15-bit BGR colour word: red in bits 0-4,
/// green in bits 5-9, blue in bits 10-14. Channel bits that do not fit in 16 bits
/// are dropped.
pub fn rgb5(r: u8, g: u8, b: u8) -> (c: u16)
    ensures
        c == (r as u16) | ((g as u16) << 5u16) | ((b as u16) << 10u16),
        r < 32 && g < 32 && b < 32 ==> c == r + 32 * g + 1024 * b,
{
    let (r, g, b) = (r as u16, g as u16, b as u16);
    assert(r < 32 && g < 32 && b < 32 ==> r | (g << 5u16) | (b << 10u16) == r + 32 * g + 1024 * b)
        by (bit_vector);
    r | (g << 5u16) | (b << 10u16)
}

} // verus!
