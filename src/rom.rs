use vstd::prelude::*;

verus! {

/// Size in bytes of the hexadecimal font table.
pub const FONT_SIZE: usize = 80;

/// Size in bytes of the built-in boot program.
pub const BOOT_SIZE: usize = 133;

/// The sixteen hexadecimal digit glyphs, `0` to `F`, five one-byte rows each.
pub open spec fn font_glyphs() -> Seq<u8> {
    seq![
        0xF0u8, 0x90, 0x90, 0x90, 0xF0,
        0x20, 0x60, 0x20, 0x20, 0x70,
        0xF0, 0x10, 0xF0, 0x80, 0xF0,
        0xF0, 0x10, 0xF0, 0x10, 0xF0,
        0xA0, 0xA0, 0xF0, 0x20, 0x20,
        0xF0, 0x80, 0xF0, 0x10, 0xF0,
        0xF0, 0x80, 0xF0, 0x90, 0xF0,
        0xF0, 0x10, 0x20, 0x40, 0x40,
        0xF0, 0x90, 0xF0, 0x90, 0xF0,
        0xF0, 0x90, 0xF0, 0x10, 0xF0,
        0xF0, 0x90, 0xF0, 0x90, 0x90,
        0xE0, 0x90, 0xE0, 0x90, 0xE0,
        0xF0, 0x80, 0x80, 0x80, 0xF0,
        0xE0, 0x90, 0x90, 0x90, 0xE0,
        0xF0, 0x80, 0xF0, 0x80, 0xF0,
        0xF0, 0x80, 0xF0, 0x80, 0x80,
    ]
}

/// The built-in boot program: it draws a banner and then bounces a dot.
pub open spec fn boot_program() -> Seq<u8> {
    seq![
        0xA2u8, 0x5B, 0x60, 0x0B, 0x61, 0x03, 0x62, 0x07, 0xD0, 0x17, 0x70, 0x07, 0xF2, 0x1E, 0xD0, 0x17,
        0x70, 0x07, 0xF2, 0x1E, 0xD0, 0x17, 0x70, 0x07, 0xF2, 0x1E, 0xD0, 0x17, 0x70, 0x07, 0xF2, 0x1E,
        0xD0, 0x17, 0x70, 0x05, 0xF2, 0x1E, 0xD0, 0x17, 0xF2, 0x1E, 0xA2, 0x5A, 0xC0, 0x3F, 0xC1, 0x1F,
        0x62, 0x01, 0x63, 0x01, 0xD0, 0x11, 0x64, 0x02, 0xF4, 0x15, 0xF4, 0x07, 0x34, 0x00, 0x12, 0x3A,
        0xD0, 0x11, 0x80, 0x24, 0x81, 0x34, 0xD0, 0x11, 0x41, 0x00, 0x63, 0x01, 0x41, 0x1F, 0x63, 0xFF,
        0x40, 0x00, 0x62, 0x01, 0x40, 0x3F, 0x62, 0xFF, 0x12, 0x36, 0x80, 0x78, 0xCC, 0xC0, 0xC0, 0xC0,
        0xCC, 0x78, 0xCC, 0xCC, 0xCC, 0xFC, 0xCC, 0xCC, 0xCC, 0xFC, 0x30, 0x30, 0x30, 0x30, 0x30, 0xFC,
        0xF8, 0xCC, 0xCC, 0xF8, 0xC0, 0xC0, 0xC0, 0x00, 0x00, 0x00, 0xF0, 0x00, 0x00, 0x00, 0x78, 0xCC,
        0xCC, 0x78, 0xCC, 0xCC, 0x78,
    ]
}

/// The hexadecimal font table.
pub fn font() -> (r: [u8; FONT_SIZE])
    ensures
        r@ == font_glyphs(),
{
    let r: [u8; FONT_SIZE] = [
        0xF0u8, 0x90, 0x90, 0x90, 0xF0,
        0x20, 0x60, 0x20, 0x20, 0x70,
        0xF0, 0x10, 0xF0, 0x80, 0xF0,
        0xF0, 0x10, 0xF0, 0x10, 0xF0,
        0xA0, 0xA0, 0xF0, 0x20, 0x20,
        0xF0, 0x80, 0xF0, 0x10, 0xF0,
        0xF0, 0x80, 0xF0, 0x90, 0xF0,
        0xF0, 0x10, 0x20, 0x40, 0x40,
        0xF0, 0x90, 0xF0, 0x90, 0xF0,
        0xF0, 0x90, 0xF0, 0x10, 0xF0,
        0xF0, 0x90, 0xF0, 0x90, 0x90,
        0xE0, 0x90, 0xE0, 0x90, 0xE0,
        0xF0, 0x80, 0x80, 0x80, 0xF0,
        0xE0, 0x90, 0x90, 0x90, 0xE0,
        0xF0, 0x80, 0xF0, 0x80, 0xF0,
        0xF0, 0x80, 0xF0, 0x80, 0x80,
    ];
    assert(r@ =~= font_glyphs());
    r
}

/// The built-in boot program.
pub fn boot() -> (r: [u8; BOOT_SIZE])
    ensures
        r@ == boot_program(),
{
    let r: [u8; BOOT_SIZE] = [
        0xA2u8, 0x5B, 0x60, 0x0B, 0x61, 0x03, 0x62, 0x07, 0xD0, 0x17, 0x70, 0x07, 0xF2, 0x1E, 0xD0, 0x17,
        0x70, 0x07, 0xF2, 0x1E, 0xD0, 0x17, 0x70, 0x07, 0xF2, 0x1E, 0xD0, 0x17, 0x70, 0x07, 0xF2, 0x1E,
        0xD0, 0x17, 0x70, 0x05, 0xF2, 0x1E, 0xD0, 0x17, 0xF2, 0x1E, 0xA2, 0x5A, 0xC0, 0x3F, 0xC1, 0x1F,
        0x62, 0x01, 0x63, 0x01, 0xD0, 0x11, 0x64, 0x02, 0xF4, 0x15, 0xF4, 0x07, 0x34, 0x00, 0x12, 0x3A,
        0xD0, 0x11, 0x80, 0x24, 0x81, 0x34, 0xD0, 0x11, 0x41, 0x00, 0x63, 0x01, 0x41, 0x1F, 0x63, 0xFF,
        0x40, 0x00, 0x62, 0x01, 0x40, 0x3F, 0x62, 0xFF, 0x12, 0x36, 0x80, 0x78, 0xCC, 0xC0, 0xC0, 0xC0,
        0xCC, 0x78, 0xCC, 0xCC, 0xCC, 0xFC, 0xCC, 0xCC, 0xCC, 0xFC, 0x30, 0x30, 0x30, 0x30, 0x30, 0xFC,
        0xF8, 0xCC, 0xCC, 0xF8, 0xC0, 0xC0, 0xC0, 0x00, 0x00, 0x00, 0xF0, 0x00, 0x00, 0x00, 0x78, 0xCC,
        0xCC, 0x78, 0xCC, 0xCC, 0x78,
    ];
    assert(r@ =~= boot_program());
    r
}

} // verus!
