use vstd::prelude::*;

verus! {

/// The input mode shown by the indicator.
#[derive(Debug, Clone, Copy, PartialEq, Eq, Structural)]
pub enum ImeMode {
    /// IME off: direct input, shown as "A".
    Alpha,
    /// IME on in the native (hiragana) conversion mode, shown as "あ".
    Hiragana,
    /// IME on in any other conversion mode (katakana, full-width alphanumerics, ...), shown as "カ".
    Other,
}

/// `IME_CMODE_NATIVE`, the bit of an IMM conversion-mode word that selects native (kana) input.
pub const IME_CMODE_NATIVE: u32 = 0x0001;

/// The mode that an open/closed status and a conversion-mode word describe.
pub open spec fn spec_mode_from_status(open: bool, conversion: u32) -> ImeMode {
    if !open {
        ImeMode::Alpha
    } else if conversion & IME_CMODE_NATIVE != 0 {
        ImeMode::Hiragana
    } else {
        ImeMode::Other
    }
}

/// Classifies what `ImmGetOpenStatus` and `ImmGetConversionStatus` report for the
/// foreground input context: closed is `Alpha`, open with the native bit is
/// `Hiragana`, open without it is `Other`.
pub fn mode_from_status(open: bool, conversion: u32) -> (mode: ImeMode)
    ensures
        mode == spec_mode_from_status(open, conversion),
        (mode == ImeMode::Alpha) <==> !open,
        open ==> ((mode == ImeMode::Hiragana) <==> conversion % 2 == 1),
{
    proof {
        lemma_native_bit_decides(open, conversion);
    }
    if !open {
        ImeMode::Alpha
    } else if conversion & IME_CMODE_NATIVE != 0 {
        ImeMode::Hiragana
    } else {
        ImeMode::Other
    }
}

/// The UTF-16 code unit that the indicator draws for a mode.
pub open spec fn spec_glyph(mode: ImeMode) -> u16 {
    match mode {
        ImeMode::Alpha => 0x0041u16,
        ImeMode::Hiragana => 0x3042u16,
        ImeMode::Other => 0x30ABu16,
    }
}

/// An open IME is in hiragana exactly when the lowest bit of its conversion word (the
/// native-input bit) is set, whatever the other bits are, and otherwise in the other
/// mode; a closed IME is in direct input whatever the word.
pub proof fn lemma_native_bit_decides(open: bool, conversion: u32)
    ensures
        open ==> ((spec_mode_from_status(open, conversion) == ImeMode::Hiragana) <==> conversion % 2
            == 1),
        open ==> ((spec_mode_from_status(open, conversion) == ImeMode::Other) <==> conversion % 2
            == 0),
        !open ==> spec_mode_from_status(open, conversion) == ImeMode::Alpha,
{
    assert(conversion & 1u32 == conversion % 2) by (bit_vector);
}

/// The glyph drawn for a mode: 'A' (U+0041), 'あ' (U+3042) or 'カ' (U+30AB).
pub fn glyph(mode: ImeMode) -> (unit: u16)
    ensures
        unit == spec_glyph(mode),
{
    match mode {
        ImeMode::Alpha => 0x0041u16,
        ImeMode::Hiragana => 0x3042u16,
        ImeMode::Other => 0x30ABu16,
    }
}

/// Distinct modes are drawn with distinct glyphs.
pub proof fn lemma_glyph_injective(a: ImeMode, b: ImeMode)
    ensures
        spec_glyph(a) == spec_glyph(b) <==> a == b,
{
}

} // verus!
