//! Character ramps for brightness-indexed rendering.
//!
//! A ramp runs from the character that covers the least of its cell to the
//! one that covers the most, so that a position in the ramp stands for a
//! brightness. There is one master ramp; the narrower sets are the
//! characters of one class in it, in its order.

use vstd::prelude::*;

verus! {

/// Printable ASCII characters from the sparsest to the densest.
pub const ASCII_RAMP: &'static str =
    " `.-':_,^=;><+!rc*/z?sLTv)J7(|Fi{C}fI31tlu[neoZ5Yxjya]2ESwqkP6h9d4VpOGbUAKXHm8RD#$Bg0MNWQ%&@";

/// Whether the character is a letter of the Latin alphabet.
pub open spec fn is_letter(c: char) -> bool {
    ('a' <= c && c <= 'z') || ('A' <= c && c <= 'Z')
}

/// Whether the character is a decimal digit.
pub open spec fn is_digit(c: char) -> bool {
    '0' <= c && c <= '9'
}

/// The master ramp holds 92 characters; it starts with the space and holds
/// characters of every class.
pub proof fn lemma_ascii_ramp()
    ensures
        ASCII_RAMP@.len() == 92,
        ASCII_RAMP@[0] == ' ',
        ASCII_RAMP@[1] == '`',
        ASCII_RAMP@[15] == 'r',
        ASCII_RAMP@[27] == '7',
        ASCII_RAMP@[91] == '@',
{
    reveal_strlit(
        " `.-':_,^=;><+!rc*/z?sLTv)J7(|Fi{C}fI31tlu[neoZ5Yxjya]2ESwqkP6h9d4VpOGbUAKXHm8RD#$Bg0MNWQ%&@",
    );
}

} // verus!
