//! Register names and effective-address expressions of the 8086 encoding.
use vstd::prelude::*;

verus! {

/// Name of the 8-bit register that selector `sel` picks.
pub open spec fn byte_register(sel: u8) -> Seq<char> {
    if sel == 0 {
        "al"@
    } else if sel == 1 {
        "cl"@
    } else if sel == 2 {
        "dl"@
    } else if sel == 3 {
        "bl"@
    } else if sel == 4 {
        "ah"@
    } else if sel == 5 {
        "ch"@
    } else if sel == 6 {
        "dh"@
    } else {
        "bh"@
    }
}

/// Name of the 16-bit register that selector `sel` picks.
pub open spec fn word_register(sel: u8) -> Seq<char> {
    if sel == 0 {
        "ax"@
    } else if sel == 1 {
        "cx"@
    } else if sel == 2 {
        "dx"@
    } else if sel == 3 {
        "bx"@
    } else if sel == 4 {
        "sp"@
    } else if sel == 5 {
        "bp"@
    } else if sel == 6 {
        "si"@
    } else {
        "di"@
    }
}

/// Name of the register picked by a 3-bit selector and the width flag.
pub open spec fn register_name(sel: u8, w: u8) -> Seq<char> {
    if w == 0 {
        byte_register(sel)
    } else {
        word_register(sel)
    }
}

/// Base-register expression of a memory operand, by its `rm` field.
pub open spec fn base_expression(rm: u8) -> Seq<char> {
    if rm == 0 {
        "bx + si"@
    } else if rm == 1 {
        "bx + di"@
    } else if rm == 2 {
        "bp + si"@
    } else if rm == 3 {
        "bp + di"@
    } else if rm == 4 {
        "si"@
    } else if rm == 5 {
        "di"@
    } else if rm == 6 {
        "bp"@
    } else {
        "bx"@
    }
}

/// `mode = 00, rm = 110`: a direct address rather than a base expression.
pub open spec fn is_direct_address(mode: u8, rm: u8) -> bool {
    mode == 0 && rm == 6
}

/// The sixteen (selector, width) pairs name sixteen different two-letter
/// registers: no two pairs share a name.
pub proof fn lemma_register_names_distinct(s1: u8, w1: u8, s2: u8, w2: u8)
    requires
        s1 < 8,
        w1 < 2,
        s2 < 8,
        w2 < 2,
    ensures
        register_name(s1, w1).len() == 2,
        register_name(s1, w1) == register_name(s2, w2) ==> s1 == s2 && w1 == w2,
{
    reveal_strlit("al");
    reveal_strlit("cl");
    reveal_strlit("dl");
    reveal_strlit("bl");
    reveal_strlit("ah");
    reveal_strlit("ch");
    reveal_strlit("dh");
    reveal_strlit("bh");
    reveal_strlit("ax");
    reveal_strlit("cx");
    reveal_strlit("dx");
    reveal_strlit("bx");
    reveal_strlit("sp");
    reveal_strlit("bp");
    reveal_strlit("si");
    reveal_strlit("di");
    let a = register_name(s1, w1);
    let b = register_name(s2, w2);
    if a == b {
        assert(a[0] == b[0] && a[1] == b[1]);
    }
}

/// The register mnemonic for selector `rm` at width `w`.
pub fn get_register(rm: u8, w: u8) -> (r: &'static str)
    requires
        rm < 8,
        w < 2,
    ensures
        r@ == register_name(rm, w),
{
    let key: u8 = (rm << 1) | w;
    assert(key == 2 * rm + w) by (bit_vector)
        requires
            key == (rm << 1) | w,
            rm < 8,
            w < 2,
    ;
    match key {
        0b0000 => "al",
        0b0001 => "ax",
        0b0010 => "cl",
        0b0011 => "cx",
        0b0100 => "dl",
        0b0101 => "dx",
        0b0110 => "bl",
        0b0111 => "bx",
        0b1000 => "ah",
        0b1001 => "sp",
        0b1010 => "ch",
        0b1011 => "bp",
        0b1100 => "dh",
        0b1101 => "si",
        0b1110 => "bh",
        0b1111 => "di",
        _ => unreached(),
    }
}

/// The base expression of a memory operand in mode `mode` (00, 01 or 10).
/// The direct-address form has none and is handled by callers.
pub fn effective_address(mode: u8, rm: u8) -> (r: &'static str)
    requires
        mode < 3,
        rm < 8,
        !is_direct_address(mode, rm),
    ensures
        r@ == base_expression(rm),
{
    let key: u8 = (mode << 3) | rm;
    assert(key == 8 * mode + rm) by (bit_vector)
        requires
            key == (mode << 3) | rm,
            mode < 3,
            rm < 8,
    ;
    match key {
        0b00000 => "bx + si",
        0b00001 => "bx + di",
        0b00010 => "bp + si",
        0b00011 => "bp + di",
        0b00100 => "si",
        0b00101 => "di",
        0b00111 => "bx",
        0b01000 => "bx + si",
        0b01001 => "bx + di",
        0b01010 => "bp + si",
        0b01011 => "bp + di",
        0b01100 => "si",
        0b01101 => "di",
        0b01110 => "bp",
        0b01111 => "bx",
        0b10000 => "bx + si",
        0b10001 => "bx + di",
        0b10010 => "bp + si",
        0b10011 => "bp + di",
        0b10100 => "si",
        0b10101 => "di",
        0b10110 => "bp",
        0b10111 => "bx",
        _ => unreached(),
    }
}

} // verus!
