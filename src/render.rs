//! Text form of decoded instructions.
use crate::instruction::{Instruction, Operand};
use crate::tables::{
    base_expression,
    effective_address,
    get_register,
    is_direct_address,
    register_name,
};
use vstd::prelude::*;
use vstd::string::StringExecFns;

verus! {

/// The decimal digit `d` (below 10) as text.
pub open spec fn digit_text(d: nat) -> Seq<char> {
    if d == 0 {
        "0"@
    } else if d == 1 {
        "1"@
    } else if d == 2 {
        "2"@
    } else if d == 3 {
        "3"@
    } else if d == 4 {
        "4"@
    } else if d == 5 {
        "5"@
    } else if d == 6 {
        "6"@
    } else if d == 7 {
        "7"@
    } else if d == 8 {
        "8"@
    } else {
        "9"@
    }
}

/// `n` in decimal, without leading zeros.
pub open spec fn decimal(n: nat) -> Seq<char>
    decreases n,
{
    if n < 10 {
        digit_text(n)
    } else {
        decimal(n / 10) + digit_text(n % 10)
    }
}

/// How an operand is written.
pub open spec fn operand_text(o: Operand) -> Seq<char> {
    match o {
        Operand::Register { sel, w } => register_name(sel, w),
        Operand::Memory { mode, rm, disp } => if is_direct_address(mode, rm) {
            "["@ + decimal(disp as nat) + "]"@
        } else if mode == 0 {
            "["@ + base_expression(rm) + "]"@
        } else {
            "["@ + base_expression(rm) + " + "@ + decimal(disp as nat) + "]"@
        },
        Operand::Immediate { value } => decimal(value as nat),
    }
}

/// How an instruction is written: one line, led by a line break.
pub open spec fn instruction_text(i: Instruction) -> Seq<char> {
    "\nmov "@ + operand_text(i.dest) + ", "@ + operand_text(i.src)
}

fn digit_str(d: u16) -> (r: &'static str)
    requires
        d < 10,
    ensures
        r@ == digit_text(d as nat),
{
    match d {
        0 => "0",
        1 => "1",
        2 => "2",
        3 => "3",
        4 => "4",
        5 => "5",
        6 => "6",
        7 => "7",
        8 => "8",
        _ => "9",
    }
}

/// Appends `n` in decimal.
pub fn push_decimal(out: &mut String, n: u16)
    ensures
        final(out)@ == old(out)@ + decimal(n as nat),
    decreases n,
{
    if n < 10 {
        out.append(digit_str(n));
    } else {
        push_decimal(out, n / 10);
        out.append(digit_str(n % 10));
        assert(final(out)@ == old(out)@ + decimal(n as nat));
    }
}

/// Appends the text of an operand.
pub fn push_operand(out: &mut String, o: &Operand)
    requires
        o.wf(),
    ensures
        final(out)@ == old(out)@ + operand_text(*o),
{
    match *o {
        Operand::Register { sel, w } => {
            out.append(get_register(sel, w));
        },
        Operand::Memory { mode, rm, disp } => {
            out.append("[");
            if mode == 0 && rm == 0b110 {
                push_decimal(out, disp);
            } else {
                out.append(effective_address(mode, rm));
                if mode != 0 {
                    out.append(" + ");
                    push_decimal(out, disp);
                }
            }
            out.append("]");
        },
        Operand::Immediate { value } => {
            push_decimal(out, value);
        },
    }
}

/// Appends the line of an instruction.
pub fn push_instruction(out: &mut String, i: &Instruction)
    requires
        i.wf(),
    ensures
        final(out)@ == old(out)@ + instruction_text(*i),
{
    out.append("\nmov ");
    push_operand(out, &i.dest);
    out.append(", ");
    push_operand(out, &i.src);
}

} // verus!
