//! The whole decode pass: header line, then one line per instruction.
use crate::cursor::{le16, ByteCursor, DecodeError};
use crate::instruction::{
    decode_at,
    decode_next,
    lemma_decode_advances,
    is_imm_rm_mov,
    is_reg_mem_mov,
    mode_field,
    rm_field,
    Instruction,
    Operand,
};
use crate::render::{decimal, instruction_text, operand_text, push_instruction};
use crate::tables::base_expression;
use vstd::prelude::*;
use vstd::string::StringExecFns;

verus! {

/// The text one decode step adds: nothing for a skipped byte.
pub open spec fn line_of(i: Option<Instruction>) -> Seq<char> {
    match i {
        Some(i) => instruction_text(i),
        None => Seq::empty(),
    }
}

/// The instruction lines of `bytes` from position `p` on; `None` when the
/// bytes run out inside an instruction.
pub open spec fn listing_from(bytes: Seq<u8>, p: int) -> Option<Seq<char>>
    decreases bytes.len() - p,
{
    if p < 0 || p >= bytes.len() {
        Some(Seq::empty())
    } else {
        match decode_at(bytes, p) {
            None => None,
            Some((i, q)) => if p < q {
                match listing_from(bytes, q) {
                    None => None,
                    Some(rest) => Some(line_of(i) + rest),
                }
            } else {
                None
            },
        }
    }
}

/// The full output for `bytes`: the header, then the instruction lines.
pub open spec fn listing(bytes: Seq<u8>) -> Option<Seq<char>> {
    match listing_from(bytes, 0) {
        Some(lines) => Some("bits 16\n"@ + lines),
        None => None,
    }
}

/// `r` is the outcome that `listing` gives for `bytes`.
pub open spec fn is_listing_of(bytes: Seq<u8>, r: Result<String, DecodeError>) -> bool {
    match r {
        Ok(s) => listing(bytes) == Some(s@),
        Err(e) => e == DecodeError::EndOfStream && listing(bytes) is None,
    }
}

/// Decodes a whole byte stream into its assembly text.
pub fn process_bytes(bytes: Vec<u8>) -> (r: Result<String, DecodeError>)
    ensures
        is_listing_of(bytes@, r),
        bytes@.len() == 0 ==> (r matches Ok(s) && s@ == "bits 16\n"@),
{
    let ghost all = bytes@;
    let mut cursor = ByteCursor::new(bytes);
    let mut output = String::from_str("bits 16\n");
    let ghost mut lines: Seq<char> = Seq::empty();
    while !cursor.at_end()
        invariant
            cursor.wf(),
            all == bytes@,
            cursor.data() == all,
            output@ == "bits 16\n"@ + lines,
            listing_from(all, 0) == match listing_from(all, cursor.pos()) {
                Some(rest) => Some(lines + rest),
                None => None::<Seq<char>>,
            },
        decreases all.len() - cursor.pos(),
    {
        let ghost p = cursor.pos();
        proof {
            lemma_decode_advances(all, p);
        }
        let step = decode_next(&mut cursor);
        match step {
            Ok(Some(i)) => {
                push_instruction(&mut output, &i);
                proof {
                    assert(lines + (instruction_text(i) + listing_from(all, cursor.pos())->0)
                        =~= lines + instruction_text(i) + listing_from(all, cursor.pos())->0);
                    lines = lines + instruction_text(i);
                    assert(output@ =~= "bits 16\n"@ + lines);
                }
            },
            Ok(None) => {
                assert(line_of(None) + listing_from(all, cursor.pos())->0 =~= listing_from(
                    all,
                    cursor.pos(),
                )->0);
            },
            Err(e) => {
                assert(listing_from(all, p) is None);
                return Err(e);
            },
        }
    }
    assert(lines + Seq::<char>::empty() =~= lines);
    Ok(output)
}

/// Decoding is deterministic: any two outcomes that decoding the same bytes
/// may give are the same text, or both the end-of-stream error.
pub proof fn lemma_decode_deterministic(
    a: Seq<u8>,
    b: Seq<u8>,
    ra: Result<String, DecodeError>,
    rb: Result<String, DecodeError>,
)
    requires
        a == b,
        is_listing_of(a, ra),
        is_listing_of(b, rb),
    ensures
        ra is Ok <==> rb is Ok,
        ra matches Ok(s) ==> (rb matches Ok(t) && s@ == t@),
        ra matches Err(e) ==> rb == Err::<String, DecodeError>(e),
{
}

/// Empty input gives the header line alone.
pub proof fn lemma_empty_input_header()
    ensures
        listing(Seq::empty()) == Some("bits 16\n"@),
{
    assert("bits 16\n"@ + Seq::<char>::empty() =~= "bits 16\n"@);
}

/// The operand of `i` that the mod/reg/rm byte's `rm` field decoded, for an
/// instruction with opcode `op` of one of the two mod/reg/rm encodings.
pub open spec fn rm_side(i: Instruction, op: u8) -> Operand {
    if is_reg_mem_mov(op) && (op >> 1) & 1 == 1 {
        i.src
    } else {
        i.dest
    }
}

/// In modes 01 and 10 the memory operand is written with its displacement as
/// `+ N`, also when the displacement read is 0.
pub proof fn lemma_displacement_shown(bytes: Seq<u8>, p: int)
    requires
        0 <= p,
        p + 1 < bytes.len(),
        is_reg_mem_mov(bytes[p]) || is_imm_rm_mov(bytes[p]),
        mode_field(bytes[p + 1]) == 1 || mode_field(bytes[p + 1]) == 2,
    ensures
        decode_at(bytes, p) matches Some((Some(i), _)) ==> operand_text(rm_side(i, bytes[p]))
            == "["@ + base_expression(rm_field(bytes[p + 1])) + " + "@ + decimal(
            (if mode_field(bytes[p + 1]) == 1 {
                bytes[p + 2] as u16
            } else {
                le16(bytes[p + 2], bytes[p + 3])
            }) as nat,
        ) + "]"@,
{
}

/// Mode 00 with `rm = 110` reads a 16-bit direct address: it needs two more
/// bytes after the mod/reg/rm byte, and is written as that address alone.
pub proof fn lemma_direct_address(bytes: Seq<u8>, p: int)
    requires
        0 <= p,
        p + 1 < bytes.len(),
        is_reg_mem_mov(bytes[p]) || is_imm_rm_mov(bytes[p]),
        mode_field(bytes[p + 1]) == 0,
        rm_field(bytes[p + 1]) == 6,
    ensures
        p + 4 > bytes.len() ==> decode_at(bytes, p) is None,
        decode_at(bytes, p) matches Some((Some(i), q)) ==> {
            &&& q >= p + 4
            &&& is_reg_mem_mov(bytes[p]) ==> q == p + 4
            &&& rm_side(i, bytes[p]) == Operand::Memory {
                mode: 0,
                rm: 6,
                disp: le16(bytes[p + 2], bytes[p + 3]),
            }
            &&& operand_text(rm_side(i, bytes[p])) == "["@ + decimal(
                le16(bytes[p + 2], bytes[p + 3]) as nat,
            ) + "]"@
        },
{
}

} // verus!
