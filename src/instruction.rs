//! Decoding of the three MOV encodings into operand pairs.
use crate::cursor::{get_next_u16, get_next_u8, le16, ByteCursor, DecodeError};
use vstd::prelude::*;

verus! {

/// One operand of a decoded instruction.
#[derive(Debug, Clone, Copy, PartialEq, Eq, Structural)]
pub enum Operand {
    /// A register: 3-bit selector and width flag.
    Register { sel: u8, w: u8 },
    /// A memory reference: addressing mode (00, 01 or 10), `rm` field and
    /// the displacement read (0 when the encoding has none).
    Memory { mode: u8, rm: u8, disp: u16 },
    /// An immediate value, as read.
    Immediate { value: u16 },
}

impl Operand {
    pub open spec fn wf(self) -> bool {
        match self {
            Operand::Register { sel, w } => sel < 8 && w < 2,
            Operand::Memory { mode, rm, disp } => mode < 3 && rm < 8 && (mode == 0 && rm != 6
                ==> disp == 0),
            Operand::Immediate { .. } => true,
        }
    }
}

/// A `mov` with its destination and source, in the order they are written.
#[derive(Debug, Clone, Copy, PartialEq, Eq, Structural)]
pub struct Instruction {
    pub dest: Operand,
    pub src: Operand,
}

impl Instruction {
    pub open spec fn wf(self) -> bool {
        self.dest.wf() && self.src.wf()
    }
}

/// The `mode` field of a mod/reg/rm byte.
pub open spec fn mode_field(b: u8) -> u8 {
    b >> 6
}

/// The `reg` field of a mod/reg/rm byte.
pub open spec fn reg_field(b: u8) -> u8 {
    (b >> 3) & 7
}

/// The `rm` field of a mod/reg/rm byte.
pub open spec fn rm_field(b: u8) -> u8 {
    b & 7
}

/// Opcode `100010dw`: register/memory to or from register.
pub open spec fn is_reg_mem_mov(op: u8) -> bool {
    op >> 2 == 0b100010
}

/// Opcode `1100011w`: immediate to register/memory.
pub open spec fn is_imm_rm_mov(op: u8) -> bool {
    op >> 2 == 0b110001
}

/// Opcode `1011wreg`: immediate to register.
pub open spec fn is_imm_reg_mov(op: u8) -> bool {
    op >> 4 == 0b1011
}

proof fn lemma_fields(b: u8)
    ensures
        mode_field(b) < 4,
        reg_field(b) < 8,
        rm_field(b) < 8,
        b & 1 < 2,
        (b >> 1) & 1 < 2,
        (b >> 3) & 1 < 2,
{
    assert(b >> 6 < 4 && (b >> 3) & 7 < 8 && b & 7 < 8) by (bit_vector);
    assert(b & 1 < 2 && (b >> 1) & 1 < 2 && (b >> 3) & 1 < 2) by (bit_vector);
}

/// The register/memory operand that mod/reg/rm byte `modrm` selects, with
/// its displacement read from position `p` on, and the position after it;
/// `None` when the bytes run out.
pub open spec fn rm_operand(bytes: Seq<u8>, p: int, modrm: u8, w: u8) -> Option<(Operand, int)> {
    let mode = mode_field(modrm);
    let rm = rm_field(modrm);
    if mode == 3 {
        Some((Operand::Register { sel: rm, w }, p))
    } else if mode == 1 {
        if p + 1 <= bytes.len() {
            Some((Operand::Memory { mode, rm, disp: bytes[p] as u16 }, p + 1))
        } else {
            None
        }
    } else if mode == 2 || rm == 6 {
        if p + 2 <= bytes.len() {
            Some((Operand::Memory { mode, rm, disp: le16(bytes[p], bytes[p + 1]) }, p + 2))
        } else {
            None
        }
    } else {
        Some((Operand::Memory { mode, rm, disp: 0 }, p))
    }
}

/// An immediate of width `w` read at position `p`, and the position after it.
pub open spec fn immediate_at(bytes: Seq<u8>, p: int, w: u8) -> Option<(u16, int)> {
    if w == 0 {
        if p + 1 <= bytes.len() {
            Some((bytes[p] as u16, p + 1))
        } else {
            None
        }
    } else {
        if p + 2 <= bytes.len() {
            Some((le16(bytes[p], bytes[p + 1]), p + 2))
        } else {
            None
        }
    }
}

/// Register/memory to or from register, opcode `op` already read; `p` is the
/// position of the mod/reg/rm byte.
pub open spec fn reg_mem_at(bytes: Seq<u8>, p: int, op: u8) -> Option<(Instruction, int)> {
    if p >= bytes.len() {
        None
    } else {
        let modrm = bytes[p];
        let w = op & 1;
        let reg = Operand::Register { sel: reg_field(modrm), w };
        match rm_operand(bytes, p + 1, modrm, w) {
            None => None,
            Some((other, q)) => if (op >> 1) & 1 == 1 {
                Some((Instruction { dest: reg, src: other }, q))
            } else {
                Some((Instruction { dest: other, src: reg }, q))
            },
        }
    }
}

/// Immediate to register/memory, opcode `op` already read; `p` is the
/// position of the mod/reg/rm byte.
pub open spec fn imm_rm_at(bytes: Seq<u8>, p: int, op: u8) -> Option<(Instruction, int)> {
    if p >= bytes.len() {
        None
    } else {
        let w = op & 1;
        match rm_operand(bytes, p + 1, bytes[p], w) {
            None => None,
            Some((dest, q)) => match immediate_at(bytes, q, w) {
                None => None,
                Some((value, r)) => Some(
                    (Instruction { dest, src: Operand::Immediate { value } }, r),
                ),
            },
        }
    }
}

/// Immediate to register, short form, opcode `op` already read; `p` is the
/// position of the immediate.
pub open spec fn imm_reg_at(bytes: Seq<u8>, p: int, op: u8) -> Option<(Instruction, int)> {
    let w = (op >> 3) & 1;
    match immediate_at(bytes, p, w) {
        None => None,
        Some((value, q)) => Some(
            (
                Instruction {
                    dest: Operand::Register { sel: op & 7, w },
                    src: Operand::Immediate { value },
                },
                q,
            ),
        ),
    }
}

/// What the instruction whose opcode stands at position `p` decodes to, and
/// the position after it: `Some(None)` for an opcode outside the MOV family,
/// which takes one byte; `None` when the bytes run out inside an instruction.
pub open spec fn decode_at(bytes: Seq<u8>, p: int) -> Option<(Option<Instruction>, int)> {
    let op = bytes[p];
    let found = if is_reg_mem_mov(op) {
        reg_mem_at(bytes, p + 1, op)
    } else if is_imm_rm_mov(op) {
        imm_rm_at(bytes, p + 1, op)
    } else if is_imm_reg_mov(op) {
        imm_reg_at(bytes, p + 1, op)
    } else {
        None
    };
    if is_reg_mem_mov(op) || is_imm_rm_mov(op) || is_imm_reg_mov(op) {
        match found {
            None => None,
            Some((i, q)) => Some((Some(i), q)),
        }
    } else {
        Some((None, p + 1))
    }
}

/// Each decode step takes at least its opcode byte and stays within the bytes.
pub proof fn lemma_decode_advances(bytes: Seq<u8>, p: int)
    requires
        0 <= p < bytes.len(),
    ensures
        decode_at(bytes, p) matches Some((_, q)) ==> p < q <= bytes.len(),
{
}

/// `r` is what `expected` says a read gives, and `pos` where it leaves the
/// cursor; an expected `None` is the end of the stream.
pub open spec fn read_as<T>(r: Result<T, DecodeError>, expected: Option<(T, int)>, pos: int) -> bool {
    match expected {
        Some((v, q)) => r == Ok::<T, DecodeError>(v) && pos == q,
        None => r == Err::<T, DecodeError>(DecodeError::EndOfStream),
    }
}

/// Reads the displacement, if any, of the register/memory operand that
/// `modrm` selects.
pub fn decode_rm_operand(cursor: &mut ByteCursor, modrm: u8, w: u8) -> (r: Result<
    Operand,
    DecodeError,
>)
    requires
        old(cursor).wf(),
        w < 2,
    ensures
        final(cursor).wf(),
        final(cursor).data() == old(cursor).data(),
        read_as(r, rm_operand(old(cursor).data(), old(cursor).pos(), modrm, w), final(cursor).pos()),
        r matches Ok(o) ==> o.wf(),
{
    proof {
        lemma_fields(modrm);
    }
    let mode = modrm >> 6;
    let rm = modrm & 7;
    if mode == 0b11 {
        Ok(Operand::Register { sel: rm, w })
    } else if mode == 0b01 {
        let disp = get_next_u8(cursor)?;
        Ok(Operand::Memory { mode, rm, disp: disp as u16 })
    } else if mode == 0b10 || rm == 0b110 {
        let disp = get_next_u16(cursor)?;
        Ok(Operand::Memory { mode, rm, disp })
    } else {
        Ok(Operand::Memory { mode, rm, disp: 0 })
    }
}

/// Reads an immediate: one byte when `w` is 0, two (little-endian) when 1.
pub fn get_immediate(cursor: &mut ByteCursor, w: u8) -> (r: Result<u16, DecodeError>)
    requires
        old(cursor).wf(),
        w < 2,
    ensures
        final(cursor).wf(),
        final(cursor).data() == old(cursor).data(),
        read_as(r, immediate_at(old(cursor).data(), old(cursor).pos(), w), final(cursor).pos()),
{
    if w == 0 {
        let b = get_next_u8(cursor)?;
        Ok(b as u16)
    } else {
        get_next_u16(cursor)
    }
}

/// Register/memory to or from register (`100010dw`), after its opcode.
pub fn op_100011(opcode: u8, cursor: &mut ByteCursor) -> (r: Result<Instruction, DecodeError>)
    requires
        old(cursor).wf(),
    ensures
        final(cursor).wf(),
        final(cursor).data() == old(cursor).data(),
        read_as(r, reg_mem_at(old(cursor).data(), old(cursor).pos(), opcode), final(cursor).pos()),
        r matches Ok(i) ==> i.wf(),
{
    let modrm = get_next_u8(cursor)?;
    proof {
        lemma_fields(modrm);
        lemma_fields(opcode);
    }
    let w = opcode & 0b00000001;
    let direction = (opcode >> 1) & 1;
    let reg = (modrm >> 3) & 7;
    let register = Operand::Register { sel: reg, w };
    let other = decode_rm_operand(cursor, modrm, w)?;
    if direction == 1 {
        Ok(Instruction { dest: register, src: other })
    } else {
        Ok(Instruction { dest: other, src: register })
    }
}

/// Immediate to register/memory (`1100011w`), after its opcode.
pub fn op_110001(opcode: u8, cursor: &mut ByteCursor) -> (r: Result<Instruction, DecodeError>)
    requires
        old(cursor).wf(),
    ensures
        final(cursor).wf(),
        final(cursor).data() == old(cursor).data(),
        read_as(r, imm_rm_at(old(cursor).data(), old(cursor).pos(), opcode), final(cursor).pos()),
        r matches Ok(i) ==> i.wf(),
{
    let modrm = get_next_u8(cursor)?;
    proof {
        lemma_fields(opcode);
    }
    let w = opcode & 0b00000001;
    let dest = decode_rm_operand(cursor, modrm, w)?;
    let value = get_immediate(cursor, w)?;
    Ok(Instruction { dest, src: Operand::Immediate { value } })
}

/// Immediate to register, short form (`1011wreg`), after its opcode.
pub fn op_1011(opcode: u8, cursor: &mut ByteCursor) -> (r: Result<Instruction, DecodeError>)
    requires
        old(cursor).wf(),
    ensures
        final(cursor).wf(),
        final(cursor).data() == old(cursor).data(),
        read_as(r, imm_reg_at(old(cursor).data(), old(cursor).pos(), opcode), final(cursor).pos()),
        r matches Ok(i) ==> i.wf(),
{
    proof {
        lemma_fields(opcode);
    }
    let w = (opcode >> 3) & 1;
    let reg = opcode & 0b00000111;
    let value = get_immediate(cursor, w)?;
    Ok(Instruction { dest: Operand::Register { sel: reg, w }, src: Operand::Immediate { value } })
}

/// Reads one opcode and whatever its encoding needs; `Ok(None)` for an
/// opcode outside the MOV family, which is skipped.
pub fn decode_next(cursor: &mut ByteCursor) -> (r: Result<Option<Instruction>, DecodeError>)
    requires
        old(cursor).wf(),
        old(cursor).pos() < old(cursor).data().len(),
    ensures
        final(cursor).wf(),
        final(cursor).data() == old(cursor).data(),
        read_as(r, decode_at(old(cursor).data(), old(cursor).pos()), final(cursor).pos()),
        r matches Ok(Some(i)) ==> i.wf(),
{
    let opcode = get_next_u8(cursor)?;
    let opcode_6 = opcode >> 2;
    let opcode_4 = opcode >> 4;
    if opcode_6 == 0b100010 {
        let i = op_100011(opcode, cursor)?;
        Ok(Some(i))
    } else if opcode_6 == 0b110001 {
        let i = op_110001(opcode, cursor)?;
        Ok(Some(i))
    } else if opcode_4 == 0b1011 {
        let i = op_1011(opcode, cursor)?;
        Ok(Some(i))
    } else {
        Ok(None)
    }
}

} // verus!
