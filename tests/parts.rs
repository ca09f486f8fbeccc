use disasm8086::cursor::{get_next_u16, get_next_u8, ByteCursor, DecodeError};
use disasm8086::instruction::{decode_next, op_100011, op_1011, op_110001, Instruction, Operand};
use disasm8086::render::{push_decimal, push_instruction};
use disasm8086::tables::{effective_address, get_register};

#[test]
fn register_table_has_sixteen_distinct_names() {
    let mut names: Vec<&str> = Vec::new();
    for sel in 0..8u8 {
        for w in 0..2u8 {
            names.push(get_register(sel, w));
        }
    }
    let expected = [
        "al", "ax", "cl", "cx", "dl", "dx", "bl", "bx", "ah", "sp", "ch", "bp", "dh", "si", "bh",
        "di",
    ];
    assert_eq!(names, expected.to_vec());
    for i in 0..names.len() {
        for j in 0..names.len() {
            assert_eq!(i == j, names[i] == names[j]);
        }
    }
}

#[test]
fn effective_address_table() {
    assert_eq!(effective_address(0, 0), "bx + si");
    assert_eq!(effective_address(0, 5), "di");
    assert_eq!(effective_address(0, 7), "bx");
    assert_eq!(effective_address(1, 6), "bp");
    assert_eq!(effective_address(2, 3), "bp + di");
    assert_eq!(effective_address(2, 4), "si");
}

#[test]
fn cursor_reads_little_endian() {
    let mut c = ByteCursor::new(vec![0x2a, 0x07, 0x13]);
    assert_eq!(get_next_u8(&mut c), Ok(0x2a));
    assert_eq!(get_next_u16(&mut c), Ok(4871));
    assert!(c.at_end());
    assert_eq!(get_next_u8(&mut c), Err(DecodeError::EndOfStream));
}

#[test]
fn cursor_refuses_partial_word() {
    let mut c = ByteCursor::new(vec![0x07]);
    assert_eq!(get_next_u16(&mut c), Err(DecodeError::EndOfStream));
    assert_eq!(get_next_u8(&mut c), Ok(0x07));
}

#[test]
fn decimal_text() {
    let mut s = String::from("x");
    push_decimal(&mut s, 0);
    assert_eq!(s, "x0");
    let mut s = String::new();
    push_decimal(&mut s, 65535);
    assert_eq!(s, "65535");
    let mut s = String::new();
    push_decimal(&mut s, 1207);
    assert_eq!(s, "1207");
}

#[test]
fn operand_decoders() {
    let mut c = ByteCursor::new(vec![0x56, 0x00]);
    let i = op_100011(0x8b, &mut c).unwrap();
    assert_eq!(
        i,
        Instruction {
            dest: Operand::Register { sel: 2, w: 1 },
            src: Operand::Memory { mode: 1, rm: 6, disp: 0 }
        }
    );
    let mut c = ByteCursor::new(vec![0x06, 0x07, 0x13, 0x2a]);
    let i = op_110001(0xc6, &mut c).unwrap();
    assert_eq!(
        i,
        Instruction {
            dest: Operand::Memory { mode: 0, rm: 6, disp: 4871 },
            src: Operand::Immediate { value: 42 }
        }
    );
    assert!(c.at_end());
    let mut c = ByteCursor::new(vec![0xf4, 0xff]);
    let i = op_1011(0xb9, &mut c).unwrap();
    assert_eq!(
        i,
        Instruction { dest: Operand::Register { sel: 1, w: 1 }, src: Operand::Immediate { value: 65524 } }
    );
}

#[test]
fn dispatcher_skips_one_byte_for_unknown_opcode() {
    let mut c = ByteCursor::new(vec![0x90, 0xb1, 0x0c]);
    assert_eq!(decode_next(&mut c), Ok(None));
    let i = decode_next(&mut c).unwrap().unwrap();
    let mut s = String::new();
    push_instruction(&mut s, &i);
    assert_eq!(s, "\nmov cl, 12");
}
