use disasm8086::cursor::DecodeError;
use disasm8086::listing::process_bytes;

#[test]
fn test_listing_37() {
    let result = process_bytes(vec![0x89, 0xd9]).unwrap();
    assert_eq!(result, "bits 16\n\nmov cx, bx".to_owned());
}

#[test]
fn test_listing_38() {
    let bytes = vec![
        0x89, 0xd9, 0x88, 0xe5, 0x89, 0xda, 0x89, 0xde, 0x89, 0xfb, 0x88, 0xc8, 0x88, 0xed, 0x89,
        0xc3, 0x89, 0xf3, 0x89, 0xfc, 0x89, 0xc5,
    ];
    let result = process_bytes(bytes).unwrap();
    assert_eq!(result,
        "bits 16\n\nmov cx, bx\nmov ch, ah\nmov dx, bx\nmov si, bx\nmov bx, di\nmov al, cl\nmov ch, ch\nmov bx, ax\nmov bx, si\nmov sp, di\nmov bp, ax".to_owned());
}

#[test]
fn test_listing_39() {
    let bytes = vec![
        0x89, 0xde, 0x88, 0xc6, 0xb1, 0x0c, 0xb5, 0xf4, 0xb9, 0x0c, 0x00, 0xb9, 0xf4, 0xff, 0xba,
        0x6c, 0x0f, 0xba, 0x94, 0xf0, 0x8a, 0x00, 0x8b, 0x1b, 0x8b, 0x56, 0x00, 0x8a, 0x60, 0x04,
        0x8a, 0x80, 0x87, 0x13, 0x89, 0x09, 0x88, 0x0a, 0x88, 0x6e, 0x00,
    ];
    let result = process_bytes(bytes).unwrap();
    assert_eq!(result,
    "bits 16\n\nmov si, bx\nmov dh, al\nmov cl, 12\nmov ch, 244\nmov cx, 12\nmov cx, 65524\nmov dx, 3948\nmov dx, 61588\nmov al, [bx + si]\nmov bx, [bp + di]\nmov dx, [bp + 0]\nmov ah, [bx + si + 4]\nmov al, [bx + si + 4999]\nmov [bx + di], cx\nmov [bp + si], cl\nmov [bp + 0], ch")
}

#[test]
fn empty_stream_gives_header_only() {
    assert_eq!(process_bytes(vec![]), Ok("bits 16\n".to_owned()));
}

#[test]
fn register_to_register_source_form() {
    assert_eq!(process_bytes(vec![0b10001001, 0b11001011]), Ok("bits 16\n\nmov bx, cx".to_owned()));
}

#[test]
fn register_to_register_destination_form() {
    assert_eq!(process_bytes(vec![0b10001011, 0b11001011]), Ok("bits 16\n\nmov cx, bx".to_owned()));
}

#[test]
fn immediate_to_register_short_form() {
    assert_eq!(process_bytes(vec![0b10111001, 0x0c, 0x00]), Ok("bits 16\n\nmov cx, 12".to_owned()));
}

#[test]
fn immediate_byte_to_register_short_form() {
    assert_eq!(process_bytes(vec![0xb5, 0xf4]), Ok("bits 16\n\nmov ch, 244".to_owned()));
}

#[test]
fn direct_address_reads_sixteen_bits() {
    assert_eq!(
        process_bytes(vec![0b10001010, 0b00000110, 0x07, 0x13]),
        Ok("bits 16\n\nmov al, [4871]".to_owned())
    );
}

#[test]
fn direct_address_then_next_instruction() {
    assert_eq!(
        process_bytes(vec![0x89, 0x1e, 0x00, 0x00, 0x89, 0xd9]),
        Ok("bits 16\n\nmov [0], bx\nmov cx, bx".to_owned())
    );
}

#[test]
fn direct_address_missing_byte_is_end_of_stream() {
    assert_eq!(process_bytes(vec![0x8a, 0x06, 0x07]), Err(DecodeError::EndOfStream));
}

#[test]
fn eight_bit_zero_displacement_is_shown() {
    assert_eq!(process_bytes(vec![0x8b, 0x56, 0x00]), Ok("bits 16\n\nmov dx, [bp + 0]".to_owned()));
}

#[test]
fn sixteen_bit_zero_displacement_is_shown() {
    assert_eq!(
        process_bytes(vec![0x8a, 0x80, 0x00, 0x00]),
        Ok("bits 16\n\nmov al, [bx + si + 0]".to_owned())
    );
}

#[test]
fn immediate_to_memory_no_displacement() {
    assert_eq!(process_bytes(vec![0xc6, 0x03, 0x07]), Ok("bits 16\n\nmov [bp + di], 7".to_owned()));
}

#[test]
fn immediate_word_to_memory_sixteen_bit_displacement() {
    assert_eq!(
        process_bytes(vec![0xc7, 0x85, 0x85, 0x03, 0x5b, 0x01]),
        Ok("bits 16\n\nmov [di + 901], 347".to_owned())
    );
}

#[test]
fn immediate_to_direct_address() {
    assert_eq!(
        process_bytes(vec![0xc6, 0x06, 0x07, 0x13, 0x2a]),
        Ok("bits 16\n\nmov [4871], 42".to_owned())
    );
}

#[test]
fn immediate_to_register_through_mod_rm() {
    assert_eq!(process_bytes(vec![0xc7, 0xc1, 0x0c, 0x00]), Ok("bits 16\n\nmov cx, 12".to_owned()));
}

#[test]
fn unknown_opcodes_are_skipped() {
    assert_eq!(
        process_bytes(vec![0x00, 0x90, 0x89, 0xd9, 0xff]),
        Ok("bits 16\n\nmov cx, bx".to_owned())
    );
}

#[test]
fn truncated_immediate_is_end_of_stream() {
    assert_eq!(process_bytes(vec![0xb9, 0x0c]), Err(DecodeError::EndOfStream));
}

#[test]
fn missing_mod_rm_byte_is_end_of_stream() {
    assert_eq!(process_bytes(vec![0x89]), Err(DecodeError::EndOfStream));
    assert_eq!(process_bytes(vec![0x89, 0xd9, 0xc6]), Err(DecodeError::EndOfStream));
}

#[test]
fn decoding_twice_gives_the_same_text() {
    let bytes = vec![0x89, 0xde, 0xb5, 0xf4, 0x8a, 0x80, 0x87, 0x13, 0x00, 0x88, 0x6e, 0x00];
    assert_eq!(process_bytes(bytes.clone()), process_bytes(bytes));
}
