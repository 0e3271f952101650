use gbcpu::instructions::{
    format_trace, get_assembly, get_debug, get_instruction, get_prefixed_assembly,
    get_prefixed_debug, get_prefixed_instruction, Instructions, PREFIX_OPCODE,
};

#[test]
fn primary_lookup() {
    assert_eq!(get_instruction(0x21), Instructions::LD_HL_D16);
    assert_eq!(get_instruction(0x31), Instructions::LD_SP_D16);
    assert_eq!(get_instruction(0xaf), Instructions::XOR_A);
    assert_eq!(get_instruction(0xcd), Instructions::CALL_A16);
    assert_eq!(get_instruction(0xc5), Instructions::PUSH_BC);
    assert_eq!(get_instruction(PREFIX_OPCODE), Instructions::Prefixed);
    assert_eq!(get_instruction(0x00), Instructions::Unknown);
    assert_eq!(get_instruction(0x7c), Instructions::Unknown);
}

#[test]
fn prefixed_lookup() {
    assert_eq!(get_prefixed_instruction(0x7c), Instructions::BIT_7_H);
    assert_eq!(get_prefixed_instruction(0x11), Instructions::RL_C);
    assert_eq!(get_prefixed_instruction(0x21), Instructions::Unknown);
    assert_eq!(get_prefixed_instruction(0xcb), Instructions::Unknown);
}

#[test]
fn mnemonics() {
    assert_eq!(get_assembly(0x21), "LD HL, d16");
    assert_eq!(get_assembly(0xe2), "LD ($FF00+C), A");
    assert_eq!(get_assembly(0x77), "LD (HL), A ");
    assert_eq!(get_assembly(0xff), "");
    assert_eq!(get_prefixed_assembly(0x7c), "BIT 7, H");
    assert_eq!(get_prefixed_assembly(0x00), "");
}

#[test]
fn trace_byte_operand_has_two_digits() {
    assert_eq!(get_debug(0x0e, vec![0x05]), "LD C, $05");
    assert_eq!(get_debug(0x20, vec![0xfe]), "JR NZ, $fe");
    assert_eq!(get_debug(0xe0, vec![0x44]), "LD ($FF00+$44), A");
}

#[test]
fn trace_word_operand_has_four_digits() {
    assert_eq!(get_debug(0x21, vec![0x1234]), "LD HL, $1234");
    assert_eq!(get_debug(0x31, vec![0x0100]), "LD SP, $0100");
    assert_eq!(get_debug(0xcd, vec![0xfffe]), "CALL $fffe");
}

#[test]
fn trace_without_operands() {
    assert_eq!(get_debug(0xaf, vec![]), "XOR A");
    assert_eq!(get_debug(0x21, vec![]), "LD HL, ${}");
    assert_eq!(get_prefixed_debug(0x7c, vec![]), "BIT 7, H");
    assert_eq!(get_debug(0x01, vec![1]), "");
}

#[test]
fn format_fills_placeholders_left_to_right() {
    assert_eq!(format_trace("{} {}", &vec![1, 0x200]), "01 0200");
    assert_eq!(format_trace("{} {}", &vec![0xab]), "ab {}");
    assert_eq!(format_trace("x{}", &vec![1, 2, 3]), "x01");
    assert_eq!(format_trace("{{}}", &vec![0x0f]), "{0f}");
    assert_eq!(format_trace("", &vec![5]), "");
    assert_eq!(format_trace("{}", &vec![0x12345]), "12345");
    assert_eq!(format_trace("{}", &vec![255]), "ff");
    assert_eq!(format_trace("{}", &vec![256]), "0100");
}
