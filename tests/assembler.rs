use intel8085::assembler::{assemble, assemble_tokens};
use intel8085::error::ErrorKind;
use intel8085::lexer::tokenize;
use intel8085::opcodes::{descriptor, Mnemonic};
use intel8085::token::{Register, Token, TokenKind, TokenStream, TokenType};

#[test]
fn test_assembler() {
    let bytes = assemble("MVI A, 05H\nADD B\nSTA 2050H\nHLT\n").unwrap();
    assert_eq!(bytes, vec![0x3E, 0x05, 0x80, 0x32, 0x50, 0x20, 0x76]);
}

#[test]
fn code_length_is_sum_of_instruction_sizes() {
    let source = "START: LXI H, 1234H\nMVI M, 7\nINX H\nJNZ START\nHLT\n";
    let bytes = assemble(source).unwrap();
    let sizes = [Mnemonic::Lxi, Mnemonic::Mvi, Mnemonic::Inx, Mnemonic::Jnz, Mnemonic::Hlt]
        .iter()
        .map(|m| descriptor(*m).size as usize)
        .sum::<usize>();
    assert_eq!(sizes, 3 + 2 + 1 + 3 + 1);
    assert_eq!(bytes.len(), sizes);
}

#[test]
fn labels_resolve_to_offset_of_next_instruction() {
    let bytes = assemble("NOP\nMVI A, 1\nHERE: JMP HERE\nTHERE:\nJZ THERE\n").unwrap();
    assert_eq!(bytes, vec![0x00, 0x3E, 0x01, 0xC3, 0x03, 0x00, 0xCA, 0x06, 0x00]);
}

#[test]
fn forward_references_are_resolved() {
    let bytes = assemble("CALL TWICE\nHLT\nTWICE: RET\n").unwrap();
    assert_eq!(bytes, vec![0xCD, 0x04, 0x00, 0x76, 0xC9]);
}

#[test]
fn register_encodings() {
    let bytes = assemble("MOV B, C\nMOV M, A\nMOV A, M\nADD M\nSUB A\nCMP E\nXRA H\nORA L\nANA D\n")
        .unwrap();
    assert_eq!(bytes, vec![0x41, 0x77, 0x7E, 0x86, 0x97, 0xBB, 0xAC, 0xB5, 0xA2]);
}

#[test]
fn pair_encodings() {
    let bytes = assemble(
        "DAD B\nDAD SP\nINX D\nDCX H\nLXI SP, 20H\nLDAX D\nSTAX B\nPUSH PSW\nPOP B\nPOP PSW\nPUSH H\n",
    )
    .unwrap();
    assert_eq!(
        bytes,
        vec![0x09, 0x39, 0x13, 0x2B, 0x31, 0x20, 0x00, 0x1A, 0x02, 0xF5, 0xC1, 0xF1, 0xE5]
    );
}

#[test]
fn single_register_encodings() {
    let bytes = assemble("INR A\nDCR M\nMVI B, 0FFH\nRST 7\nRST 0\n").unwrap();
    assert_eq!(bytes, vec![0x3C, 0x35, 0x06, 0xFF, 0xFF, 0xC7]);
}

#[test]
fn implicit_and_immediate_encodings() {
    let bytes = assemble("CMA\nCMC\nSTC\nDAA\nXCHG\nXTHL\nDI\nEI\nRIM\nSIM\nCPI 10\nOUT 3\nIN 4\n")
        .unwrap();
    assert_eq!(
        bytes,
        vec![0x2F, 0x3F, 0x37, 0x27, 0xEB, 0xE3, 0xF3, 0xFB, 0x20, 0x30, 0xFE, 0x0A, 0xD3, 0x03, 0xDB, 0x04]
    );
}

#[test]
fn mnemonics_and_registers_ignore_case() {
    let bytes = assemble("mvi a, 1\nMov b, A\nhlt\n").unwrap();
    assert_eq!(bytes, vec![0x3E, 0x01, 0x47, 0x76]);
}

#[test]
fn hex_suffix_k_is_accepted() {
    let bytes = assemble("MVI A, 1FK\nLDA 2000h\n").unwrap();
    assert_eq!(bytes, vec![0x3E, 0x1F, 0x3A, 0x00, 0x20]);
}

#[test]
fn last_line_without_newline_is_read() {
    assert_eq!(assemble("NOP\nHLT").unwrap(), vec![0x00, 0x76]);
}

#[test]
fn undefined_label_is_reported() {
    let e = assemble("JMP NOWHERE\n").unwrap_err();
    assert!(matches!(e.error, ErrorKind::UndefinedLabel(ref name) if name == "NOWHERE"));
    assert_eq!(e.position, (1, 5));
}

#[test]
fn duplicate_label_is_reported() {
    let e = assemble("L1: NOP\nL1: NOP\n").unwrap_err();
    assert!(matches!(e.error, ErrorKind::DuplicateLabel(ref name) if name == "L1"));
    assert_eq!(e.position, (2, 1));
}

#[test]
fn missing_operand_meets_end_token() {
    let e = assemble("MVI A,").unwrap_err();
    assert!(matches!(e.error, ErrorKind::UnexpectedToken(_, TokenKind::End)));
}

#[test]
fn tokens_running_out_is_end_of_file() {
    let stream = TokenStream {
        tokens: vec![Token { position: (1, 1), token: TokenType::Operation(Mnemonic::Mvi) }],
    };
    let e = assemble_tokens(&stream).unwrap_err();
    assert!(matches!(e.error, ErrorKind::Eof));
    assert_eq!(e.position, (0, 0));
}

#[test]
fn tokens_without_end_marker_still_assemble() {
    let stream = TokenStream {
        tokens: vec![Token { position: (1, 1), token: TokenType::Operation(Mnemonic::Hlt) }],
    };
    assert_eq!(assemble_tokens(&stream).unwrap(), vec![0x76]);
}

#[test]
fn wrong_token_kind_is_unexpected() {
    let e = assemble("MVI A, B\n").unwrap_err();
    match e.error {
        ErrorKind::UnexpectedToken(expected, found) => {
            assert_eq!(expected, vec![TokenKind::U8]);
            assert_eq!(found, TokenKind::Register);
        }
        other => panic!("unexpected error {:?}", other),
    }
    assert_eq!(e.position, (1, 8));
}

#[test]
fn wrong_register_class_is_invalid() {
    for source in ["DAD PSW\n", "PUSH SP\n", "LDAX H\n", "MOV SP, A\n", "RST 8\n", "ADD PSW\n"] {
        let e = assemble(source).unwrap_err();
        assert!(matches!(e.error, ErrorKind::InvalidArguments(_, _)), "{}", source);
    }
}

#[test]
fn large_number_is_a_number_error() {
    let e = assemble("LXI H, 70000\n").unwrap_err();
    assert!(matches!(e.error, ErrorKind::NumberError(ref s) if s == "70000"));
    assert_eq!(e.position, (1, 8));
    let e = assemble("MVI A, 0FGH\n").unwrap_err();
    assert!(matches!(e.error, ErrorKind::NumberError(_)));
}

#[test]
fn unknown_lexeme_is_reported() {
    let e = assemble("NOP\n  1X\n").unwrap_err();
    assert!(matches!(e.error, ErrorKind::UnexpectedLexeme(ref s) if s == "1X"));
    assert_eq!(e.position, (2, 3));
}

#[test]
fn tokens_carry_kinds_text_and_positions() {
    let tokens = tokenize("loop: MOV A,m\n  JMP loop").unwrap().tokens;
    assert_eq!(tokens.len(), 9);
    assert!(matches!(tokens[0].token, TokenType::Label(ref s) if s == "loop"));
    assert_eq!(tokens[0].position, (1, 1));
    assert!(matches!(tokens[1].token, TokenType::Colon));
    assert_eq!(tokens[1].position, (1, 5));
    assert!(matches!(tokens[2].token, TokenType::Operation(Mnemonic::Mov)));
    assert!(matches!(tokens[3].token, TokenType::Register(Register::A)));
    assert!(matches!(tokens[4].token, TokenType::Comma));
    assert!(matches!(tokens[5].token, TokenType::Register(Register::M)));
    assert_eq!(tokens[5].position, (1, 13));
    assert!(matches!(tokens[6].token, TokenType::Operation(Mnemonic::Jmp)));
    assert_eq!(tokens[6].position, (2, 3));
    assert!(matches!(tokens[7].token, TokenType::Label(ref s) if s == "loop"));
    assert!(matches!(tokens[8].token, TokenType::End));
}

#[test]
fn numbers_become_u8_or_u16() {
    let tokens = tokenize("255 256 0FFH 100H").unwrap().tokens;
    assert!(matches!(tokens[0].token, TokenType::U8(255)));
    assert!(matches!(tokens[1].token, TokenType::U16(256)));
    assert!(matches!(tokens[2].token, TokenType::U8(0xFF)));
    assert!(matches!(tokens[3].token, TokenType::U16(0x100)));
}

#[test]
fn tokens_assemble_directly() {
    let tokens = tokenize("MVI C, 2\nHLT\n").unwrap();
    assert_eq!(tokens.iter().len(), 6);
    assert_eq!(assemble_tokens(&tokens).unwrap(), vec![0x0E, 0x02, 0x76]);
}
