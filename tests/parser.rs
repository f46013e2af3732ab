use bobs8085::assemble;
use bobs8085::assembler::parser::parse;
use bobs8085::assembler::token::Token;
use bobs8085::assembler::AssemblerError;

fn semantic_at(source: &str) -> (Option<usize>, Option<usize>) {
    match assemble(source) {
        Err(AssemblerError::SemanticError(_, l, c)) => (l, c),
        other => panic!("expected a semantic error, got {:?}", other),
    }
}

fn syntax_at(source: &str) -> (Option<usize>, Option<usize>) {
    match assemble(source) {
        Err(AssemblerError::SyntaxError(_, l, c)) => (l, c),
        other => panic!("expected a syntax error, got {:?}", other),
    }
}

#[test]
fn register_operands_are_encoded() {
    assert_eq!(assemble("MOV A, B\n").unwrap(), vec![0x78]);
    assert_eq!(assemble("Mov a, M\n").unwrap(), vec![0x7E]);
    assert_eq!(assemble("mvi m, 0ffh\n").unwrap(), vec![0x36, 0xFF]);
    assert_eq!(assemble("INR A\nDCR C\n").unwrap(), vec![0x3C, 0x0D]);
    assert_eq!(assemble("ADD E\nSBB H\nCMP L\n").unwrap(), vec![0x83, 0x9C, 0xBD]);
}

#[test]
fn pair_operands_are_encoded() {
    assert_eq!(assemble("LXI SP, 0xC800\n").unwrap(), vec![0x31, 0x00, 0xC8]);
    assert_eq!(assemble("LXI D, 1234h\n").unwrap(), vec![0x11, 0x34, 0x12]);
    assert_eq!(assemble("PUSH B\nPOP D\nPUSH SP\n").unwrap(), vec![0xC5, 0xD1, 0xF5]);
    assert_eq!(assemble("DAD H\nINX SP\nSTAX D\n").unwrap(), vec![0x29, 0x33, 0x12]);
}

#[test]
fn immediates_are_encoded_low_byte_first() {
    assert_eq!(assemble("STA 0x2050\n").unwrap(), vec![0x32, 0x50, 0x20]);
    assert_eq!(assemble("OUT 0x10\nIN 0x20\n").unwrap(), vec![0xD3, 0x10, 0xDB, 0x20]);
    assert_eq!(assemble("RST 7\nRST 0\n").unwrap(), vec![0xFF, 0xC7]);
}

#[test]
fn label_on_its_own_line() {
    let code = assemble("LXI H, data\nHLT\ndata:\nNOP\n").unwrap();
    assert_eq!(code, vec![0x21, 0x04, 0xC0, 0x76, 0x00]);
}

#[test]
fn last_declaration_of_a_label_wins() {
    let code = assemble("a: NOP\na: NOP\nJMP a\n").unwrap();
    assert_eq!(code, vec![0x00, 0x00, 0xC3, 0x01, 0xC0]);
}

#[test]
fn out_of_range_values() {
    assert_eq!(semantic_at("ADI 0x100\n"), (Some(1), Some(5)));
    assert_eq!(semantic_at("RST 8\n"), (Some(1), Some(5)));
}

#[test]
fn unknown_register() {
    assert_eq!(semantic_at("MOV A, X\n"), (Some(1), Some(8)));
    assert_eq!(semantic_at("PUSH A\n"), (Some(1), Some(6)));
}

#[test]
fn mnemonic_as_label() {
    assert_eq!(semantic_at("mov: NOP\n"), (Some(1), Some(1)));
}

#[test]
fn wrong_token_classes() {
    assert_eq!(syntax_at("MOV A B\n"), (Some(1), Some(7)));
    assert_eq!(syntax_at("0x10: NOP\n"), (Some(1), Some(1)));
    assert_eq!(syntax_at("foo NOP\n"), (Some(1), Some(5)));
    assert_eq!(syntax_at("MVI A, label\n"), (Some(1), Some(8)));
    assert_eq!(syntax_at(", NOP\n"), (Some(1), Some(1)));
    assert_eq!(syntax_at("MOV 0x1, B\n"), (Some(1), Some(5)));
}

#[test]
fn missing_line_end_reports_previous_token() {
    assert_eq!(syntax_at("NOP NOP\n"), (Some(1), Some(1)));
}

#[test]
fn tokens_ending_inside_a_statement() {
    let tokens = vec![Token::new_name("NOP".to_string(), 1, 1)];
    match parse(&tokens) {
        Err(AssemblerError::SyntaxError(_, None, None)) => {}
        other => panic!("expected a syntax error, got {:?}", other),
    }
    assert_eq!(parse(&Vec::new()).unwrap(), Vec::<u8>::new());
}

#[test]
fn hand_built_invalid_hex_literal() {
    let tokens = vec![
        Token::new_name("ADI".to_string(), 1, 1),
        Token::new_hex_literal("zz".to_string(), 1, 5),
        Token::new_new_line(1, 7),
    ];
    match parse(&tokens) {
        Err(AssemblerError::SyntaxError(_, Some(1), Some(5))) => {}
        other => panic!("expected a syntax error, got {:?}", other),
    }
}

#[test]
fn every_mnemonic_assembles() {
    let source = "MOV B, C\nMVI D, 1\nLXI B, 2\nSTAX B\nLDAX D\nSTA 3\nLDA 4\nSHLD 5\nLHLD 6\nXCHG\n\
PUSH H\nPOP H\nXTHL\nSPHL\nINX B\nDCX D\nJMP 7\nJC 8\nJNC 9\nJZ 0A\nJNZ 0B\nJP 0C\nJM 0D\nJPE 0E\nJPO 0F\n\
PCHL\nCALL 10h\nCC 11h\nCNC 12h\nCZ 13h\nCNZ 14h\nCP 15h\nCM 16h\nCPE 17h\nCPO 18h\nRET\nRC\nRNC\nRZ\nRNZ\nRP\n\
RM\nRPE\nRPO\nRST 1\nIN 1\nOUT 2\nINR B\nDCR B\nADD B\nADC B\nADI 1\nACI 1\nDAD B\nSUB B\nSBB B\nSUI 1\nSBI 1\n\
ANA B\nXRA B\nORA B\nCMP B\nANI 1\nXRI 1\nORI 1\nCPI 1\nRLC\nRRC\nRAL\nRAR\nCMA\nSTC\nCMC\nDAA\nEI\nDI\nNOP\nHLT\nRIM\nSIM\n";
    assert!(assemble(source).is_err());
    let fixed = source
        .replace("MVI D, 1", "MVI D, 1h")
        .replace("LXI B, 2", "LXI B, 2h")
        .replace("STA 3", "STA 3h")
        .replace("LDA 4", "LDA 4h")
        .replace("SHLD 5", "SHLD 5h")
        .replace("LHLD 6", "LHLD 6h")
        .replace("JMP 7", "JMP 7h")
        .replace("JC 8", "JC 8h")
        .replace("JNC 9", "JNC 9h")
        .replace("JZ 0A", "JZ 0Ah")
        .replace("JNZ 0B", "JNZ 0Bh")
        .replace("JP 0C", "JP 0Ch")
        .replace("JM 0D", "JM 0Dh")
        .replace("JPE 0E", "JPE 0Eh")
        .replace("JPO 0F", "JPO 0Fh")
        .replace("IN 1", "IN 1h")
        .replace("OUT 2", "OUT 2h")
        .replace("ADI 1", "ADI 1h")
        .replace("ACI 1", "ACI 1h")
        .replace("SUI 1", "SUI 1h")
        .replace("SBI 1", "SBI 1h")
        .replace("ANI 1", "ANI 1h")
        .replace("XRI 1", "XRI 1h")
        .replace("ORI 1", "ORI 1h")
        .replace("CPI 1", "CPI 1h");
    let code = assemble(&fixed).unwrap();
    assert_eq!(code.len(), 137);
    assert_eq!(&code[..4], &[0x41, 0x16, 0x01, 0x01]);
    assert_eq!(&code[code.len() - 4..], &[0x00, 0x76, 0x20, 0x30]);
}
