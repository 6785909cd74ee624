use ratsembler_6502::ast::AddressValue;
use ratsembler_6502::ast::Expression;
use ratsembler_6502::ast::LongOperand;
use ratsembler_6502::ast::Program;
use ratsembler_6502::ast::ShortOperand;
use ratsembler_6502::codegen::serialize_raw_section;
use ratsembler_6502::elf::Elf32Ehdr;
use ratsembler_6502::error::AsmError;
use ratsembler_6502::instruction::encode;
use ratsembler_6502::instruction::operand_length;
use ratsembler_6502::instruction::AddressModeIndexer;
use ratsembler_6502::instruction::InstructionCode;
use ratsembler_6502::parser::Assembler6502Parser;
use ratsembler_6502::relocatable::Relocatable;
use ratsembler_6502::relocatable::Relocation;
use ratsembler_6502::relocatable::Symbol;
use ratsembler_6502::syntax::ExpressionNode;

fn assemble(source: &str) -> Program {
    let nodes = Assembler6502Parser::parse_program(source).unwrap();
    Program::from_nodes(nodes).unwrap()
}

#[test]
fn test_round_trip_immediate() {
    let program = assemble("LDA #$10");
    assert_eq!(program.expressions.len(), 1);
    assert_eq!(program.expressions[0].operator, InstructionCode::LDA);
    assert_eq!(
        program.expressions[0].operand,
        AddressValue::Immediate(ShortOperand::Numeric(0x10))
    );
    let raw = program.get_raw_section().unwrap();
    assert_eq!(raw, vec![0xA9, 0x10]);
    assert_eq!(program.get_relocations().unwrap(), vec![]);
    assert_eq!(program.get_symbols(), vec![]);
}

#[test]
fn test_labelled_zero_page_x() {
    let program = assemble("label: LDA $10,X");
    assert_eq!(program.expressions.len(), 1);
    assert_eq!(
        program.expressions[0].operand,
        AddressValue::ZeroPageX(ShortOperand::Numeric(0x10))
    );
    assert_eq!(program.lookup_symbol(&"label".to_string()), Some(0));
    assert_eq!(
        program.get_symbols(),
        vec![("label".to_string(), Symbol::Location(0))]
    );
    assert_eq!(program.get_raw_section().unwrap(), vec![0xB5, 0x10]);
}

#[test]
fn test_forward_branch_resolves() {
    let program = assemble("BEQ target\nNOP\ntarget: BRK");
    assert_eq!(program.lookup_symbol(&"target".to_string()), Some(3));
    let raw = program.get_raw_section().unwrap();
    assert_eq!(raw, vec![0xF0, 0x01, 0xEA, 0x00]);
    // The branch resolved; its relocation entry remains as a redundant,
    // diagnostic record.
    assert_eq!(
        program.get_relocations().unwrap(),
        vec![Relocation::Relative("target".to_string(), 1)]
    );
}

#[test]
fn test_backward_branch_resolves() {
    let program = assemble("start: NOP\nBEQ start");
    let raw = program.get_raw_section().unwrap();
    // Displacement 0 - 3 = -3, two's complement 0xFD.
    assert_eq!(raw, vec![0xEA, 0xF0, 0xFD]);
}

fn branch_over(nops: usize) -> Program {
    let mut source = String::from("BEQ far\n");
    for _ in 0..nops {
        source.push_str("NOP\n");
    }
    source.push_str("far: BRK");
    assemble(&source)
}

#[test]
fn test_branch_at_positive_edge() {
    // The target sits 127 bytes past the end of the branch instruction:
    // the largest displacement a signed byte holds.
    let program = branch_over(127);
    let raw = program.get_raw_section().unwrap();
    assert_eq!(raw[1], 127);
}

#[test]
fn test_branch_out_of_range() {
    // One byte further and the displacement no longer fits: a hard error,
    // never a silently wrapped byte.
    let program = branch_over(128);
    assert_eq!(
        program.get_raw_section(),
        Err(AsmError::BranchOutOfRange("far".to_string()))
    );
}

#[test]
fn test_unresolved_absolute_symbol() {
    let program = assemble("LDA hello");
    assert_eq!(program.get_raw_section().unwrap(), vec![0xAD, 0xFF, 0xFF]);
    assert_eq!(
        program.get_relocations().unwrap(),
        vec![Relocation::Long("hello".to_string(), 1)]
    );
    assert_eq!(program.get_symbols(), vec![]);
}

#[test]
fn test_unresolved_branch_symbol() {
    let program = assemble("BEQ nowhere");
    assert_eq!(program.get_raw_section().unwrap(), vec![0xF0, 0xFF]);
    assert_eq!(
        program.get_relocations().unwrap(),
        vec![Relocation::Relative("nowhere".to_string(), 1)]
    );
}

#[test]
fn test_unresolved_short_and_indirect_symbols() {
    let program = assemble("LDA zp,X\nJMP (vector)\nLDA (ind),Y");
    assert_eq!(
        program.get_raw_section().unwrap(),
        vec![0xB5, 0xFF, 0x6C, 0xFF, 0xFF, 0xB1, 0xFF]
    );
    assert_eq!(
        program.get_relocations().unwrap(),
        vec![
            Relocation::Short("zp".to_string(), 1),
            Relocation::Absolute("vector".to_string(), 3),
            Relocation::Short("ind".to_string(), 6),
        ]
    );
}

#[test]
fn test_duplicate_label_rejected() {
    let nodes = Assembler6502Parser::parse_program("dup: NOP\ndup: BRK").unwrap();
    assert_eq!(
        Program::from_nodes(nodes),
        Err(AsmError::DuplicateLabel("dup".to_string()))
    );
    let nodes = Assembler6502Parser::parse_program("dup: dup: NOP").unwrap();
    assert_eq!(
        Program::from_nodes(nodes),
        Err(AsmError::DuplicateLabel("dup".to_string()))
    );
}

#[test]
fn test_unknown_mnemonic_rejected() {
    let node = ExpressionNode {
        labels: vec![],
        mnemonic: "XYZ".to_string(),
        operand: None,
    };
    assert_eq!(
        Program::from_nodes(vec![node]),
        Err(AsmError::UnknownMnemonic("XYZ".to_string()))
    );
}

#[test]
fn test_unsupported_encoding_rejected() {
    // INX takes no operand; with a zero-page operand there is no opcode.
    let program = assemble("INX $10");
    assert_eq!(
        program.get_raw_section(),
        Err(AsmError::UnsupportedEncoding)
    );
    let expression = Expression {
        operator: InstructionCode::STA,
        operand: AddressValue::Immediate(ShortOperand::Numeric(1)),
    };
    assert_eq!(expression.get_code(), Err(AsmError::UnsupportedEncoding));
}

#[test]
fn test_section_too_large_rejected() {
    // 21846 three-byte instructions overflow the 16-bit address space.
    let mut nodes: Vec<ExpressionNode> = Vec::new();
    for _ in 0..21846 {
        nodes.push(ExpressionNode {
            labels: vec![],
            mnemonic: "JMP".to_string(),
            operand: Some(ratsembler_6502::syntax::OperandNode::LongLiteral(0x1234)),
        });
    }
    assert_eq!(Program::from_nodes(nodes), Err(AsmError::SectionTooLarge));
}

#[test]
fn test_undefined_symbol_error_exists() {
    // The taxonomy keeps a variant for names no resolution step can supply;
    // the core pipeline itself leaves such names to the relocation list.
    let e = AsmError::UndefinedSymbol("ghost".to_string());
    assert_ne!(e, AsmError::UnsupportedEncoding);
}

#[test]
fn test_operand_length_per_mode() {
    assert_eq!(operand_length(AddressModeIndexer::ACCUMULATOR), 0);
    assert_eq!(operand_length(AddressModeIndexer::IMPLIED), 0);
    assert_eq!(operand_length(AddressModeIndexer::IMMEDIATE), 1);
    assert_eq!(operand_length(AddressModeIndexer::ZERO_PAGE), 1);
    assert_eq!(operand_length(AddressModeIndexer::RELATIVE), 1);
    assert_eq!(operand_length(AddressModeIndexer::ZP_X), 1);
    assert_eq!(operand_length(AddressModeIndexer::ZP_Y), 1);
    assert_eq!(operand_length(AddressModeIndexer::INDEX_IND), 1);
    assert_eq!(operand_length(AddressModeIndexer::IND_INDEX), 1);
    assert_eq!(operand_length(AddressModeIndexer::ABSOLUTE), 2);
    assert_eq!(operand_length(AddressModeIndexer::ABS_X), 2);
    assert_eq!(operand_length(AddressModeIndexer::ABS_Y), 2);
    assert_eq!(operand_length(AddressModeIndexer::ABSOLUTE_INDIRECT), 2);
}

#[test]
fn test_operand_length_ignores_payload() {
    // The same variant with a value and with a symbol has the same length.
    let numeric = AddressValue::ZeroPageX(ShortOperand::Numeric(7));
    let symbol = AddressValue::ZeroPageX(ShortOperand::Label("sym".to_string()));
    assert_eq!(numeric.get_size(), symbol.get_size());
    let numeric = AddressValue::Absolute(LongOperand::Numeric(0x1234));
    let symbol = AddressValue::Absolute(LongOperand::Label("sym".to_string()));
    assert_eq!(numeric.get_size(), symbol.get_size());
}

#[test]
fn test_encode_samples() {
    assert_eq!(
        encode(InstructionCode::LDA, AddressModeIndexer::IMMEDIATE),
        Ok(0xA9)
    );
    assert_eq!(
        encode(InstructionCode::JMP, AddressModeIndexer::ABSOLUTE_INDIRECT),
        Ok(0x6C)
    );
    assert_eq!(
        encode(InstructionCode::BEQ, AddressModeIndexer::RELATIVE),
        Ok(0xF0)
    );
    assert_eq!(
        encode(InstructionCode::BRK, AddressModeIndexer::IMPLIED),
        Ok(0x00)
    );
    assert_eq!(
        encode(InstructionCode::ASL, AddressModeIndexer::ACCUMULATOR),
        Ok(0x0A)
    );
    assert_eq!(
        encode(InstructionCode::STA, AddressModeIndexer::IMMEDIATE),
        Err(AsmError::UnsupportedEncoding)
    );
}

#[test]
fn test_raw_length_is_sum_of_sizes() {
    let program = assemble("LDA #$10\nSTA $0200\nASL\nJMP (hop)\nBRK");
    let total: usize = program.expressions.iter().map(|e| e.get_size()).sum();
    let raw = program.get_raw_section().unwrap();
    assert_eq!(raw.len(), total);
    assert_eq!(total, 2 + 3 + 1 + 3 + 1);
}

#[test]
fn test_stacked_labels_share_address() {
    let program = assemble("NOP\na:\nb: BRK");
    assert_eq!(program.lookup_symbol(&"a".to_string()), Some(1));
    assert_eq!(program.lookup_symbol(&"b".to_string()), Some(1));
    assert_eq!(program.lookup_symbol(&"c".to_string()), None);
}

#[test]
fn test_empty_program() {
    let program = assemble("  \n\n   ");
    assert_eq!(program.expressions.len(), 0);
    assert_eq!(program.get_raw_section().unwrap(), Vec::<u8>::new());
    assert_eq!(program.get_relocations().unwrap(), vec![]);
    assert_eq!(program.get_symbols(), vec![]);
}

#[test]
fn test_lowercase_source() {
    let program = assemble("lda #$0f");
    assert_eq!(program.get_raw_section().unwrap(), vec![0xA9, 0x0F]);
}

#[test]
fn test_parse_rejects_malformed_operands() {
    assert!(Assembler6502Parser::parse_program("LDA $").is_err());
    assert!(Assembler6502Parser::parse_program("LDA #10").is_err());
    assert!(Assembler6502Parser::parse_program("LDA $10 extra").is_err());
    assert!(Assembler6502Parser::parse_program(": NOP").is_err());
    assert!(Assembler6502Parser::parse_program("label:").is_err());
    assert!(Assembler6502Parser::parse_program("LDA $12345").is_err());
    assert!(Assembler6502Parser::parse_program("LDA ($12)").is_err());
}

#[test]
fn test_serialize_matches_raw_section() {
    let program = assemble("JSR init\nBRK\ninit: LDX #$00\nRTS");
    assert_eq!(
        serialize_raw_section(&program).unwrap(),
        program.get_raw_section().unwrap()
    );
    // An absolute symbol operand is deliberately not looked up at byte
    // emission, even though `init` is resolvable: the placeholder stays and
    // the relocation record carries the reference.
    assert_eq!(
        serialize_raw_section(&program).unwrap(),
        vec![0x20, 0xFF, 0xFF, 0x00, 0xA2, 0x00, 0x60]
    );
    assert_eq!(program.lookup_symbol(&"init".to_string()), Some(4));
    assert_eq!(
        program.get_relocations().unwrap(),
        vec![Relocation::Long("init".to_string(), 1)]
    );
}

#[test]
fn test_relocatable_trait_view() {
    let program = assemble("start: JMP start");
    let raw = <Program as Relocatable>::get_raw_section(&program).unwrap();
    assert_eq!(raw, vec![0x4C, 0xFF, 0xFF]);
    let symbols = <Program as Relocatable>::get_symbols(&program);
    assert_eq!(symbols, vec![("start".to_string(), Symbol::Location(0))]);
    assert_eq!(
        <Program as Relocatable>::get_relocations(&program).unwrap(),
        vec![Relocation::Long("start".to_string(), 1)]
    );
}

#[test]
fn test_absolute_indexed_literals() {
    let program = assemble("LDA $1234,X\nLDA $1234,Y\nJMP ($1234)");
    assert_eq!(
        program.get_raw_section().unwrap(),
        vec![0xBD, 0x34, 0x12, 0xB9, 0x34, 0x12, 0x6C, 0x34, 0x12]
    );
    assert_eq!(program.get_relocations().unwrap(), vec![]);
}

#[test]
fn test_indirect_indexed_literals() {
    let program = assemble("LDA ($23,X)\nLDA ($23),Y");
    assert_eq!(program.get_raw_section().unwrap(), vec![0xA1, 0x23, 0xB1, 0x23]);
}

#[test]
fn test_indexed_symbol_is_zero_page() {
    // A symbol with an index marker defaults to the zero-page form.
    let program = assemble("STX counter,Y");
    assert_eq!(program.get_raw_section().unwrap(), vec![0x96, 0xFF]);
    assert_eq!(
        program.get_relocations().unwrap(),
        vec![Relocation::Short("counter".to_string(), 1)]
    );
}

#[test]
fn test_numeric_branch_operand() {
    // A literal branch operand is taken as the displacement byte itself.
    let program = assemble("BEQ $05");
    assert_eq!(program.get_raw_section().unwrap(), vec![0xF0, 0x05]);
}

#[test]
fn test_flexible_whitespace_and_case() {
    let program = assemble("loop_2:\tlda\t$10,x\r\n\tbne\tloop_2\r\n");
    assert_eq!(program.lookup_symbol(&"loop_2".to_string()), Some(0));
    assert_eq!(
        program.get_raw_section().unwrap(),
        vec![0xB5, 0x10, 0xD0, 0xFC]
    );
}

#[test]
fn test_elf_header_layout() {
    let header = Elf32Ehdr::new();
    let bytes = header.header_bytes();
    assert_eq!(bytes.len(), 52);
    assert_eq!(&bytes[0..4], &[0x7F, 0x45, 0x4C, 0x46]);
    assert_eq!(&bytes[4..7], &[1, 1, 1]);
    assert_eq!(&bytes[16..18], &[2, 0]);
    assert_eq!(&bytes[18..20], &[0x02, 0x65]);
    assert_eq!(&bytes[20..24], &[1, 0, 0, 0]);
    assert_eq!(&bytes[24..28], &[0x00, 0x80, 0x04, 0x08]);
    assert_eq!(&bytes[28..32], &[52, 0, 0, 0]);
    assert_eq!(&bytes[40..42], &[52, 0]);
}
