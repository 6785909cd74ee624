use ratsembler_6502::ast::Program;
use ratsembler_6502::parser::Assembler6502Parser;
use ratsembler_6502::parser::ParsedItem;
use ratsembler_6502::parser::Rule;

#[test]
fn test_parse_valid_instruction() {
    let parse_result = Assembler6502Parser::parse(Rule::instruction, "LDA");
    println!("{:?}", parse_result);
    assert!(parse_result.is_ok());
}

#[test]
fn test_parse_invalid_instruction() {
    let parse_result = Assembler6502Parser::parse(Rule::instruction, "INVALID");
    assert!(parse_result.is_err());
}

#[test]
fn test_parse_valid_label_declaration() {
    let parse_result = Assembler6502Parser::parse(Rule::label_dec, "start:");
    assert!(parse_result.is_ok());
}

#[test]
fn test_parse_invalid_label() {
    let parse_result = Assembler6502Parser::parse(Rule::label, "123start:");
    assert!(parse_result.is_err());
}

#[test]
fn test_parse_label_with_instruction_name() {
    let parse_result = Assembler6502Parser::parse(Rule::label, "decrement:");
    assert!(parse_result.is_ok());
}

#[test]
fn test_parse_two_operand_free_instructions() {
    let parser_result = Assembler6502Parser::parse(Rule::program, "INX\nDEX\n");
    assert!(
        parser_result.is_ok(),
        "Expected successful parse, got {:?}",
        parser_result
    );
    let nodes = match parser_result.unwrap() {
        ParsedItem::Program(nodes) => nodes,
        other => panic!("expected a program, got {:?}", other),
    };
    assert_eq!(nodes.len(), 2);
    assert_eq!(nodes[0].mnemonic, "INX");
    assert!(nodes[0].operand.is_none());
    assert_eq!(nodes[1].mnemonic, "DEX");
    assert!(nodes[1].operand.is_none());
}

#[test]
fn test_parser_list() {
    let input = r#"
one:
NOP

two:
three:
NOP ($23,X)
NOP ($23),Y
NOP

four:
NOP
NOP (hello)
NOP
"#;

    let parsed = Assembler6502Parser::parse_program(input);
    match parsed {
        Ok(nodes) => {
            let program = Program::from_nodes(nodes);
            println!("{:?}", program);
            assert!(program.is_ok());
        }
        Err(e) => {
            panic!("Error parsing file: {:?}", e);
        }
    }
}

#[test]
fn test_parser_og() {
    let input = r#"
  JSR init
  JSR loop
  JSR end

init:
  LDX #$00
  RTS

loop:
  INX
  CPX #$05
  BNE loop
  RTS

end:
  BRK

LDX #$08
decrement:
DEX
STX $0200
CPX #$03
BNE decrement
STX $0201
BRK
lda #$11
sta $10
lda #$10
sta $12
lda #$0f
sta $14
lda #$04
sta $11
sta $13
sta $15

catch:
  JMP catch

    "#;

    let parsed = Assembler6502Parser::parse_program(input);
    match parsed {
        Ok(nodes) => {
            let program = Program::from_nodes(nodes);
            println!("{:?}", program);
            assert!(program.is_ok());
        }
        Err(e) => {
            panic!("Error parsing file: {:?}", e);
        }
    }
}

#[test]
fn test_small() {
    let input = r#"
JSR init
BRK

init:
LDX #$00
RTS


    "#;

    let parsed = Assembler6502Parser::parse_program(input);
    match parsed {
        Ok(nodes) => {
            let program = Program::from_nodes(nodes);
            println!("{:?}", program);
            assert!(program.is_ok());
        }
        Err(e) => {
            panic!("Error parsing file: {:?}", e);
        }
    }
}

#[test]
fn test_test_asm() {
    let input = r#"
NOP
NOP (bepis,X)
NOP (bepis,Y)
NOP
NOP
NOP (hello)
NOP"#;

    // `(bepis,Y)` puts the index marker on the wrong side of the
    // parentheses: the 6502 has no such mode, and the grammar rejects it.
    let parsed = Assembler6502Parser::parse_program(input);
    println!("{:?}", parsed);
    assert!(parsed.is_err());
}

#[test]
fn test_two() {
    let input = r#"
INX
DEC"#;

    let parsed = Assembler6502Parser::parse_program(input);
    match parsed {
        Ok(nodes) => {
            let program = Program::from_nodes(nodes);
            println!("{:?}", program);
            assert!(program.is_ok());
        }
        Err(e) => {
            panic!("Error parsing file: {:?}", e);
        }
    }
}
