use ratsembler_6502::ast::AddressValue;
use ratsembler_6502::ast::Expression;
use ratsembler_6502::ast::LongOperand;
use ratsembler_6502::ast::ShortOperand;
use ratsembler_6502::instruction::AddressModeIndexer;
use ratsembler_6502::instruction::InstructionCode;
use ratsembler_6502::parser::Assembler6502Parser;
use ratsembler_6502::parser::ParsedItem;
use ratsembler_6502::parser::Rule;

#[test]
fn test_to_indexer() {
    assert_eq!(
        AddressValue::Accumulator.to_indexer(),
        AddressModeIndexer::ACCUMULATOR
    );
    assert_eq!(
        AddressValue::Implied.to_indexer(),
        AddressModeIndexer::IMPLIED
    );
    assert_eq!(
        AddressValue::Immediate(ShortOperand::Numeric(0)).to_indexer(),
        AddressModeIndexer::IMMEDIATE
    );
    assert_eq!(
        AddressValue::Absolute(LongOperand::Numeric(0)).to_indexer(),
        AddressModeIndexer::ABSOLUTE
    );
    assert_eq!(
        AddressValue::ZeroPage(ShortOperand::Numeric(0)).to_indexer(),
        AddressModeIndexer::ZERO_PAGE
    );
    assert_eq!(
        AddressValue::Relative(ShortOperand::Numeric(0)).to_indexer(),
        AddressModeIndexer::RELATIVE
    );
    assert_eq!(
        AddressValue::AbsoluteIndirect(LongOperand::Numeric(0)).to_indexer(),
        AddressModeIndexer::ABSOLUTE_INDIRECT
    );
    assert_eq!(
        AddressValue::AbsoluteX(LongOperand::Numeric(0)).to_indexer(),
        AddressModeIndexer::ABS_X
    );
    assert_eq!(
        AddressValue::AbsoluteY(LongOperand::Numeric(0)).to_indexer(),
        AddressModeIndexer::ABS_Y
    );
    assert_eq!(
        AddressValue::ZeroPageX(ShortOperand::Numeric(0)).to_indexer(),
        AddressModeIndexer::ZP_X
    );
    assert_eq!(
        AddressValue::ZeroPageY(ShortOperand::Numeric(0)).to_indexer(),
        AddressModeIndexer::ZP_Y
    );
    assert_eq!(
        AddressValue::IndexedIndirect(ShortOperand::Numeric(0)).to_indexer(),
        AddressModeIndexer::INDEX_IND
    );
    assert_eq!(
        AddressValue::IndirectIndexed(ShortOperand::Numeric(0)).to_indexer(),
        AddressModeIndexer::IND_INDEX
    );
}

#[test]
fn test_get_size() {
    assert_eq!(AddressValue::Accumulator.get_size(), 1);
    assert_eq!(AddressValue::Implied.get_size(), 1);
    assert_eq!(
        AddressValue::Immediate(ShortOperand::Numeric(0)).get_size(),
        2
    );
    assert_eq!(
        AddressValue::Absolute(LongOperand::Numeric(0)).get_size(),
        3
    );
    assert_eq!(
        AddressValue::ZeroPage(ShortOperand::Numeric(0)).get_size(),
        2
    );
    assert_eq!(
        AddressValue::Relative(ShortOperand::Numeric(0)).get_size(),
        2
    );
    assert_eq!(
        AddressValue::AbsoluteIndirect(LongOperand::Numeric(0)).get_size(),
        3
    );
    assert_eq!(
        AddressValue::AbsoluteX(LongOperand::Numeric(0)).get_size(),
        3
    );
    assert_eq!(
        AddressValue::AbsoluteY(LongOperand::Numeric(0)).get_size(),
        3
    );
    assert_eq!(
        AddressValue::ZeroPageX(ShortOperand::Numeric(0)).get_size(),
        2
    );
    assert_eq!(
        AddressValue::ZeroPageY(ShortOperand::Numeric(0)).get_size(),
        2
    );
    assert_eq!(
        AddressValue::IndexedIndirect(ShortOperand::Numeric(0)).get_size(),
        2
    );
    assert_eq!(
        AddressValue::IndirectIndexed(ShortOperand::Numeric(0)).get_size(),
        2
    );
}

fn parsed_operand(rule: Rule, text: &str) -> ratsembler_6502::syntax::OperandNode {
    match Assembler6502Parser::parse(rule, text) {
        Ok(ParsedItem::Operand(op)) => op,
        other => panic!("expected an operand, got {:?}", other),
    }
}

#[test]
fn test_from_indexed_addresser() {
    let op = parsed_operand(Rule::indexed_addresser, "$10,X");
    assert_eq!(
        AddressValue::from_operand(InstructionCode::LDA, Some(op)),
        AddressValue::ZeroPageX(ShortOperand::Numeric(0x10))
    );

    let op = parsed_operand(Rule::indexed_addresser, "$10,Y");
    assert_eq!(
        AddressValue::from_operand(InstructionCode::LDA, Some(op)),
        AddressValue::ZeroPageY(ShortOperand::Numeric(0x10))
    );
}

#[test]
fn test_from_indirect_addresser() {
    let op = parsed_operand(Rule::indirect_addresser, "($1234)");
    match op {
        ratsembler_6502::syntax::OperandNode::Indirect(lo) => {
            assert_eq!(lo, LongOperand::Numeric(0x1234));
        }
        other => panic!("expected an indirect operand, got {:?}", other),
    }

    let op = parsed_operand(Rule::indirect_addresser, "(label)");
    match op {
        ratsembler_6502::syntax::OperandNode::Indirect(lo) => {
            assert_eq!(lo, LongOperand::Label("label".into()));
        }
        other => panic!("expected an indirect operand, got {:?}", other),
    }
}

#[test]
fn test_expression_from_expression_pair() {
    let node = match Assembler6502Parser::parse(Rule::expression, "LDA #$10") {
        Ok(ParsedItem::Expression(node)) => node,
        other => panic!("expected an expression, got {:?}", other),
    };
    let (labels, expression) = Expression::from_node(node).unwrap();
    assert!(labels.is_empty());
    assert_eq!(expression.operator, InstructionCode::LDA);
    assert_eq!(
        expression.operand,
        AddressValue::Immediate(ShortOperand::Numeric(0x10))
    );

    let node = match Assembler6502Parser::parse(Rule::expression, "label: LDA $10,X") {
        Ok(ParsedItem::Expression(node)) => node,
        other => panic!("expected an expression, got {:?}", other),
    };
    let (labels, expression) = Expression::from_node(node).unwrap();
    assert_eq!(labels, vec!["label".to_string()]);
    assert_eq!(expression.operator, InstructionCode::LDA);
    assert_eq!(
        expression.operand,
        AddressValue::ZeroPageX(ShortOperand::Numeric(0x10))
    );
}
