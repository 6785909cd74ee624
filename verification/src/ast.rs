use crate::error::AsmError;
use crate::instruction::AddressModeIndexer;
use crate::instruction::InstructionCode;
use crate::instruction::code_of_name;
use crate::instruction::is_branch;
use crate::instruction::is_branch_instruction;
use crate::instruction::is_shift;
use crate::instruction::is_shift_instruction;
use crate::instruction::spec_operand_length;
use crate::syntax::ExpressionNode;
use crate::syntax::IndexRegister;
use crate::syntax::OperandNode;
use vstd::prelude::*;

verus! {

/// A one-byte operand: either resolved to a value or an as-yet-unresolved
/// symbol name.
#[derive(Debug, Clone, PartialEq, Eq, Hash)]
pub enum ShortOperand {
    Numeric(u8),
    Label(String),
}

/// A two-byte (little-endian) operand: resolved value or symbol name.
#[derive(Debug, Clone, PartialEq, Eq, Hash)]
pub enum LongOperand {
    Numeric(u16),
    Label(String),
}

/// An addressing mode together with its operand payload. The variant alone
/// determines the instruction's byte length; resolving a symbol never
/// changes it.
#[derive(Debug, Clone, PartialEq, Eq, Hash)]
pub enum AddressValue {
    Accumulator,
    Implied,
    Immediate(ShortOperand),
    Absolute(LongOperand),
    ZeroPage(ShortOperand),
    Relative(ShortOperand),
    /// Refers to a little-endian two-byte value stored at the given
    /// address. Only used by JMP.
    AbsoluteIndirect(LongOperand),
    AbsoluteX(LongOperand),
    AbsoluteY(LongOperand),
    ZeroPageX(ShortOperand),
    ZeroPageY(ShortOperand),
    /// `(zp,X)`
    IndexedIndirect(ShortOperand),
    /// `(zp),Y`
    IndirectIndexed(ShortOperand),
}

impl AddressValue {
    /// The addressing-mode category of this value, with the payload
    /// stripped away.
    pub open spec fn spec_indexer(&self) -> AddressModeIndexer {
        match self {
            AddressValue::Accumulator => AddressModeIndexer::ACCUMULATOR,
            AddressValue::Implied => AddressModeIndexer::IMPLIED,
            AddressValue::Immediate(_) => AddressModeIndexer::IMMEDIATE,
            AddressValue::Absolute(_) => AddressModeIndexer::ABSOLUTE,
            AddressValue::ZeroPage(_) => AddressModeIndexer::ZERO_PAGE,
            AddressValue::Relative(_) => AddressModeIndexer::RELATIVE,
            AddressValue::AbsoluteIndirect(_) => AddressModeIndexer::ABSOLUTE_INDIRECT,
            AddressValue::AbsoluteX(_) => AddressModeIndexer::ABS_X,
            AddressValue::AbsoluteY(_) => AddressModeIndexer::ABS_Y,
            AddressValue::ZeroPageX(_) => AddressModeIndexer::ZP_X,
            AddressValue::ZeroPageY(_) => AddressModeIndexer::ZP_Y,
            AddressValue::IndexedIndirect(_) => AddressModeIndexer::INDEX_IND,
            AddressValue::IndirectIndexed(_) => AddressModeIndexer::IND_INDEX,
        }
    }

    /// The full instruction length in bytes: one opcode byte plus the
    /// operand bytes of the mode.
    pub open spec fn spec_size(&self) -> nat {
        1 + spec_operand_length(self.spec_indexer())
    }

    /// Strips the operand payload, leaving the addressing-mode category.
    pub fn to_indexer(&self) -> (r: AddressModeIndexer)
        ensures
            r == self.spec_indexer(),
    {
        match self {
            AddressValue::Accumulator => AddressModeIndexer::ACCUMULATOR,
            AddressValue::Implied => AddressModeIndexer::IMPLIED,
            AddressValue::Immediate(_) => AddressModeIndexer::IMMEDIATE,
            AddressValue::Absolute(_) => AddressModeIndexer::ABSOLUTE,
            AddressValue::ZeroPage(_) => AddressModeIndexer::ZERO_PAGE,
            AddressValue::Relative(_) => AddressModeIndexer::RELATIVE,
            AddressValue::AbsoluteIndirect(_) => AddressModeIndexer::ABSOLUTE_INDIRECT,
            AddressValue::AbsoluteX(_) => AddressModeIndexer::ABS_X,
            AddressValue::AbsoluteY(_) => AddressModeIndexer::ABS_Y,
            AddressValue::ZeroPageX(_) => AddressModeIndexer::ZP_X,
            AddressValue::ZeroPageY(_) => AddressModeIndexer::ZP_Y,
            AddressValue::IndexedIndirect(_) => AddressModeIndexer::INDEX_IND,
            AddressValue::IndirectIndexed(_) => AddressModeIndexer::IND_INDEX,
        }
    }

    /// The instruction length in bytes (1, 2 or 3): a pure function of the
    /// addressing-mode variant, independent of the wrapped value.
    pub fn get_size(&self) -> (r: usize)
        ensures
            r == self.spec_size(),
    {
        match self {
            AddressValue::Accumulator => 1,
            AddressValue::Implied => 1,
            AddressValue::Immediate(_) => 2,
            AddressValue::Absolute(_) => 3,
            AddressValue::ZeroPage(_) => 2,
            AddressValue::Relative(_) => 2,
            AddressValue::AbsoluteIndirect(_) => 3,
            AddressValue::AbsoluteX(_) => 3,
            AddressValue::AbsoluteY(_) => 3,
            AddressValue::ZeroPageX(_) => 2,
            AddressValue::ZeroPageY(_) => 2,
            AddressValue::IndexedIndirect(_) => 2,
            AddressValue::IndirectIndexed(_) => 2,
        }
    }
}

/// One assembled instruction: a mnemonic and its addressing mode.
#[derive(Debug, Clone, PartialEq, Eq)]
pub struct Expression {
    pub operator: InstructionCode,
    pub operand: AddressValue,
}

impl Expression {
    /// The instruction length in bytes.
    pub open spec fn spec_size(&self) -> nat {
        self.operand.spec_size()
    }

    /// Resolves this instruction's opcode byte, failing when the CPU has no
    /// encoding for the (mnemonic, mode) pair.
    pub fn get_code(&self) -> (r: Result<u8, crate::error::AsmError>)
        ensures
            crate::instruction::spec_opcode(self.operator, self.operand.spec_indexer())
                matches Some(b) ==> r == Ok::<u8, crate::error::AsmError>(b),
            crate::instruction::spec_opcode(self.operator, self.operand.spec_indexer())
                is None ==> r == Err::<u8, crate::error::AsmError>(
                crate::error::AsmError::UnsupportedEncoding,
            ),
    {
        crate::instruction::encode(self.operator, self.operand.to_indexer())
    }

    /// The instruction length in bytes.
    pub fn get_size(&self) -> (r: usize)
        ensures
            r == self.spec_size(),
    {
        self.operand.get_size()
    }
}

/// The addressing-mode disambiguation rules: how one operand's surface form,
/// together with the mnemonic, selects the addressing mode.
///
/// - no operand: Accumulator for the shift/rotate family, else Implied;
/// - bare one-byte value or any bare symbol used by a conditional branch:
///   Relative; other bare one-byte values: ZeroPage;
/// - bare two-byte value, or a bare symbol elsewhere: Absolute;
/// - trailing index marker: ZeroPageX/Y for one-byte values and symbols,
///   AbsoluteX/Y for two-byte values;
/// - parenthesized: AbsoluteIndirect, or IndexedIndirect / IndirectIndexed
///   when the index marker sits inside / outside the parentheses;
/// - immediate marker: Immediate.
pub open spec fn spec_mode_of(code: InstructionCode, operand: Option<OperandNode>) -> AddressValue {
    match operand {
        None => if is_shift(code) {
            AddressValue::Accumulator
        } else {
            AddressValue::Implied
        },
        Some(op) => match op {
            OperandNode::ShortLiteral(v) => if is_branch(code) {
                AddressValue::Relative(ShortOperand::Numeric(v))
            } else {
                AddressValue::ZeroPage(ShortOperand::Numeric(v))
            },
            OperandNode::LongLiteral(v) => AddressValue::Absolute(LongOperand::Numeric(v)),
            OperandNode::LabelRef(s) => if is_branch(code) {
                AddressValue::Relative(ShortOperand::Label(s))
            } else {
                AddressValue::Absolute(LongOperand::Label(s))
            },
            OperandNode::Immediate(v) => AddressValue::Immediate(ShortOperand::Numeric(v)),
            OperandNode::IndexedShort(so, IndexRegister::X) => AddressValue::ZeroPageX(so),
            OperandNode::IndexedShort(so, IndexRegister::Y) => AddressValue::ZeroPageY(so),
            OperandNode::IndexedLong(v, IndexRegister::X) => AddressValue::AbsoluteX(
                LongOperand::Numeric(v),
            ),
            OperandNode::IndexedLong(v, IndexRegister::Y) => AddressValue::AbsoluteY(
                LongOperand::Numeric(v),
            ),
            OperandNode::Indirect(lo) => AddressValue::AbsoluteIndirect(lo),
            OperandNode::IndexedIndirect(so) => AddressValue::IndexedIndirect(so),
            OperandNode::IndirectIndexed(so) => AddressValue::IndirectIndexed(so),
        },
    }
}

impl AddressValue {
    /// Applies the addressing-mode disambiguation rules to one parsed
    /// operand (or its absence).
    pub fn from_operand(code: InstructionCode, operand: Option<OperandNode>) -> (r: AddressValue)
        ensures
            r == spec_mode_of(code, operand),
    {
        match operand {
            None => if is_shift_instruction(code) {
                AddressValue::Accumulator
            } else {
                AddressValue::Implied
            },
            Some(op) => match op {
                OperandNode::ShortLiteral(v) => if is_branch_instruction(code) {
                    AddressValue::Relative(ShortOperand::Numeric(v))
                } else {
                    AddressValue::ZeroPage(ShortOperand::Numeric(v))
                },
                OperandNode::LongLiteral(v) => AddressValue::Absolute(LongOperand::Numeric(v)),
                OperandNode::LabelRef(s) => if is_branch_instruction(code) {
                    AddressValue::Relative(ShortOperand::Label(s))
                } else {
                    AddressValue::Absolute(LongOperand::Label(s))
                },
                OperandNode::Immediate(v) => AddressValue::Immediate(ShortOperand::Numeric(v)),
                OperandNode::IndexedShort(so, IndexRegister::X) => AddressValue::ZeroPageX(so),
                OperandNode::IndexedShort(so, IndexRegister::Y) => AddressValue::ZeroPageY(so),
                OperandNode::IndexedLong(v, IndexRegister::X) => AddressValue::AbsoluteX(
                    LongOperand::Numeric(v),
                ),
                OperandNode::IndexedLong(v, IndexRegister::Y) => AddressValue::AbsoluteY(
                    LongOperand::Numeric(v),
                ),
                OperandNode::Indirect(lo) => AddressValue::AbsoluteIndirect(lo),
                OperandNode::IndexedIndirect(so) => AddressValue::IndexedIndirect(so),
                OperandNode::IndirectIndexed(so) => AddressValue::IndirectIndexed(so),
            },
        }
    }
}

impl Expression {
    /// Builds one instruction from a syntax node: resolves the mnemonic
    /// against the closed instruction set and applies the addressing-mode
    /// disambiguation rules. Returns the node's label declarations unchanged,
    /// in order, together with the instruction.
    pub fn from_node(node: ExpressionNode) -> (r: Result<(Vec<String>, Expression), AsmError>)
        ensures
            match code_of_name(node.mnemonic@) {
                None => r == Err::<(Vec<String>, Expression), AsmError>(
                    AsmError::UnknownMnemonic(node.mnemonic),
                ),
                Some(c) => r == Ok::<(Vec<String>, Expression), AsmError>(
                    (
                        node.labels,
                        Expression { operator: c, operand: spec_mode_of(c, node.operand) },
                    ),
                ),
            },
    {
        let ExpressionNode { labels, mnemonic, operand } = node;
        match InstructionCode::from_name(mnemonic.as_str()) {
            None => Err(AsmError::UnknownMnemonic(mnemonic)),
            Some(code) => Ok(
                (labels, Expression { operator: code, operand: AddressValue::from_operand(code, operand) }),
            ),
        }
    }
}

/// The size of the assembled section: one opcode byte plus the operand bytes
/// of each instruction, in order.
pub open spec fn section_len(exprs: Seq<Expression>) -> int
    decreases exprs.len(),
{
    if exprs.len() == 0 {
        0
    } else {
        section_len(exprs.drop_last()) + exprs.last().spec_size()
    }
}

/// The largest section the 16-bit address space can hold.
pub const MAX_SECTION_SIZE: usize = 0x10000;

/// First-match lookup of a label name (by text) in a symbol table.
pub open spec fn spec_lookup(labels: Seq<(String, usize)>, name: Seq<char>) -> Option<usize>
    decreases labels.len(),
{
    if labels.len() == 0 {
        None
    } else if labels[0].0@ == name {
        Some(labels[0].1)
    } else {
        spec_lookup(labels.drop_first(), name)
    }
}

/// Whether a symbol table already has an entry for a name.
pub open spec fn spec_contains_label(labels: Seq<(String, usize)>, name: Seq<char>) -> bool {
    spec_lookup(labels, name) is Some
}

/// Declares a list of labels at one address, in order; a name that is
/// already present is a duplicate declaration and fails.
pub open spec fn spec_insert_labels(
    labels: Seq<(String, usize)>,
    new: Seq<String>,
    addr: usize,
) -> Result<Seq<(String, usize)>, AsmError>
    decreases new.len(),
{
    if new.len() == 0 {
        Ok(labels)
    } else if spec_contains_label(labels, new[0]@) {
        Err(AsmError::DuplicateLabel(new[0]))
    } else {
        spec_insert_labels(labels.push((new[0], addr)), new.drop_first(), addr)
    }
}

/// One step of the build pass: resolve the node's mnemonic, declare its
/// labels at the current cursor (the section length so far), pick the
/// addressing mode, and append the instruction — or fail, in that order,
/// with `UnknownMnemonic`, `DuplicateLabel` or `SectionTooLarge`.
pub open spec fn spec_add_node(
    exprs: Seq<Expression>,
    labels: Seq<(String, usize)>,
    node: ExpressionNode,
) -> Result<(Seq<Expression>, Seq<(String, usize)>), AsmError> {
    match code_of_name(node.mnemonic@) {
        None => Err(AsmError::UnknownMnemonic(node.mnemonic)),
        Some(code) => {
            let cursor = section_len(exprs);
            match spec_insert_labels(labels, node.labels@, cursor as usize) {
                Err(e) => Err(e),
                Ok(labels2) => {
                    let e = Expression { operator: code, operand: spec_mode_of(code, node.operand) };
                    if cursor + e.spec_size() > MAX_SECTION_SIZE {
                        Err(AsmError::SectionTooLarge)
                    } else {
                        Ok((exprs.push(e), labels2))
                    }
                },
            }
        },
    }
}

/// The build pass over the remaining nodes, starting from an intermediate
/// state.
pub open spec fn spec_build_from(
    exprs: Seq<Expression>,
    labels: Seq<(String, usize)>,
    rest: Seq<ExpressionNode>,
) -> Result<(Seq<Expression>, Seq<(String, usize)>), AsmError>
    decreases rest.len(),
{
    if rest.len() == 0 {
        Ok((exprs, labels))
    } else {
        match spec_add_node(exprs, labels, rest[0]) {
            Err(e) => Err(e),
            Ok(next) => spec_build_from(next.0, next.1, rest.drop_first()),
        }
    }
}

/// The whole single build pass: what `Program::from_nodes` returns.
pub open spec fn spec_build(nodes: Seq<ExpressionNode>) -> Result<
    (Seq<Expression>, Seq<(String, usize)>),
    AsmError,
> {
    spec_build_from(Seq::empty(), Seq::empty(), nodes)
}

/// A built program: the ordered instructions and the symbol table mapping
/// each label name to the byte address of the instruction it precedes.
#[derive(Debug, Clone, PartialEq, Eq)]
pub struct Program {
    pub expressions: Vec<Expression>,
    pub labels: Vec<(String, usize)>,
}

proof fn lemma_section_len_push(exprs: Seq<Expression>, e: Expression)
    ensures
        section_len(exprs.push(e)) == section_len(exprs) + e.spec_size(),
{
    assert(exprs.push(e).drop_last() =~= exprs);
}

/// First-match lookup of a name in a symbol table under construction.
#[verifier::loop_isolation(false)]
pub(crate) fn lookup_label(labels: &Vec<(String, usize)>, name: &String) -> (r: Option<usize>)
    ensures
        r == spec_lookup(labels@, name@),
{
    let mut i: usize = 0;
    assert(labels@.skip(0) =~= labels@);
    while i < labels.len()
        invariant
            i <= labels@.len(),
            spec_lookup(labels@, name@) == spec_lookup(labels@.skip(i as int), name@),
        decreases labels@.len() - i,
    {
        assert(labels@.skip(i as int)[0] == labels@[i as int]);
        if labels[i].0 == *name {
            return Some(labels[i].1);
        }
        assert(labels@.skip(i as int).drop_first() =~= labels@.skip(i as int + 1));
        i += 1;
    }
    None
}

/// Appends one node's instruction to a program under construction and
/// declares the node's labels at the current cursor.
#[verifier::loop_isolation(false)]
fn add_node(
    expressions: &mut Vec<Expression>,
    labels: &mut Vec<(String, usize)>,
    cursor: &mut usize,
    node: ExpressionNode,
) -> (r: Result<(), AsmError>)
    requires
        *old(cursor) == section_len(old(expressions)@),
        *old(cursor) <= MAX_SECTION_SIZE,
    ensures
        *final(cursor) == section_len(final(expressions)@),
        *final(cursor) <= MAX_SECTION_SIZE,
        match spec_add_node(old(expressions)@, old(labels)@, node) {
            Ok(next) => r == Ok::<(), AsmError>(())
                && final(expressions)@ == next.0
                && final(labels)@ == next.1,
            Err(e) => r == Err::<(), AsmError>(e),
        },
{
    let ghost gnode = node;
    let (mut new_labels, expression) = match Expression::from_node(node) {
        Err(e) => {
            return Err(e);
        },
        Ok(built) => built,
    };
    let ghost labels0 = labels@;
    let ghost cur0 = *cursor;
    while new_labels.len() > 0
        invariant
            spec_insert_labels(labels0, gnode.labels@, cur0) == spec_insert_labels(
                labels@,
                new_labels@,
                cur0,
            ),
            *cursor == cur0,
        decreases new_labels@.len(),
    {
        let ghost new_pre = new_labels@;
        let name = new_labels.remove(0);
        assert(new_labels@ =~= new_pre.drop_first());
        if lookup_label(&labels, &name).is_some() {
            return Err(AsmError::DuplicateLabel(name));
        }
        labels.push((name, *cursor));
    }
    let size = expression.get_size();
    if *cursor > MAX_SECTION_SIZE - size {
        return Err(AsmError::SectionTooLarge);
    }
    proof {
        lemma_section_len_push(expressions@, expression);
    }
    expressions.push(expression);
    *cursor = *cursor + size;
    Ok(())
}

impl Program {
    /// Assembles an ordered sequence of syntax nodes in one linear pass:
    /// each node's instruction is appended, each of its labels is declared
    /// at the running byte cursor, and the cursor advances by the
    /// instruction's length. Fails with `UnknownMnemonic` on a mnemonic
    /// outside the instruction set, `DuplicateLabel` on a label declared
    /// twice, and `SectionTooLarge` when the section would outgrow the
    /// 16-bit address space — whichever comes first.
    #[verifier::loop_isolation(false)]
    pub fn from_nodes(nodes: Vec<ExpressionNode>) -> (r: Result<Program, AsmError>)
        ensures
            match spec_build(nodes@) {
                Ok(built) => r matches Ok(p) && p.expressions@ == built.0 && p.labels@ == built.1,
                Err(e) => r == Err::<Program, AsmError>(e),
            },
    {
        let ghost all = nodes@;
        let mut rest = nodes;
        let mut expressions: Vec<Expression> = Vec::new();
        let mut labels: Vec<(String, usize)> = Vec::new();
        let mut cursor: usize = 0;
        while rest.len() > 0
            invariant
                cursor == section_len(expressions@),
                cursor <= MAX_SECTION_SIZE,
                spec_build_from(expressions@, labels@, rest@) == spec_build(all),
            decreases rest@.len(),
        {
            let ghost rest_pre = rest@;
            let ghost exprs0 = expressions@;
            let ghost labels0 = labels@;
            let node = rest.remove(0);
            let ghost gnode = node;
            assert(rest@ =~= rest_pre.drop_first());
            match add_node(&mut expressions, &mut labels, &mut cursor, node) {
                Err(e) => {
                    assert(spec_build_from(exprs0, labels0, rest_pre) == Err::<
                        (Seq<Expression>, Seq<(String, usize)>),
                        AsmError,
                    >(e));
                    return Err(e);
                },
                Ok(()) => {},
            }
        }
        Ok(Program { expressions, labels })
    }

    /// Resolves a label name against this program's symbol table.
    pub fn lookup_symbol(&self, name: &String) -> (r: Option<usize>)
        ensures
            r == spec_lookup(self.labels@, name@),
    {
        lookup_label(&self.labels, name)
    }
}

} // verus!
