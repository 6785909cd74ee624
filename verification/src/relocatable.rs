use crate::ast::AddressValue;
use crate::ast::Expression;
use crate::ast::LongOperand;
use crate::ast::MAX_SECTION_SIZE;
use crate::ast::Program;
use crate::ast::ShortOperand;
use crate::ast::section_len;
use crate::ast::spec_lookup;
use crate::error::AsmError;
use crate::instruction::spec_opcode;
use vstd::prelude::*;

verus! {

/// What a symbol resolves to.
#[derive(Debug, Clone, PartialEq, Eq)]
pub enum Symbol {
    /// A byte address inside the assembled section.
    Location(usize),
    /// A resolved one-byte value.
    ShortValue(u8),
    /// A resolved two-byte value.
    LongValue(u16),
}

/// A deferred patch: a symbol name, the byte offset of the first operand
/// byte it patches, and the patch kind the linker needs.
///
/// The kind is chosen by the addressing-mode category of the referencing
/// operand, not merely by byte width: `Absolute` and `Long` share a width
/// but differ in meaning (indirect pointer slot versus plain absolute).
#[derive(Debug, Clone, PartialEq, Eq)]
pub enum Relocation {
    /// Two-byte little-endian patch of an indirect pointer slot.
    Absolute(String, u16),
    /// One-byte signed branch displacement.
    Relative(String, u16),
    /// One-byte absolute patch (zero-page, indexed and indirect-indexed
    /// contexts).
    Short(String, u16),
    /// Two-byte little-endian absolute patch.
    Long(String, u16),
}

/// The two's-complement byte of a branch displacement in `[-128, 127]`.
pub open spec fn spec_disp_byte(disp: int) -> u8 {
    if disp >= 0 {
        disp as u8
    } else {
        (disp + 256) as u8
    }
}

/// The emitted bytes of a one-byte operand: the value, or a placeholder for
/// a symbol to be patched later.
pub open spec fn spec_short_bytes(so: ShortOperand) -> Seq<u8> {
    match so {
        ShortOperand::Numeric(v) => seq![v],
        ShortOperand::Label(_) => seq![0xFFu8],
    }
}

/// The emitted bytes of a two-byte operand, little-endian: the value, or a
/// two-byte placeholder for a symbol.
pub open spec fn spec_long_bytes(lo: LongOperand) -> Seq<u8> {
    match lo {
        LongOperand::Numeric(v) => seq![(v & 0xFF) as u8, (v >> 8) as u8],
        LongOperand::Label(_) => seq![0xFFu8, 0xFFu8],
    }
}

/// The operand bytes of one instruction, given the address of the byte
/// following the instruction and the symbol table.
///
/// Every operand kind but `Relative` is emitted independently of the symbol
/// table: values inline, symbols as placeholders. A `Relative` symbol that
/// the table resolves becomes a concrete signed displacement, measured from
/// the byte following the branch instruction; a displacement outside
/// `[-128, 127]` is a hard error, never a truncated byte. A `Relative`
/// symbol not in the table is left as a placeholder for the relocation
/// record.
pub open spec fn spec_operand_bytes(
    av: AddressValue,
    next: int,
    labels: Seq<(String, usize)>,
) -> Result<Seq<u8>, AsmError> {
    match av {
        AddressValue::Accumulator => Ok(Seq::empty()),
        AddressValue::Implied => Ok(Seq::empty()),
        AddressValue::Immediate(so) => Ok(spec_short_bytes(so)),
        AddressValue::ZeroPage(so) => Ok(spec_short_bytes(so)),
        AddressValue::ZeroPageX(so) => Ok(spec_short_bytes(so)),
        AddressValue::ZeroPageY(so) => Ok(spec_short_bytes(so)),
        AddressValue::IndexedIndirect(so) => Ok(spec_short_bytes(so)),
        AddressValue::IndirectIndexed(so) => Ok(spec_short_bytes(so)),
        AddressValue::Absolute(lo) => Ok(spec_long_bytes(lo)),
        AddressValue::AbsoluteX(lo) => Ok(spec_long_bytes(lo)),
        AddressValue::AbsoluteY(lo) => Ok(spec_long_bytes(lo)),
        AddressValue::AbsoluteIndirect(lo) => Ok(spec_long_bytes(lo)),
        AddressValue::Relative(so) => match so {
            ShortOperand::Numeric(v) => Ok(seq![v]),
            ShortOperand::Label(l) => match spec_lookup(labels, l@) {
                None => Ok(seq![0xFFu8]),
                Some(target) => if -128 <= target - next && target - next <= 127 {
                    Ok(seq![spec_disp_byte(target - next)])
                } else {
                    Err(AsmError::BranchOutOfRange(l))
                },
            },
        },
    }
}

/// The full byte image of one instruction placed at `addr`: its opcode —
/// absent for an illegal (mnemonic, mode) pair — followed by its operand
/// bytes.
pub open spec fn spec_expr_bytes(
    e: Expression,
    addr: int,
    labels: Seq<(String, usize)>,
) -> Result<Seq<u8>, AsmError> {
    match spec_opcode(e.operator, e.operand.spec_indexer()) {
        None => Err(AsmError::UnsupportedEncoding),
        Some(op) => match spec_operand_bytes(e.operand, addr + e.spec_size(), labels) {
            Err(err) => Err(err),
            Ok(bs) => Ok(seq![op] + bs),
        },
    }
}

/// The byte image of a whole section: each instruction's bytes in order,
/// each instruction placed at the sum of the lengths of its predecessors.
/// An instruction that would end past the 16-bit address space stops the
/// emission.
pub open spec fn spec_section_bytes(
    exprs: Seq<Expression>,
    labels: Seq<(String, usize)>,
) -> Result<Seq<u8>, AsmError>
    decreases exprs.len(),
{
    if exprs.len() == 0 {
        Ok(Seq::empty())
    } else {
        match spec_section_bytes(exprs.drop_last(), labels) {
            Err(e) => Err(e),
            Ok(bs) => {
                let addr = section_len(exprs.drop_last());
                if addr + exprs.last().spec_size() > MAX_SECTION_SIZE {
                    Err(AsmError::SectionTooLarge)
                } else {
                    match spec_expr_bytes(exprs.last(), addr, labels) {
                        Err(e) => Err(e),
                        Ok(eb) => Ok(bs + eb),
                    }
                }
            },
        }
    }
}

/// The relocation record of one instruction whose operand names a symbol:
/// the name, the offset of the first operand byte, and the kind matching
/// the addressing-mode category. Numeric operands and operand-free modes
/// need none.
pub open spec fn spec_reloc_of(e: Expression, offset: int) -> Option<Relocation> {
    match e.operand {
        AddressValue::Immediate(ShortOperand::Label(l)) => Some(
            Relocation::Short(l, offset as u16),
        ),
        AddressValue::ZeroPage(ShortOperand::Label(l)) => Some(
            Relocation::Short(l, offset as u16),
        ),
        AddressValue::ZeroPageX(ShortOperand::Label(l)) => Some(
            Relocation::Short(l, offset as u16),
        ),
        AddressValue::ZeroPageY(ShortOperand::Label(l)) => Some(
            Relocation::Short(l, offset as u16),
        ),
        AddressValue::IndexedIndirect(ShortOperand::Label(l)) => Some(
            Relocation::Short(l, offset as u16),
        ),
        AddressValue::IndirectIndexed(ShortOperand::Label(l)) => Some(
            Relocation::Short(l, offset as u16),
        ),
        AddressValue::Absolute(LongOperand::Label(l)) => Some(Relocation::Long(l, offset as u16)),
        AddressValue::AbsoluteX(LongOperand::Label(l)) => Some(Relocation::Long(l, offset as u16)),
        AddressValue::AbsoluteY(LongOperand::Label(l)) => Some(Relocation::Long(l, offset as u16)),
        AddressValue::Relative(ShortOperand::Label(l)) => Some(
            Relocation::Relative(l, offset as u16),
        ),
        AddressValue::AbsoluteIndirect(LongOperand::Label(l)) => Some(
            Relocation::Absolute(l, offset as u16),
        ),
        _ => None,
    }
}

/// The ordered relocation list of a whole section: one record per
/// symbol-referencing operand, in instruction order, each offset pointing
/// at the instruction's first operand byte.
pub open spec fn spec_relocations(exprs: Seq<Expression>) -> Result<Seq<Relocation>, AsmError>
    decreases exprs.len(),
{
    if exprs.len() == 0 {
        Ok(Seq::empty())
    } else {
        match spec_relocations(exprs.drop_last()) {
            Err(e) => Err(e),
            Ok(rs) => {
                let addr = section_len(exprs.drop_last());
                if addr + exprs.last().spec_size() > MAX_SECTION_SIZE {
                    Err(AsmError::SectionTooLarge)
                } else {
                    match spec_reloc_of(exprs.last(), addr + 1) {
                        None => Ok(rs),
                        Some(rel) => Ok(rs.push(rel)),
                    }
                }
            },
        }
    }
}

proof fn lemma_section_bytes_err_prefix(
    exprs: Seq<Expression>,
    labels: Seq<(String, usize)>,
    i: int,
)
    requires
        0 <= i <= exprs.len(),
        spec_section_bytes(exprs.take(i), labels) is Err,
    ensures
        spec_section_bytes(exprs, labels) == spec_section_bytes(exprs.take(i), labels),
    decreases exprs.len(),
{
    if i < exprs.len() {
        let pre = exprs.drop_last();
        assert(pre.take(i) =~= exprs.take(i));
        lemma_section_bytes_err_prefix(pre, labels, i);
    } else {
        assert(exprs.take(i) =~= exprs);
    }
}

proof fn lemma_relocations_err_prefix(exprs: Seq<Expression>, i: int)
    requires
        0 <= i <= exprs.len(),
        spec_relocations(exprs.take(i)) is Err,
    ensures
        spec_relocations(exprs) == spec_relocations(exprs.take(i)),
    decreases exprs.len(),
{
    if i < exprs.len() {
        let pre = exprs.drop_last();
        assert(pre.take(i) =~= exprs.take(i));
        lemma_relocations_err_prefix(pre, i);
    } else {
        assert(exprs.take(i) =~= exprs);
    }
}

/// Emits the operand bytes of one instruction onto `acc`.
#[verifier::loop_isolation(false)]
fn push_operand_bytes(
    acc: &mut Vec<u8>,
    av: &AddressValue,
    next: usize,
    labels: &Vec<(String, usize)>,
) -> (r: Result<(), AsmError>)
    ensures
        match spec_operand_bytes(*av, next as int, labels@) {
            Ok(bs) => r == Ok::<(), AsmError>(()) && final(acc)@ == old(acc)@ + bs,
            Err(e) => r == Err::<(), AsmError>(e),
        },
{
    match av {
        AddressValue::Accumulator | AddressValue::Implied => {
            assert(acc@ =~= old(acc)@ + Seq::<u8>::empty());
        },
        AddressValue::Immediate(so) | AddressValue::ZeroPage(so) | AddressValue::ZeroPageX(so)
            | AddressValue::ZeroPageY(so) | AddressValue::IndexedIndirect(so)
            | AddressValue::IndirectIndexed(so) => {
            match so {
                ShortOperand::Numeric(v) => acc.push(*v),
                ShortOperand::Label(_) => acc.push(0xFF),
            }
            assert(acc@ =~= old(acc)@ + spec_short_bytes(*so));
        },
        AddressValue::Absolute(lo) | AddressValue::AbsoluteX(lo) | AddressValue::AbsoluteY(lo)
            | AddressValue::AbsoluteIndirect(lo) => {
            match lo {
                LongOperand::Numeric(v) => {
                    acc.push((*v & 0xFF) as u8);
                    acc.push((*v >> 8) as u8);
                },
                LongOperand::Label(_) => {
                    acc.push(0xFF);
                    acc.push(0xFF);
                },
            }
            assert(acc@ =~= old(acc)@ + spec_long_bytes(*lo));
        },
        AddressValue::Relative(so) => {
            match so {
                ShortOperand::Numeric(v) => {
                    acc.push(*v);
                },
                ShortOperand::Label(l) => {
                    match crate::ast::lookup_label(labels, l) {
                        None => {
                            acc.push(0xFF);
                        },
                        Some(target) => {
                            let in_range: bool = if target >= next {
                                target - next <= 127
                            } else {
                                next - target <= 128
                            };
                            if !in_range {
                                return Err(AsmError::BranchOutOfRange(l.clone()));
                            }
                            let b: u8 = if target >= next {
                                (target - next) as u8
                            } else {
                                (256 - (next - target)) as u8
                            };
                            acc.push(b);
                        },
                    }
                },
            }
            assert(spec_operand_bytes(*av, next as int, labels@) matches Ok(bs) ==> acc@ =~= old(
                acc,
            )@ + bs);
        },
    }
    Ok(())
}

impl Program {
    /// Serializes the section: each instruction's opcode byte followed by
    /// its operand bytes. Numeric operands are emitted inline (little-endian
    /// where two bytes wide); symbol operands become `0xFF` placeholder
    /// bytes, deliberately not looked up, so that byte emission and
    /// relocation generation stay two independently checkable passes — with
    /// the one exception of resolved branch targets, which become concrete
    /// signed displacements and fail with `BranchOutOfRange` rather than
    /// wrap.
    #[verifier::loop_isolation(false)]
    pub fn get_raw_section(&self) -> (r: Result<Vec<u8>, AsmError>)
        ensures
            match spec_section_bytes(self.expressions@, self.labels@) {
                Ok(bs) => r matches Ok(v) && v@ == bs,
                Err(e) => r == Err::<Vec<u8>, AsmError>(e),
            },
    {
        let mut acc: Vec<u8> = Vec::new();
        let mut cursor: usize = 0;
        let mut i: usize = 0;
        assert(self.expressions@.take(0) =~= Seq::<Expression>::empty());
        while i < self.expressions.len()
            invariant
                i <= self.expressions@.len(),
                cursor == section_len(self.expressions@.take(i as int)),
                cursor <= MAX_SECTION_SIZE,
                spec_section_bytes(self.expressions@.take(i as int), self.labels@) == Ok::<
                    Seq<u8>,
                    AsmError,
                >(acc@),
            decreases self.expressions@.len() - i,
        {
            proof {
                assert(self.expressions@.take(i as int + 1).drop_last() =~= self.expressions@.take(
                    i as int,
                ));
            }
            let e = &self.expressions[i];
            let ghost acc_pre = acc@;
            let size = e.get_size();
            if cursor > MAX_SECTION_SIZE - size {
                proof {
                    lemma_section_bytes_err_prefix(self.expressions@, self.labels@, i as int + 1);
                }
                return Err(AsmError::SectionTooLarge);
            }
            let op = match e.get_code() {
                Err(err) => {
                    proof {
                        lemma_section_bytes_err_prefix(
                            self.expressions@,
                            self.labels@,
                            i as int + 1,
                        );
                    }
                    return Err(err);
                },
                Ok(op) => op,
            };
            acc.push(op);
            match push_operand_bytes(&mut acc, &e.operand, cursor + size, &self.labels) {
                Err(err) => {
                    proof {
                        lemma_section_bytes_err_prefix(
                            self.expressions@,
                            self.labels@,
                            i as int + 1,
                        );
                    }
                    return Err(err);
                },
                Ok(()) => {},
            }
            proof {
                let ob = spec_operand_bytes(
                    e.operand,
                    cursor + size,
                    self.labels@,
                )->Ok_0;
                assert(acc@ =~= acc_pre + (seq![op] + ob));
            }
            cursor = cursor + size;
            i = i + 1;
        }
        proof {
            assert(self.expressions@.take(i as int) =~= self.expressions@);
        }
        Ok(acc)
    }

    /// Collects one relocation record per symbol-referencing operand, in
    /// order: the symbol name, the byte offset of the instruction's first
    /// operand byte (its address plus one opcode byte), and the kind of the
    /// operand's addressing-mode category.
    #[verifier::loop_isolation(false)]
    pub fn get_relocations(&self) -> (r: Result<Vec<Relocation>, AsmError>)
        ensures
            match spec_relocations(self.expressions@) {
                Ok(rs) => r matches Ok(v) && v@ == rs,
                Err(e) => r == Err::<Vec<Relocation>, AsmError>(e),
            },
    {
        let mut acc: Vec<Relocation> = Vec::new();
        let mut cursor: usize = 0;
        let mut i: usize = 0;
        assert(self.expressions@.take(0) =~= Seq::<Expression>::empty());
        while i < self.expressions.len()
            invariant
                i <= self.expressions@.len(),
                cursor == section_len(self.expressions@.take(i as int)),
                cursor <= MAX_SECTION_SIZE,
                spec_relocations(self.expressions@.take(i as int)) == Ok::<
                    Seq<Relocation>,
                    AsmError,
                >(acc@),
            decreases self.expressions@.len() - i,
        {
            proof {
                assert(self.expressions@.take(i as int + 1).drop_last() =~= self.expressions@.take(
                    i as int,
                ));
            }
            let e = &self.expressions[i];
            let size = e.get_size();
            if cursor > MAX_SECTION_SIZE - size {
                proof {
                    lemma_relocations_err_prefix(self.expressions@, i as int + 1);
                }
                return Err(AsmError::SectionTooLarge);
            }
            let offset = cursor + 1;
            match &e.operand {
                AddressValue::Immediate(ShortOperand::Label(l))
                    | AddressValue::ZeroPage(ShortOperand::Label(l))
                    | AddressValue::ZeroPageX(ShortOperand::Label(l))
                    | AddressValue::ZeroPageY(ShortOperand::Label(l))
                    | AddressValue::IndexedIndirect(ShortOperand::Label(l))
                    | AddressValue::IndirectIndexed(ShortOperand::Label(l)) => {
                    acc.push(Relocation::Short(l.clone(), offset as u16));
                },
                AddressValue::Absolute(LongOperand::Label(l))
                    | AddressValue::AbsoluteX(LongOperand::Label(l))
                    | AddressValue::AbsoluteY(LongOperand::Label(l)) => {
                    acc.push(Relocation::Long(l.clone(), offset as u16));
                },
                AddressValue::Relative(ShortOperand::Label(l)) => {
                    acc.push(Relocation::Relative(l.clone(), offset as u16));
                },
                AddressValue::AbsoluteIndirect(LongOperand::Label(l)) => {
                    acc.push(Relocation::Absolute(l.clone(), offset as u16));
                },
                _ => {},
            }
            cursor = cursor + size;
            i = i + 1;
        }
        proof {
            assert(self.expressions@.take(i as int) =~= self.expressions@);
        }
        Ok(acc)
    }

    /// The symbol table as a linker consumes it: each label name bound to
    /// its resolved location, in declaration order.
    #[verifier::loop_isolation(false)]
    pub fn get_symbols(&self) -> (r: Vec<(String, Symbol)>)
        ensures
            r@.len() == self.labels@.len(),
            forall|i: int|
                0 <= i < r@.len() ==> r@[i].0 == self.labels@[i].0 && r@[i].1 == Symbol::Location(
                    self.labels@[i].1,
                ),
    {
        let mut acc: Vec<(String, Symbol)> = Vec::new();
        let mut i: usize = 0;
        while i < self.labels.len()
            invariant
                i <= self.labels@.len(),
                acc@.len() == i,
                forall|j: int|
                    0 <= j < i ==> acc@[j].0 == self.labels@[j].0 && acc@[j].1 == Symbol::Location(
                        self.labels@[j].1,
                    ),
            decreases self.labels@.len() - i,
        {
            let name = self.labels[i].0.clone();
            let addr = self.labels[i].1;
            acc.push((name, Symbol::Location(addr)));
            i = i + 1;
        }
        acc
    }
}

/// What a built program exposes to a linker or object-file writer: the raw
/// section bytes, the relocation list, and the symbol table.
pub trait Relocatable {
    fn get_raw_section(&self) -> Result<Vec<u8>, AsmError>;

    fn get_relocations(&self) -> Result<Vec<Relocation>, AsmError>;

    fn get_symbols(&self) -> Vec<(String, Symbol)>;
}

impl Relocatable for Program {
    fn get_raw_section(&self) -> Result<Vec<u8>, AsmError> {
        Program::get_raw_section(self)
    }

    fn get_relocations(&self) -> Result<Vec<Relocation>, AsmError> {
        Program::get_relocations(self)
    }

    fn get_symbols(&self) -> Vec<(String, Symbol)> {
        Program::get_symbols(self)
    }
}

} // verus!
