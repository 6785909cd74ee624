use crate::ast::AddressValue;
use crate::ast::Expression;
use crate::ast::LongOperand;
use crate::ast::ShortOperand;
use crate::ast::section_len;
use crate::ast::spec_build;
use crate::ast::spec_build_from;
use crate::ast::spec_insert_labels;
use crate::ast::spec_lookup;
use crate::ast::spec_mode_of;
use crate::instruction::code_of_name;
use crate::syntax::ExpressionNode;
use crate::error::AsmError;
use crate::relocatable::Relocation;
use crate::relocatable::spec_disp_byte;
use crate::relocatable::spec_expr_bytes;
use crate::relocatable::spec_reloc_of;
use crate::relocatable::spec_relocations;
use crate::relocatable::spec_section_bytes;
use vstd::prelude::*;

verus! {

/// The byte address of the `i`-th instruction: the summed lengths of its
/// predecessors.
pub open spec fn addr_of(exprs: Seq<Expression>, i: int) -> int {
    section_len(exprs.take(i))
}

/// The symbol name an operand references, if any.
pub open spec fn symbol_of(av: AddressValue) -> Option<String> {
    match av {
        AddressValue::Immediate(ShortOperand::Label(l)) => Some(l),
        AddressValue::ZeroPage(ShortOperand::Label(l)) => Some(l),
        AddressValue::ZeroPageX(ShortOperand::Label(l)) => Some(l),
        AddressValue::ZeroPageY(ShortOperand::Label(l)) => Some(l),
        AddressValue::IndexedIndirect(ShortOperand::Label(l)) => Some(l),
        AddressValue::IndirectIndexed(ShortOperand::Label(l)) => Some(l),
        AddressValue::Absolute(LongOperand::Label(l)) => Some(l),
        AddressValue::AbsoluteX(LongOperand::Label(l)) => Some(l),
        AddressValue::AbsoluteY(LongOperand::Label(l)) => Some(l),
        AddressValue::AbsoluteIndirect(LongOperand::Label(l)) => Some(l),
        AddressValue::Relative(ShortOperand::Label(l)) => Some(l),
        _ => None,
    }
}

/// The operand byte-length of an addressing-mode value depends on its
/// variant alone, never on whether the wrapped operand is a resolved value
/// or a symbol name.
pub proof fn lemma_operand_length_mode_only(a: AddressValue, b: AddressValue)
    requires
        a.spec_indexer() == b.spec_indexer(),
    ensures
        a.spec_size() == b.spec_size(),
{
}

/// A section is never shorter than nothing.
pub proof fn lemma_section_len_nonneg(exprs: Seq<Expression>)
    ensures
        section_len(exprs) >= 0,
    decreases exprs.len(),
{
    if exprs.len() > 0 {
        lemma_section_len_nonneg(exprs.drop_last());
    }
}

/// Instruction addresses advance by exactly the instruction's length.
pub proof fn lemma_addr_of_succ(exprs: Seq<Expression>, i: int)
    requires
        0 <= i < exprs.len(),
    ensures
        addr_of(exprs, i + 1) == addr_of(exprs, i) + exprs[i].spec_size(),
    decreases exprs.len(),
{
    assert(exprs.take(i + 1).drop_last() =~= exprs.take(i));
}

proof fn lemma_operand_bytes_len(
    av: AddressValue,
    next: int,
    labels: Seq<(String, usize)>,
)
    requires
        crate::relocatable::spec_operand_bytes(av, next, labels) is Ok,
    ensures
        crate::relocatable::spec_operand_bytes(av, next, labels)->Ok_0.len()
            == crate::instruction::spec_operand_length(av.spec_indexer()),
{
}

/// Raw emission succeeds with exactly `operand_length + 1` bytes per
/// instruction: the section's byte count is the sum of its instruction
/// lengths.
pub proof fn lemma_raw_bytes_length(
    exprs: Seq<Expression>,
    labels: Seq<(String, usize)>,
    bs: Seq<u8>,
)
    requires
        spec_section_bytes(exprs, labels) == Ok::<Seq<u8>, AsmError>(bs),
    ensures
        bs.len() == section_len(exprs),
    decreases exprs.len(),
{
    if exprs.len() > 0 {
        let pre = exprs.drop_last();
        let bs_pre = spec_section_bytes(pre, labels)->Ok_0;
        lemma_raw_bytes_length(pre, labels, bs_pre);
        let last = exprs.last();
        lemma_operand_bytes_len(last.operand, section_len(pre) + last.spec_size(), labels);
    }
}

/// The byte image of the `i`-th instruction sits exactly at its address
/// inside the section bytes.
pub proof fn lemma_section_bytes_at(
    exprs: Seq<Expression>,
    labels: Seq<(String, usize)>,
    bs: Seq<u8>,
    i: int,
)
    requires
        spec_section_bytes(exprs, labels) == Ok::<Seq<u8>, AsmError>(bs),
        0 <= i < exprs.len(),
    ensures
        0 <= addr_of(exprs, i),
        addr_of(exprs, i + 1) == addr_of(exprs, i) + exprs[i].spec_size(),
        addr_of(exprs, i + 1) <= bs.len(),
        spec_expr_bytes(exprs[i], addr_of(exprs, i), labels) is Ok,
        bs.subrange(addr_of(exprs, i), addr_of(exprs, i + 1)) == spec_expr_bytes(
            exprs[i],
            addr_of(exprs, i),
            labels,
        )->Ok_0,
    decreases exprs.len(),
{
    lemma_section_len_nonneg(exprs.take(i));
    lemma_addr_of_succ(exprs, i);
    lemma_raw_bytes_length(exprs, labels, bs);
    let pre = exprs.drop_last();
    let bs_pre = spec_section_bytes(pre, labels)->Ok_0;
    lemma_raw_bytes_length(pre, labels, bs_pre);
    let last = exprs.last();
    let eb = spec_expr_bytes(last, section_len(pre), labels)->Ok_0;
    assert(bs == bs_pre + eb);
    if i == exprs.len() - 1 {
        assert(exprs.take(i) =~= pre);
        assert(exprs.take(i + 1) =~= exprs);
        lemma_operand_bytes_len(last.operand, section_len(pre) + last.spec_size(), labels);
        assert(bs.subrange(addr_of(exprs, i), addr_of(exprs, i + 1)) =~= eb);
    } else {
        lemma_section_bytes_at(pre, labels, bs_pre, i);
        assert(pre.take(i) =~= exprs.take(i));
        assert(pre.take(i + 1) =~= exprs.take(i + 1));
        assert(bs.subrange(addr_of(exprs, i), addr_of(exprs, i + 1)) =~= bs_pre.subrange(
            addr_of(pre, i),
            addr_of(pre, i + 1),
        ));
    }
}

/// A branch whose target the symbol table resolves is emitted as a concrete
/// displacement, relative to the byte following the branch instruction, and
/// that displacement fits a signed byte — raw emission never silently wraps
/// an out-of-range branch.
pub proof fn lemma_resolved_branch_displacement(
    exprs: Seq<Expression>,
    labels: Seq<(String, usize)>,
    bs: Seq<u8>,
    i: int,
    l: String,
    target: usize,
)
    requires
        spec_section_bytes(exprs, labels) == Ok::<Seq<u8>, AsmError>(bs),
        0 <= i < exprs.len(),
        exprs[i].operand == AddressValue::Relative(ShortOperand::Label(l)),
        spec_lookup(labels, l@) == Some(target),
    ensures
        -128 <= target - (addr_of(exprs, i) + 2) <= 127,
        bs[addr_of(exprs, i) + 1] == spec_disp_byte(target - (addr_of(exprs, i) + 2)),
{
    lemma_section_bytes_at(exprs, labels, bs, i);
    let addr = addr_of(exprs, i);
    let eb = spec_expr_bytes(exprs[i], addr, labels)->Ok_0;
    assert(bs[addr + 1] == bs.subrange(addr, addr_of(exprs, i + 1))[1]);
}

/// An operand that references a symbol the table cannot resolve is emitted
/// as `0xFF` placeholder bytes at the instruction's operand positions.
pub proof fn lemma_unresolved_symbol_placeholder(
    exprs: Seq<Expression>,
    labels: Seq<(String, usize)>,
    bs: Seq<u8>,
    i: int,
    l: String,
)
    requires
        spec_section_bytes(exprs, labels) == Ok::<Seq<u8>, AsmError>(bs),
        0 <= i < exprs.len(),
        symbol_of(exprs[i].operand) == Some(l),
        !(exprs[i].operand is Relative) || spec_lookup(labels, l@) is None,
    ensures
        forall|k: int|
            addr_of(exprs, i) + 1 <= k < addr_of(exprs, i + 1) ==> bs[k] == 0xFFu8,
{
    lemma_section_bytes_at(exprs, labels, bs, i);
    let addr = addr_of(exprs, i);
    let eb = spec_expr_bytes(exprs[i], addr, labels)->Ok_0;
    assert forall|k: int|
        addr_of(exprs, i) + 1 <= k < addr_of(exprs, i + 1) implies bs[k] == 0xFFu8 by {
        assert(bs[k] == bs.subrange(addr, addr_of(exprs, i + 1))[k - addr]);
        assert(eb[k - addr] == 0xFFu8);
    }
}

/// Every symbol-referencing operand is recorded in the relocation list,
/// with the offset of its first operand byte and the kind of its
/// addressing-mode category.
pub proof fn lemma_symbol_relocation_recorded(
    exprs: Seq<Expression>,
    rels: Seq<Relocation>,
    i: int,
)
    requires
        spec_relocations(exprs) == Ok::<Seq<Relocation>, AsmError>(rels),
        0 <= i < exprs.len(),
        spec_reloc_of(exprs[i], addr_of(exprs, i) + 1) is Some,
    ensures
        rels.contains(spec_reloc_of(exprs[i], addr_of(exprs, i) + 1)->Some_0),
    decreases exprs.len(),
{
    let pre = exprs.drop_last();
    let rels_pre = spec_relocations(pre)->Ok_0;
    if i == exprs.len() - 1 {
        assert(exprs.take(i) =~= pre);
        let rel = spec_reloc_of(exprs[i], addr_of(exprs, i) + 1)->Some_0;
        assert(rels == rels_pre.push(rel));
        assert(rels[rels.len() - 1] == rel);
    } else {
        assert(pre.take(i) =~= exprs.take(i));
        lemma_symbol_relocation_recorded(pre, rels_pre, i);
        let rel = spec_reloc_of(pre[i], addr_of(pre, i) + 1)->Some_0;
        let w = choose|w: int| 0 <= w < rels_pre.len() && rels_pre[w] == rel;
        match spec_reloc_of(exprs.last(), section_len(pre) + 1) {
            None => {
                assert(rels == rels_pre);
            },
            Some(last_rel) => {
                assert(rels == rels_pre.push(last_rel));
                assert(rels[w] == rel);
            },
        }
    }
}

proof fn lemma_lookup_push(l: Seq<(String, usize)>, s: String, a: usize, n: Seq<char>)
    ensures
        spec_lookup(l.push((s, a)), n) == (if spec_lookup(l, n) is Some {
            spec_lookup(l, n)
        } else if s@ == n {
            Some(a)
        } else {
            None::<usize>
        }),
    decreases l.len(),
{
    if l.len() == 0 {
        assert(l.push((s, a)).drop_first() =~= l);
    } else {
        assert(l.push((s, a)).drop_first() =~= l.drop_first().push((s, a)));
        lemma_lookup_push(l.drop_first(), s, a, n);
    }
}

/// Whatever the first table resolves, the second resolves the same way.
pub open spec fn lookup_preserved(l1: Seq<(String, usize)>, l2: Seq<(String, usize)>) -> bool {
    forall|n: Seq<char>|
        #![trigger spec_lookup(l1, n)]
        #![trigger spec_lookup(l2, n)]
        spec_lookup(l1, n) is Some ==> spec_lookup(l2, n) == spec_lookup(l1, n)
}

proof fn lemma_insert_labels_ok(
    labels0: Seq<(String, usize)>,
    new: Seq<String>,
    addr: usize,
    labels1: Seq<(String, usize)>,
)
    requires
        spec_insert_labels(labels0, new, addr) == Ok::<Seq<(String, usize)>, AsmError>(labels1),
    ensures
        lookup_preserved(labels0, labels1),
        forall|k: int| 0 <= k < new.len() ==> spec_lookup(labels1, new[k]@) == Some(addr),
        forall|k: int| 0 <= k < new.len() ==> spec_lookup(labels0, new[k]@) is None,
        forall|k1: int, k2: int| 0 <= k1 < k2 < new.len() ==> new[k1]@ != new[k2]@,
    decreases new.len(),
{
    if new.len() > 0 {
        let l0p = labels0.push((new[0], addr));
        lemma_insert_labels_ok(l0p, new.drop_first(), addr, labels1);
        assert forall|n: Seq<char>| spec_lookup(labels0, n) is Some implies spec_lookup(
            labels1,
            n,
        ) == spec_lookup(labels0, n) by {
            lemma_lookup_push(labels0, new[0], addr, n);
            assert(spec_lookup(l0p, n) == spec_lookup(labels0, n));
        }
        assert(spec_lookup(labels1, new[0]@) == Some(addr)) by {
            lemma_lookup_push(labels0, new[0], addr, new[0]@);
            assert(spec_lookup(l0p, new[0]@) == Some(addr));
        }
        assert forall|k: int| 0 <= k < new.len() implies spec_lookup(labels1, new[k]@) == Some(
            addr,
        ) by {
            if k > 0 {
                assert(new.drop_first()[k - 1] == new[k]);
            }
        }
        assert forall|k: int| 0 <= k < new.len() implies spec_lookup(labels0, new[k]@) is None by {
            if k > 0 {
                assert(new.drop_first()[k - 1] == new[k]);
                assert(spec_lookup(l0p, new[k]@) is None);
                lemma_lookup_push(labels0, new[0], addr, new[k]@);
            }
        }
        assert forall|k1: int, k2: int| 0 <= k1 < k2 < new.len() implies new[k1]@ != new[k2]@ by {
            if k1 == 0 {
                assert(new.drop_first()[k2 - 1] == new[k2]);
                assert(spec_lookup(l0p, new[k2]@) is None);
                lemma_lookup_push(labels0, new[0], addr, new[k2]@);
                assert(spec_lookup(l0p, new[0]@) == Some(addr)) by {
                    lemma_lookup_push(labels0, new[0], addr, new[0]@);
                }
            } else {
                assert(new.drop_first()[k1 - 1] == new[k1]);
                assert(new.drop_first()[k2 - 1] == new[k2]);
            }
        }
    }
}

/// What one build pass guarantees of the symbol table, stated from any
/// intermediate state: every label declared by a remaining node resolves to
/// the address of that node's instruction, entries already present keep
/// resolving as before, and no label name is declared twice.
pub proof fn lemma_build_from_symbols(
    exprs0: Seq<Expression>,
    labels0: Seq<(String, usize)>,
    rest: Seq<ExpressionNode>,
    es: Seq<Expression>,
    ls: Seq<(String, usize)>,
)
    requires
        spec_build_from(exprs0, labels0, rest) == Ok::<
            (Seq<Expression>, Seq<(String, usize)>),
            AsmError,
        >((es, ls)),
    ensures
        es.len() == exprs0.len() + rest.len(),
        es.take(exprs0.len() as int) == exprs0,
        lookup_preserved(labels0, ls),
        forall|j: int, k: int|
            0 <= j < rest.len() && 0 <= k < rest[j].labels@.len() ==> spec_lookup(
                ls,
                #[trigger] rest[j].labels@[k]@,
            ) == Some(section_len(es.take(exprs0.len() + j)) as usize),
        forall|j: int, k: int|
            0 <= j < rest.len() && 0 <= k < rest[j].labels@.len() ==> spec_lookup(
                labels0,
                #[trigger] rest[j].labels@[k]@,
            ) is None,
        forall|j: int, k1: int, k2: int|
            0 <= j < rest.len() && 0 <= k1 < k2 < rest[j].labels@.len()
                ==> #[trigger] rest[j].labels@[k1]@ != #[trigger] rest[j].labels@[k2]@,
        forall|j1: int, k1: int, j2: int, k2: int|
            0 <= j1 < j2 < rest.len() && 0 <= k1 < rest[j1].labels@.len() && 0 <= k2
                < rest[j2].labels@.len() ==> #[trigger] rest[j1].labels@[k1]@
                != #[trigger] rest[j2].labels@[k2]@,
    decreases rest.len(),
{
    if rest.len() == 0 {
        assert(es.take(exprs0.len() as int) =~= es);
    } else {
        let node = rest[0];
        let code = code_of_name(node.mnemonic@)->Some_0;
        let cursor = section_len(exprs0);
        let labels1 = spec_insert_labels(labels0, node.labels@, cursor as usize)->Ok_0;
        let e1 = Expression { operator: code, operand: spec_mode_of(code, node.operand) };
        let exprs1 = exprs0.push(e1);
        lemma_insert_labels_ok(labels0, node.labels@, cursor as usize, labels1);
        lemma_build_from_symbols(exprs1, labels1, rest.drop_first(), es, ls);
        assert(es.take(exprs0.len() as int) =~= es.take(exprs1.len() as int).take(
            exprs0.len() as int,
        ));
        assert(exprs1.take(exprs0.len() as int) =~= exprs0);
        assert forall|n: Seq<char>| spec_lookup(labels0, n) is Some implies spec_lookup(ls, n)
            == spec_lookup(labels0, n) by {
            assert(spec_lookup(labels1, n) == spec_lookup(labels0, n));
            assert(spec_lookup(ls, n) == spec_lookup(labels1, n));
        }
        assert forall|j: int, k: int|
            0 <= j < rest.len() && 0 <= k < rest[j].labels@.len() implies spec_lookup(
            ls,
            #[trigger] rest[j].labels@[k]@,
        ) == Some(section_len(es.take(exprs0.len() + j)) as usize) by {
            if j == 0 {
                assert(spec_lookup(labels1, node.labels@[k]@) == Some(cursor as usize));
                assert(spec_lookup(ls, node.labels@[k]@) == Some(cursor as usize));
                assert(section_len(es.take(exprs0.len() as int)) == cursor);
            } else {
                assert(rest.drop_first()[j - 1] == rest[j]);
                assert(exprs1.len() + (j - 1) == exprs0.len() + j);
            }
        }
        assert forall|j: int, k: int|
            0 <= j < rest.len() && 0 <= k < rest[j].labels@.len() implies spec_lookup(
            labels0,
            #[trigger] rest[j].labels@[k]@,
        ) is None by {
            if j == 0 {
                assert(spec_lookup(labels0, node.labels@[k]@) is None);
            } else {
                assert(rest.drop_first()[j - 1] == rest[j]);
                assert(spec_lookup(labels1, rest[j].labels@[k]@) is None);
                if spec_lookup(labels0, rest[j].labels@[k]@) is Some {
                    assert(spec_lookup(labels1, rest[j].labels@[k]@) == spec_lookup(
                        labels0,
                        rest[j].labels@[k]@,
                    ));
                }
            }
        }
        assert forall|j: int, k1: int, k2: int|
            0 <= j < rest.len() && 0 <= k1 < k2 < rest[j].labels@.len() implies
            (#[trigger] rest[j].labels@[k1]@) != (#[trigger] rest[j].labels@[k2]@) by {
            if j > 0 {
                assert(rest.drop_first()[j - 1] == rest[j]);
            }
        }
        assert forall|j1: int, k1: int, j2: int, k2: int|
            0 <= j1 < j2 < rest.len() && 0 <= k1 < rest[j1].labels@.len()
                && 0 <= k2 < rest[j2].labels@.len() implies
            (#[trigger] rest[j1].labels@[k1]@) != (#[trigger] rest[j2].labels@[k2]@) by {
            assert(rest.drop_first()[j2 - 1] == rest[j2]);
            if j1 == 0 {
                assert(spec_lookup(labels1, rest[j2].labels@[k2]@) is None);
                assert(spec_lookup(labels1, node.labels@[k1]@) == Some(cursor as usize));
            } else {
                assert(rest.drop_first()[j1 - 1] == rest[j1]);
            }
        }
    }
}

/// The instruction a node assembles to, when its mnemonic resolves.
pub open spec fn spec_node_expr(node: ExpressionNode) -> Expression {
    let code = code_of_name(node.mnemonic@)->Some_0;
    Expression { operator: code, operand: spec_mode_of(code, node.operand) }
}

/// The summed instruction lengths a sequence of nodes assembles to.
pub open spec fn nodes_size(nodes: Seq<ExpressionNode>) -> int
    decreases nodes.len(),
{
    if nodes.len() == 0 {
        0
    } else {
        spec_node_expr(nodes[0]).spec_size() + nodes_size(nodes.drop_first())
    }
}

proof fn lemma_nodes_size_nonneg(nodes: Seq<ExpressionNode>)
    ensures
        nodes_size(nodes) >= 0,
    decreases nodes.len(),
{
    if nodes.len() > 0 {
        lemma_nodes_size_nonneg(nodes.drop_first());
    }
}

proof fn lemma_build_err_kind(
    exprs0: Seq<Expression>,
    labels0: Seq<(String, usize)>,
    rest: Seq<ExpressionNode>,
)
    requires
        forall|j: int| 0 <= j < rest.len() ==> code_of_name(#[trigger] rest[j].mnemonic@) is Some,
        section_len(exprs0) + nodes_size(rest) <= crate::ast::MAX_SECTION_SIZE,
        spec_build_from(exprs0, labels0, rest) is Err,
    ensures
        spec_build_from(exprs0, labels0, rest)->Err_0 is DuplicateLabel,
    decreases rest.len(),
{
    if rest.len() > 0 {
        let node = rest[0];
        assert(code_of_name(node.mnemonic@) is Some);
        let code = code_of_name(node.mnemonic@)->Some_0;
        let cursor = section_len(exprs0);
        match spec_insert_labels(labels0, node.labels@, cursor as usize) {
            Err(e) => {
                lemma_insert_err_is_duplicate(labels0, node.labels@, cursor as usize);
            },
            Ok(labels1) => {
                let e1 = Expression { operator: code, operand: spec_mode_of(code, node.operand) };
                lemma_nodes_size_nonneg(rest.drop_first());
                assert(cursor + e1.spec_size() <= crate::ast::MAX_SECTION_SIZE);
                let exprs1 = exprs0.push(e1);
                assert(exprs1.drop_last() =~= exprs0);
                assert(section_len(exprs1) == cursor + e1.spec_size());
                assert forall|j: int| 0 <= j < rest.drop_first().len() implies code_of_name(
                    #[trigger] rest.drop_first()[j].mnemonic@,
                ) is Some by {
                    assert(rest.drop_first()[j] == rest[j + 1]);
                }
                lemma_build_err_kind(exprs1, labels1, rest.drop_first());
            },
        }
    }
}

proof fn lemma_insert_err_is_duplicate(
    labels0: Seq<(String, usize)>,
    new: Seq<String>,
    addr: usize,
)
    requires
        spec_insert_labels(labels0, new, addr) is Err,
    ensures
        spec_insert_labels(labels0, new, addr)->Err_0 is DuplicateLabel,
    decreases new.len(),
{
    if new.len() > 0 && !crate::ast::spec_contains_label(labels0, new[0]@) {
        lemma_insert_err_is_duplicate(labels0.push((new[0], addr)), new.drop_first(), addr);
    }
}

/// Two distinct positions in a node sequence that declare the same label
/// name.
pub open spec fn duplicate_declaration(
    nodes: Seq<ExpressionNode>,
    j1: int,
    k1: int,
    j2: int,
    k2: int,
) -> bool {
    0 <= j1 < nodes.len() && 0 <= k1 < nodes[j1].labels@.len() && 0 <= j2 < nodes.len() && 0 <= k2
        < nodes[j2].labels@.len() && (j1 != j2 || k1 != k2) && nodes[j1].labels@[k1]@
        == nodes[j2].labels@[k2]@
}

/// Declaring the same label name twice fails with `DuplicateLabel` on any
/// input whose mnemonics all resolve and whose instructions fit the address
/// space: no program is returned.
pub proof fn lemma_duplicate_label_fails(nodes: Seq<ExpressionNode>)
    requires
        forall|j: int| 0 <= j < nodes.len() ==> code_of_name(#[trigger] nodes[j].mnemonic@) is Some,
        nodes_size(nodes) <= crate::ast::MAX_SECTION_SIZE,
        exists|j1: int, k1: int, j2: int, k2: int|
            duplicate_declaration(nodes, j1, k1, j2, k2),
    ensures
        spec_build(nodes) is Err,
        spec_build(nodes)->Err_0 is DuplicateLabel,
{
    let (j1, k1, j2, k2) = choose|j1: int, k1: int, j2: int, k2: int|
        duplicate_declaration(nodes, j1, k1, j2, k2);
    if spec_build(nodes) is Ok {
        let built = spec_build(nodes)->Ok_0;
        lemma_build_from_symbols(Seq::empty(), Seq::empty(), nodes, built.0, built.1);
        if j1 == j2 {
            if k1 < k2 {
                assert(nodes[j1].labels@[k1]@ != nodes[j2].labels@[k2]@);
            } else {
                assert(nodes[j1].labels@[k2]@ != nodes[j2].labels@[k1]@);
            }
        } else if j1 < j2 {
            assert(nodes[j1].labels@[k1]@ != nodes[j2].labels@[k2]@);
        } else {
            assert(nodes[j2].labels@[k2]@ != nodes[j1].labels@[k1]@);
        }
        assert(false);
    }
    lemma_build_err_kind(Seq::empty(), Seq::empty(), nodes);
}

/// Every label declared immediately before an instruction resolves to that
/// instruction's address, so several labels stacked before one instruction
/// all resolve to the same address.
pub proof fn lemma_labels_resolve_to_following_instruction(
    nodes: Seq<ExpressionNode>,
    es: Seq<Expression>,
    ls: Seq<(String, usize)>,
    j: int,
    k: int,
)
    requires
        spec_build(nodes) == Ok::<(Seq<Expression>, Seq<(String, usize)>), AsmError>((es, ls)),
        0 <= j < nodes.len(),
        0 <= k < nodes[j].labels@.len(),
    ensures
        es.len() == nodes.len(),
        spec_lookup(ls, nodes[j].labels@[k]@) == Some(addr_of(es, j) as usize),
{
    lemma_build_from_symbols(Seq::empty(), Seq::empty(), nodes, es, ls);
}

/// A build that returns a program declared no label name twice: declaring
/// the same name a second time never yields a program.
pub proof fn lemma_duplicate_label_never_builds(
    nodes: Seq<ExpressionNode>,
    es: Seq<Expression>,
    ls: Seq<(String, usize)>,
)
    requires
        spec_build(nodes) == Ok::<(Seq<Expression>, Seq<(String, usize)>), AsmError>((es, ls)),
    ensures
        forall|j: int, k1: int, k2: int|
            0 <= j < nodes.len() && 0 <= k1 < k2 < nodes[j].labels@.len()
                ==> #[trigger] nodes[j].labels@[k1]@ != #[trigger] nodes[j].labels@[k2]@,
        forall|j1: int, k1: int, j2: int, k2: int|
            0 <= j1 < j2 < nodes.len() && 0 <= k1 < nodes[j1].labels@.len()
                && 0 <= k2 < nodes[j2].labels@.len()
                ==> (#[trigger] nodes[j1].labels@[k1]@) != (#[trigger] nodes[j2].labels@[k2]@),
{
    lemma_build_from_symbols(Seq::empty(), Seq::empty(), nodes, es, ls);
}

} // verus!
