use crate::ast::LongOperand;
use crate::ast::ShortOperand;
use vstd::prelude::*;

verus! {

/// The index register named by a `,X` or `,Y` marker.
#[derive(Debug, Clone, Copy, PartialEq, Eq, Structural)]
pub enum IndexRegister {
    X,
    Y,
}

/// The surface form of one instruction operand, as the front end hands it
/// over: purely syntactic, before any symbol-table lookup.
#[derive(Debug, Clone, PartialEq, Eq)]
pub enum OperandNode {
    /// A bare one-byte literal: `$nn`.
    ShortLiteral(u8),
    /// A bare two-byte literal: `$nnnn`.
    LongLiteral(u16),
    /// A bare symbol reference.
    LabelRef(String),
    /// An immediate-marked literal: `#$nn`.
    Immediate(u8),
    /// A one-byte value or symbol with a trailing index marker: `$nn,X`.
    IndexedShort(ShortOperand, IndexRegister),
    /// A two-byte literal with a trailing index marker: `$nnnn,X`.
    IndexedLong(u16, IndexRegister),
    /// A parenthesized value or symbol: `($nnnn)`.
    Indirect(LongOperand),
    /// A parenthesized form with the index marker inside: `($nn,X)`.
    IndexedIndirect(ShortOperand),
    /// A parenthesized form with the index marker outside: `($nn),Y`.
    IndirectIndexed(ShortOperand),
}

/// One instruction statement as parsed: zero or more preceding label
/// declarations, a mnemonic token, and at most one operand.
#[derive(Debug, Clone, PartialEq, Eq)]
pub struct ExpressionNode {
    pub labels: Vec<String>,
    pub mnemonic: String,
    pub operand: Option<OperandNode>,
}

} // verus!
