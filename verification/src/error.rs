use vstd::prelude::*;

verus! {

/// Everything that can go wrong while assembling a program.
///
/// All errors are detected synchronously, either during the single build
/// pass or during emission; any error aborts the build for that input.
#[derive(Debug, Clone, PartialEq, Eq)]
pub enum AsmError {
    /// A mnemonic token that is not in the closed instruction set.
    UnknownMnemonic(String),
    /// A valid mnemonic combined with an addressing mode the CPU has no
    /// opcode for.
    UnsupportedEncoding,
    /// The same label name was declared twice.
    DuplicateLabel(String),
    /// A name that can be resolved neither from the internal symbol table
    /// nor by any external resolution step.
    UndefinedSymbol(String),
    /// A resolved relative branch displacement outside `[-128, 127]`.
    BranchOutOfRange(String),
    /// The assembled section would not fit in the 16-bit address space.
    SectionTooLarge,
}

} // verus!
