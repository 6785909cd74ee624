use crate::ast::Program;
use crate::error::AsmError;
use crate::relocatable::spec_section_bytes;
use vstd::prelude::*;

verus! {

/// Serializes a built program's section bytes, ready to be placed after an
/// object-file header.
pub fn serialize_raw_section(program: &Program) -> (r: Result<Vec<u8>, AsmError>)
    ensures
        match spec_section_bytes(program.expressions@, program.labels@) {
            Ok(bs) => r matches Ok(v) && v@ == bs,
            Err(e) => r == Err::<Vec<u8>, AsmError>(e),
        },
{
    program.get_raw_section()
}

} // verus!
