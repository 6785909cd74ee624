use crate::instruction::InstructionCode;
use crate::instruction::code_of_name;
use crate::syntax::ExpressionNode;
use crate::syntax::IndexRegister;
use crate::syntax::OperandNode;
use crate::ast::LongOperand;
use crate::ast::ShortOperand;
use vstd::prelude::*;

verus! {

/// The grammar rules a piece of text can be parsed as.
///
/// The surface grammar, line-oriented: a program is a sequence of
/// statements separated by blank space; a statement is zero or more label
/// declarations (an identifier followed by a colon, each on its own line or
/// sharing one), then a mnemonic, then at most one operand on the same
/// line. Numeric literals are hexadecimal and `$`-prefixed: one or two
/// digits make a one-byte literal, three or four a two-byte one.
#[allow(non_camel_case_types)]
#[derive(Debug, Clone, Copy, PartialEq, Eq, Structural)]
pub enum Rule {
    program,
    expression,
    instruction,
    label,
    label_dec,
    short_literal,
    long_literal,
    immediate_addresser,
    indexed_addresser,
    indirect_addresser,
    indexed_indirect_addresser,
    indirect_indexed_addresser,
}

/// Why a piece of text failed to parse.
#[derive(Debug, Clone, PartialEq, Eq)]
pub enum ParseError {
    /// A character (at this character index) that no rule allows here.
    UnexpectedCharacter(usize),
    /// A mnemonic-position token outside the closed instruction set.
    UnknownInstruction(String),
    /// Input ended where a rule still needed more.
    UnexpectedEnd,
}

/// What a successful parse hands back, by rule.
#[derive(Debug, Clone, PartialEq, Eq)]
pub enum ParsedItem {
    Program(Vec<ExpressionNode>),
    Expression(ExpressionNode),
    Instruction(InstructionCode),
    Label(String),
    Operand(OperandNode),
}

/// Intra-line white space.
pub open spec fn is_space(c: char) -> bool {
    c == ' ' || c == '\t' || c == '\r'
}

/// White space including line breaks.
pub open spec fn is_blank(c: char) -> bool {
    is_space(c) || c == '\n'
}

/// An ASCII decimal digit.
pub open spec fn is_digit_char(c: char) -> bool {
    48 <= c as u32 && c as u32 <= 57
}

/// A character that may start an identifier: an ASCII letter or an
/// underscore.
pub open spec fn is_ident_start(c: char) -> bool {
    (65 <= c as u32 && c as u32 <= 90) || (97 <= c as u32 && c as u32 <= 122) || c == '_'
}

/// A character that may continue an identifier.
pub open spec fn is_ident_char(c: char) -> bool {
    is_ident_start(c) || is_digit_char(c)
}

/// A nonempty identifier: a letter or underscore followed by letters,
/// digits and underscores.
pub open spec fn is_ident_text(s: Seq<char>) -> bool {
    s.len() > 0 && is_ident_start(s[0]) && forall|k: int| 0 <= k < s.len() ==> is_ident_char(#[trigger] s[k])
}

/// An ASCII hexadecimal digit, either case.
pub open spec fn is_hex_digit(c: char) -> bool {
    is_digit_char(c) || (97 <= c as u32 && c as u32 <= 102) || (65 <= c as u32 && c as u32 <= 70)
}

/// The numeric value of a hexadecimal digit.
pub open spec fn hex_val(c: char) -> int {
    if is_digit_char(c) {
        c as u32 - 48
    } else if 97 <= c as u32 && c as u32 <= 102 {
        c as u32 - 97 + 10
    } else if 65 <= c as u32 && c as u32 <= 70 {
        c as u32 - 65 + 10
    } else {
        0
    }
}

/// The value of the hexadecimal digit run `s[i..j]`, most significant digit
/// first.
pub open spec fn spec_hex_value(s: Seq<char>, i: int, j: int) -> int
    decreases j - i,
{
    if i >= j {
        0
    } else {
        16 * spec_hex_value(s, i, j - 1) + hex_val(s[j - 1])
    }
}

/// Sixteen to the `k`-th power.
pub open spec fn spec_pow16(k: int) -> int
    decreases k,
{
    if k <= 0 {
        1
    } else {
        16 * spec_pow16(k - 1)
    }
}

fn space_char(c: char) -> (b: bool)
    ensures
        b == is_space(c),
{
    c == ' ' || c == '\t' || c == '\r'
}

fn blank_char(c: char) -> (b: bool)
    ensures
        b == is_blank(c),
{
    space_char(c) || c == '\n'
}

fn ident_start_char(c: char) -> (b: bool)
    ensures
        b == is_ident_start(c),
{
    let u = c as u32;
    (65 <= u && u <= 90) || (97 <= u && u <= 122) || c == '_'
}

fn ident_char(c: char) -> (b: bool)
    ensures
        b == is_ident_char(c),
{
    let u = c as u32;
    ident_start_char(c) || (48 <= u && u <= 57)
}

fn hex_digit_char(c: char) -> (b: bool)
    ensures
        b == is_hex_digit(c),
{
    let u = c as u32;
    (48 <= u && u <= 57) || (97 <= u && u <= 102) || (65 <= u && u <= 70)
}

fn hex_digit_value(c: char) -> (v: u8)
    requires
        is_hex_digit(c),
    ensures
        v as int == hex_val(c),
{
    let u = c as u32;
    if 48 <= u && u <= 57 {
        (u - 48) as u8
    } else if 97 <= u && u <= 102 {
        (u - 97 + 10) as u8
    } else {
        (u - 65 + 10) as u8
    }
}

/// The input decoded into its characters, for constant-time indexing.
fn chars_of(s: &str) -> (cs: Vec<char>)
    ensures
        cs@ == s@,
{
    let n = s.unicode_len();
    let mut cs: Vec<char> = Vec::new();
    let mut i: usize = 0;
    assert(cs@ =~= s@.take(0));
    while i < n
        invariant
            i <= n,
            n == s@.len(),
            cs@ == s@.take(i as int),
        decreases n - i,
    {
        cs.push(s.get_char(i));
        assert(cs@ =~= s@.take(i as int + 1));
        i = i + 1;
    }
    assert(cs@ =~= s@);
    cs
}

/// The first position at or after `i` that is not intra-line white space.
#[verifier::loop_isolation(false)]
fn skip_spaces(cs: &Vec<char>, i: usize) -> (j: usize)
    requires
        i <= cs@.len(),
    ensures
        i <= j <= cs@.len(),
        j < cs@.len() ==> !is_space(cs@[j as int]),
{
    let mut j = i;
    while j < cs.len() && space_char(cs[j])
        invariant
            i <= j <= cs@.len(),
        decreases cs@.len() - j,
    {
        j = j + 1;
    }
    j
}

/// The first position at or after `i` that is not white space of any kind.
#[verifier::loop_isolation(false)]
fn skip_blanks(cs: &Vec<char>, i: usize) -> (j: usize)
    requires
        i <= cs@.len(),
    ensures
        i <= j <= cs@.len(),
        j < cs@.len() ==> !is_blank(cs@[j as int]),
        forall|k: int| i <= k < j ==> is_blank(cs@[k]),
{
    let mut j = i;
    while j < cs.len() && blank_char(cs[j])
        invariant
            i <= j <= cs@.len(),
            forall|k: int| i <= k < j ==> is_blank(cs@[k]),
        decreases cs@.len() - j,
    {
        j = j + 1;
    }
    j
}

/// The end of the identifier-character run starting at `i`.
#[verifier::loop_isolation(false)]
fn scan_ident(cs: &Vec<char>, i: usize) -> (j: usize)
    requires
        i <= cs@.len(),
    ensures
        i <= j <= cs@.len(),
        forall|k: int| i <= k < j ==> is_ident_char(cs@[k]),
        j < cs@.len() ==> !is_ident_char(cs@[j as int]),
{
    let mut j = i;
    while j < cs.len() && ident_char(cs[j])
        invariant
            i <= j <= cs@.len(),
            forall|k: int| i <= k < j ==> is_ident_char(cs@[k]),
        decreases cs@.len() - j,
    {
        j = j + 1;
    }
    j
}

/// The end of the hexadecimal-digit run starting at `i`.
#[verifier::loop_isolation(false)]
fn scan_hex(cs: &Vec<char>, i: usize) -> (j: usize)
    requires
        i <= cs@.len(),
    ensures
        i <= j <= cs@.len(),
        forall|k: int| i <= k < j ==> is_hex_digit(cs@[k]),
        j < cs@.len() ==> !is_hex_digit(cs@[j as int]),
{
    let mut j = i;
    while j < cs.len() && hex_digit_char(cs[j])
        invariant
            i <= j <= cs@.len(),
            forall|k: int| i <= k < j ==> is_hex_digit(cs@[k]),
        decreases cs@.len() - j,
    {
        j = j + 1;
    }
    j
}

proof fn lemma_pow16_table()
    ensures
        spec_pow16(0) == 1,
        spec_pow16(1) == 16,
        spec_pow16(2) == 256,
        spec_pow16(3) == 4096,
        spec_pow16(4) == 65536,
{
    reveal_with_fuel(spec_pow16, 5);
}

/// The numeric value of the digit run `cs[i..j]`, at most four digits.
#[verifier::loop_isolation(false)]
fn hex_value(cs: &Vec<char>, i: usize, j: usize) -> (v: u16)
    requires
        i <= j <= cs@.len(),
        j - i <= 4,
        forall|k: int| i <= k < j ==> is_hex_digit(cs@[k]),
    ensures
        v as int == spec_hex_value(cs@, i as int, j as int),
        (v as int) < spec_pow16(j - i),
{
    proof {
        lemma_pow16_table();
    }
    let mut v: u32 = 0;
    let mut m: usize = i;
    while m < j
        invariant
            i <= m <= j,
            v as int == spec_hex_value(cs@, i as int, m as int),
            (v as int) < spec_pow16(m - i),
        decreases j - m,
    {
        let d = hex_digit_value(cs[m]);
        proof {
            assert(spec_pow16(m - i + 1) == 16 * spec_pow16(m - i));
            assert(spec_pow16(m - i) <= spec_pow16(3)) by {
                reveal_with_fuel(spec_pow16, 5);
                assert(m - i <= 3);
            }
        }
        v = v * 16 + (d as u32);
        m = m + 1;
    }
    proof {
        assert(spec_pow16(j - i) <= spec_pow16(4)) by {
            reveal_with_fuel(spec_pow16, 5);
        }
    }
    v as u16
}

/// The text `cs[i..j]` as an owned string.
fn ident_string(input: &str, cs: &Vec<char>, i: usize, j: usize) -> (s: String)
    requires
        cs@ == input@,
        i <= j <= cs@.len(),
    ensures
        s@ == input@.subrange(i as int, j as int),
{
    input.substring_char(i, j).to_owned()
}

/// Parses the `,X` / `,Y` index-marker suffix beginning at `i`.
fn parse_index_suffix(cs: &Vec<char>, i: usize) -> (r: Result<(IndexRegister, usize), ParseError>)
    requires
        i <= cs@.len(),
    ensures
        r matches Ok(p) ==> i < p.1 <= cs@.len(),
{
    if i >= cs.len() || cs[i] != ',' {
        return Err(ParseError::UnexpectedCharacter(i));
    }
    if i + 1 >= cs.len() {
        return Err(ParseError::UnexpectedEnd);
    }
    let c = cs[i + 1];
    if c == 'X' || c == 'x' {
        Ok((IndexRegister::X, i + 2))
    } else if c == 'Y' || c == 'y' {
        Ok((IndexRegister::Y, i + 2))
    } else {
        Err(ParseError::UnexpectedCharacter(i + 1))
    }
}

/// Parses one operand beginning at `i`; returns it with the position just
/// past it.
fn parse_operand(input: &str, cs: &Vec<char>, i: usize) -> (r: Result<
    (OperandNode, usize),
    ParseError,
>)
    requires
        cs@ == input@,
        i < cs@.len(),
    ensures
        r matches Ok(p) ==> i < p.1 <= cs@.len(),
{
    let n = cs.len();
    let c = cs[i];
    if c == '#' {
        // immediate-marked one-byte literal
        if i + 1 >= n || cs[i + 1] != '$' {
            return Err(ParseError::UnexpectedCharacter(i + 1));
        }
        let j = scan_hex(cs, i + 2);
        let d = j - (i + 2);
        if d == 0 || d > 2 {
            return Err(ParseError::UnexpectedCharacter(j));
        }
        proof {
            lemma_pow16_table();
        }
        let v = hex_value(cs, i + 2, j);
        Ok((OperandNode::Immediate(v as u8), j))
    } else if c == '$' {
        // bare literal, possibly indexed
        let j = scan_hex(cs, i + 1);
        let d = j - (i + 1);
        if d == 0 || d > 4 {
            return Err(ParseError::UnexpectedCharacter(j));
        }
        proof {
            lemma_pow16_table();
        }
        let v = hex_value(cs, i + 1, j);
        if j < n && cs[j] == ',' {
            let (reg, j2) = match parse_index_suffix(cs, j) {
                Err(e) => {
                    return Err(e);
                },
                Ok(p) => p,
            };
            if d <= 2 {
                Ok((OperandNode::IndexedShort(ShortOperand::Numeric(v as u8), reg), j2))
            } else {
                Ok((OperandNode::IndexedLong(v, reg), j2))
            }
        } else {
            if d <= 2 {
                Ok((OperandNode::ShortLiteral(v as u8), j))
            } else {
                Ok((OperandNode::LongLiteral(v), j))
            }
        }
    } else if ident_start_char(c) {
        // bare symbol reference, possibly indexed
        let j = scan_ident(cs, i);
        let name = ident_string(input, cs, i, j);
        if j < n && cs[j] == ',' {
            let (reg, j2) = match parse_index_suffix(cs, j) {
                Err(e) => {
                    return Err(e);
                },
                Ok(p) => p,
            };
            Ok((OperandNode::IndexedShort(ShortOperand::Label(name), reg), j2))
        } else {
            Ok((OperandNode::LabelRef(name), j))
        }
    } else if c == '(' {
        // parenthesized: indirect, indexed-indirect or indirect-indexed
        let k = i + 1;
        if k >= n {
            return Err(ParseError::UnexpectedEnd);
        }
        if cs[k] == '$' {
            let j = scan_hex(cs, k + 1);
            let d = j - (k + 1);
            if d == 0 || d > 4 {
                return Err(ParseError::UnexpectedCharacter(j));
            }
            proof {
                lemma_pow16_table();
            }
            let v = hex_value(cs, k + 1, j);
            if j < n && cs[j] == ',' {
                // ($nn,X)
                if d > 2 {
                    return Err(ParseError::UnexpectedCharacter(j));
                }
                if j + 1 >= n || (cs[j + 1] != 'X' && cs[j + 1] != 'x') {
                    return Err(ParseError::UnexpectedCharacter(j + 1));
                }
                if j + 2 >= n || cs[j + 2] != ')' {
                    return Err(ParseError::UnexpectedCharacter(j + 2));
                }
                Ok((OperandNode::IndexedIndirect(ShortOperand::Numeric(v as u8)), j + 3))
            } else if j < n && cs[j] == ')' {
                if j + 1 < n && cs[j + 1] == ',' {
                    // ($nn),Y
                    if d > 2 {
                        return Err(ParseError::UnexpectedCharacter(j));
                    }
                    if j + 2 >= n || (cs[j + 2] != 'Y' && cs[j + 2] != 'y') {
                        return Err(ParseError::UnexpectedCharacter(j + 2));
                    }
                    Ok((OperandNode::IndirectIndexed(ShortOperand::Numeric(v as u8)), j + 3))
                } else {
                    // ($nnnn)
                    if d <= 2 {
                        return Err(ParseError::UnexpectedCharacter(j));
                    }
                    Ok((OperandNode::Indirect(LongOperand::Numeric(v)), j + 1))
                }
            } else {
                Err(ParseError::UnexpectedCharacter(j))
            }
        } else if ident_start_char(cs[k]) {
            let j = scan_ident(cs, k);
            let name = ident_string(input, cs, k, j);
            if j < n && cs[j] == ',' {
                // (name,X)
                if j + 1 >= n || (cs[j + 1] != 'X' && cs[j + 1] != 'x') {
                    return Err(ParseError::UnexpectedCharacter(j + 1));
                }
                if j + 2 >= n || cs[j + 2] != ')' {
                    return Err(ParseError::UnexpectedCharacter(j + 2));
                }
                Ok((OperandNode::IndexedIndirect(ShortOperand::Label(name)), j + 3))
            } else if j < n && cs[j] == ')' {
                if j + 1 < n && cs[j + 1] == ',' {
                    // (name),Y
                    if j + 2 >= n || (cs[j + 2] != 'Y' && cs[j + 2] != 'y') {
                        return Err(ParseError::UnexpectedCharacter(j + 2));
                    }
                    Ok((OperandNode::IndirectIndexed(ShortOperand::Label(name)), j + 3))
                } else {
                    // (name)
                    Ok((OperandNode::Indirect(LongOperand::Label(name)), j + 1))
                }
            } else {
                Err(ParseError::UnexpectedCharacter(j))
            }
        } else {
            Err(ParseError::UnexpectedCharacter(k))
        }
    } else {
        Err(ParseError::UnexpectedCharacter(i))
    }
}

/// Parses one statement (label declarations, mnemonic, optional operand)
/// beginning at or after `start`; returns it with the position just past it.
#[verifier::loop_isolation(false)]
fn parse_expression_at(input: &str, cs: &Vec<char>, start: usize) -> (r: Result<
    (ExpressionNode, usize),
    ParseError,
>)
    requires
        cs@ == input@,
        start <= cs@.len(),
    ensures
        r matches Ok(p) ==> start < p.1 <= cs@.len() && code_of_name(p.0.mnemonic@) is Some
            && forall|k: int|
                0 <= k < p.0.labels@.len() ==> is_ident_text(#[trigger] p.0.labels@[k]@),
{
    let n = cs.len();
    let mut labels: Vec<String> = Vec::new();
    let mut i = skip_blanks(cs, start);
    loop
        invariant
            start <= i <= n,
            n == cs@.len(),
            cs@ == input@,
            forall|k: int| 0 <= k < labels@.len() ==> is_ident_text(#[trigger] labels@[k]@),
        decreases n - i,
    {
        if i >= n {
            return Err(ParseError::UnexpectedEnd);
        }
        if !ident_start_char(cs[i]) {
            return Err(ParseError::UnexpectedCharacter(i));
        }
        let j = scan_ident(cs, i);
        if j < n && cs[j] == ':' {
            let name = ident_string(input, cs, i, j);
            assert(is_ident_text(name@)) by {
                assert(name@[0] == cs@[i as int]);
                assert(forall|k: int|
                    0 <= k < name@.len() ==> #[trigger] name@[k] == cs@[i + k]);
            }
            labels.push(name);
            i = skip_blanks(cs, j + 1);
        } else {
            let token = input.substring_char(i, j);
            let mnemonic = token.to_owned();
            if InstructionCode::from_name(token).is_none() {
                return Err(ParseError::UnknownInstruction(mnemonic));
            }
            let mut pos = skip_spaces(cs, j);
            let operand: Option<OperandNode> = if pos < n && cs[pos] != '\n' {
                match parse_operand(input, cs, pos) {
                    Err(e) => {
                        return Err(e);
                    },
                    Ok((op, p2)) => {
                        pos = p2;
                        Some(op)
                    },
                }
            } else {
                None
            };
            pos = skip_spaces(cs, pos);
            if pos < n && cs[pos] != '\n' {
                return Err(ParseError::UnexpectedCharacter(pos));
            }
            return Ok((ExpressionNode { labels, mnemonic, operand }, pos));
        }
    }
}

/// The hand-written front end for the 6502 assembly grammar.
pub struct Assembler6502Parser;

impl Assembler6502Parser {
    /// Parses a whole source text into its sequence of statements. On
    /// success, every statement's mnemonic is in the closed instruction
    /// set.
    #[verifier::loop_isolation(false)]
    pub fn parse_program(input: &str) -> (r: Result<Vec<ExpressionNode>, ParseError>)
        ensures
            r matches Ok(nodes) ==> forall|k: int|
                0 <= k < nodes@.len() ==> code_of_name(#[trigger] nodes@[k].mnemonic@) is Some,
            r matches Ok(nodes) ==> forall|j: int, k: int|
                0 <= j < nodes@.len() && 0 <= k < nodes@[j].labels@.len() ==> is_ident_text(
                    #[trigger] nodes@[j].labels@[k]@,
                ),
            (r matches Ok(nodes) && nodes@.len() == 0) ==> forall|k: int|
                0 <= k < input@.len() ==> is_blank(#[trigger] input@[k]),
    {
        let cs = chars_of(input);
        let n = cs.len();
        let mut nodes: Vec<ExpressionNode> = Vec::new();
        let mut i: usize = skip_blanks(&cs, 0);
        let ghost i0 = i;
        while i < n
            invariant
                i <= n,
                n == cs@.len(),
                cs@ == input@,
                nodes@.len() == 0 ==> i == i0,
                forall|k: int|
                    0 <= k < nodes@.len() ==> code_of_name(
                        #[trigger] nodes@[k].mnemonic@,
                    ) is Some,
                forall|j: int, k: int|
                    0 <= j < nodes@.len() && 0 <= k < nodes@[j].labels@.len() ==> is_ident_text(
                        #[trigger] nodes@[j].labels@[k]@,
                    ),
            decreases n - i,
        {
            match parse_expression_at(input, &cs, i) {
                Err(e) => {
                    return Err(e);
                },
                Ok((node, pos)) => {
                    nodes.push(node);
                    i = skip_blanks(&cs, pos);
                },
            }
        }
        Ok(nodes)
    }

    /// Parses `input` as one grammar rule, as the front end's entry point.
    /// Rules other than `program` match a prefix of the input.
    pub fn parse(rule: Rule, input: &str) -> (r: Result<ParsedItem, ParseError>)
        ensures
            r matches Ok(item) ==> (item matches ParsedItem::Program(nodes) ==> forall|k: int|
                0 <= k < nodes@.len() ==> code_of_name(#[trigger] nodes@[k].mnemonic@) is Some),
            r matches Ok(item) ==> (item matches ParsedItem::Expression(node)
                ==> code_of_name(node.mnemonic@) is Some),
    {
        match rule {
            Rule::program => match Self::parse_program(input) {
                Ok(nodes) => Ok(ParsedItem::Program(nodes)),
                Err(e) => Err(e),
            },
            Rule::expression => {
                let cs = chars_of(input);
                match parse_expression_at(input, &cs, 0) {
                    Ok((node, _)) => Ok(ParsedItem::Expression(node)),
                    Err(e) => Err(e),
                }
            },
            Rule::instruction => {
                let cs = chars_of(input);
                let j = scan_ident(&cs, 0);
                if j == 0 {
                    return Err(ParseError::UnexpectedCharacter(0));
                }
                let token = input.substring_char(0, j);
                match InstructionCode::from_name(token) {
                    Some(code) => Ok(ParsedItem::Instruction(code)),
                    None => Err(ParseError::UnknownInstruction(token.to_owned())),
                }
            },
            Rule::label => {
                let cs = chars_of(input);
                if cs.len() == 0 || !ident_start_char(cs[0]) {
                    return Err(ParseError::UnexpectedCharacter(0));
                }
                let j = scan_ident(&cs, 0);
                Ok(ParsedItem::Label(ident_string(input, &cs, 0, j)))
            },
            Rule::label_dec => {
                let cs = chars_of(input);
                if cs.len() == 0 || !ident_start_char(cs[0]) {
                    return Err(ParseError::UnexpectedCharacter(0));
                }
                let j = scan_ident(&cs, 0);
                if j >= cs.len() || cs[j] != ':' {
                    return Err(ParseError::UnexpectedCharacter(j));
                }
                Ok(ParsedItem::Label(ident_string(input, &cs, 0, j)))
            },
            _ => {
                let cs = chars_of(input);
                if cs.len() == 0 {
                    return Err(ParseError::UnexpectedEnd);
                }
                match parse_operand(input, &cs, 0) {
                    Err(e) => Err(e),
                    Ok((op, _)) => {
                        if operand_matches_rule(rule, &op) {
                            Ok(ParsedItem::Operand(op))
                        } else {
                            Err(ParseError::UnexpectedCharacter(0))
                        }
                    },
                }
            },
        }
    }
}

/// Whether a parsed operand has the surface form the requested rule names.
fn operand_matches_rule(rule: Rule, op: &OperandNode) -> bool {
    match (rule, op) {
        (Rule::short_literal, OperandNode::ShortLiteral(_)) => true,
        (Rule::long_literal, OperandNode::LongLiteral(_)) => true,
        (Rule::immediate_addresser, OperandNode::Immediate(_)) => true,
        (Rule::indexed_addresser, OperandNode::IndexedShort(_, _)) => true,
        (Rule::indexed_addresser, OperandNode::IndexedLong(_, _)) => true,
        (Rule::indirect_addresser, OperandNode::Indirect(_)) => true,
        (Rule::indexed_indirect_addresser, OperandNode::IndexedIndirect(_)) => true,
        (Rule::indirect_indexed_addresser, OperandNode::IndirectIndexed(_)) => true,
        _ => false,
    }
}

} // verus!
