//! The two-pass assembler: from tokens to machine code.
use vstd::prelude::*;
use crate::error::{ErrorKind, Fault, ParseError};
use crate::lexer::{first_fault, pieces, tokenize, tokens_match};
use crate::opcodes::{Form, Mnemonic, descriptor, entry, form_size, lookup_entry};
use crate::token::{Register, Token, TokenKind, TokenStream, TokenType, kind_of};

verus! {

/// An element of the first pass's output: a byte, or a reference to a label (with the
/// position of the reference) that the second pass replaces by the label's address.
pub enum ParsedToken {
    Code(u8),
    Symbol(String, (usize, usize)),
}

/// An element of the first pass's output, as plain values.
pub enum Elem {
    Code(u8),
    Symbol(Seq<char>, (usize, usize)),
}

impl View for ParsedToken {
    type V = Elem;

    open spec fn view(&self) -> Elem {
        match self {
            ParsedToken::Code(b) => Elem::Code(*b),
            ParsedToken::Symbol(s, p) => Elem::Symbol(s@, *p),
        }
    }
}

/// Label definitions in order: name and byte offset.
pub type SymbolTable = Vec<(String, u16)>;

/// A statement of a program that parsed.
pub enum Statement {
    Label(Seq<char>),
    Instr(Mnemonic),
}

/// The state of the first pass: output so far, labels so far, byte counter, statements so far.
pub struct Pass {
    pub stream: Seq<Elem>,
    pub table: Seq<(Seq<char>, u16)>,
    pub offset: int,
    pub statements: Seq<Statement>,
    /// For each symbol-table entry, the index of the statement that defined it.
    pub defined_at: Seq<int>,
}

/// An error as plain values: what went wrong and where.
pub type Failure = (Fault, (usize, usize));

/// An executable result with its error seen as plain values.
pub open spec fn outcome<T>(r: Result<T, ParseError>) -> Result<T, Failure> {
    match r {
        Ok(v) => Ok(v),
        Err(e) => Err((e.fault(), e.position)),
    }
}

pub open spec fn stream_view(s: Seq<ParsedToken>) -> Seq<Elem> {
    s.map_values(|p: ParsedToken| p@)
}

pub open spec fn table_view(t: Seq<(String, u16)>) -> Seq<(Seq<char>, u16)> {
    t.map_values(|e: (String, u16)| (e.0@, e.1))
}

/// The offset recorded for a label, searching from the latest definition.
pub open spec fn find_label(t: Seq<(Seq<char>, u16)>, name: Seq<char>) -> Option<u16>
    decreases t.len(),
{
    if t.len() == 0 {
        None
    } else if t.last().0 == name {
        Some(t.last().1)
    } else {
        find_label(t.drop_last(), name)
    }
}

/// Index of a byte register in register fields: B C D E H L M A are 0 to 7.
pub open spec fn register_index(r: Register) -> Option<u8> {
    match r {
        Register::B => Some(0),
        Register::C => Some(1),
        Register::D => Some(2),
        Register::E => Some(3),
        Register::H => Some(4),
        Register::L => Some(5),
        Register::M => Some(6),
        Register::A => Some(7),
        _ => None,
    }
}

/// Index of a register pair: B D H are 0 to 2; SP and PSW are 3.
pub open spec fn pair_index(r: Register) -> Option<u8> {
    match r {
        Register::B => Some(0),
        Register::D => Some(1),
        Register::H => Some(2),
        Register::SP | Register::PSW => Some(3),
        _ => None,
    }
}

/// The pair index accepted by DAD, DCX, INX and LXI: B, D, H or SP.
pub open spec fn word_pair_index(r: Register) -> Option<u8> {
    if r is PSW {
        None
    } else {
        pair_index(r)
    }
}

/// The pair index accepted by LDAX and STAX: B or D.
pub open spec fn load_store_index(r: Register) -> Option<u8> {
    match r {
        Register::B => Some(0),
        Register::D => Some(1),
        _ => None,
    }
}

/// The pair index accepted by PUSH and POP: B, D, H or PSW.
pub open spec fn stack_index(r: Register) -> Option<u8> {
    if r is SP {
        None
    } else {
        pair_index(r)
    }
}

/// The next token if its kind is accepted. Past the last token the input reads as `End`.
pub open spec fn expect(toks: Seq<Token>, i: int, kinds: Seq<TokenKind>) -> Result<Token, Failure> {
    if i >= toks.len() {
        if kinds.contains(TokenKind::End) {
            Ok(Token { position: (0, 0), token: TokenType::End })
        } else {
            Err((Fault::Eof, (0, 0)))
        }
    } else if kinds.contains(kind_of(toks[i].token)) {
        Ok(toks[i])
    } else {
        Err((Fault::Unexpected(kinds, kind_of(toks[i].token)), toks[i].position))
    }
}

pub open spec fn reg_of(t: TokenType) -> Register {
    match t {
        TokenType::Register(r) => r,
        _ => Register::A,
    }
}

pub open spec fn byte_of(t: TokenType) -> u8 {
    match t {
        TokenType::U8(b) => b,
        _ => 0,
    }
}

pub open spec fn label_of(t: TokenType) -> Seq<char> {
    match t {
        TokenType::Label(s) => s@,
        _ => Seq::empty(),
    }
}

/// A 16-bit operand as two code bytes, low first; an 8-bit one gets a zero high byte.
pub open spec fn word_elems(t: TokenType) -> Seq<Elem> {
    match t {
        TokenType::U16(w) => seq![Elem::Code((w % 256) as u8), Elem::Code((w / 256) as u8)],
        TokenType::U8(b) => seq![Elem::Code(b), Elem::Code(0)],
        _ => Seq::empty(),
    }
}

/// A register operand mapped to its index, or an invalid-argument failure at its position.
pub open spec fn indexed(t: Token, index: Option<u8>) -> Result<u8, Failure> {
    match index {
        Some(x) => Ok(x),
        None => Err((Fault::Invalid, t.position)),
    }
}

/// The code of one instruction whose mnemonic `m` stands just before index `i`, and how many
/// tokens its operands take.
pub open spec fn operands(toks: Seq<Token>, i: int, m: Mnemonic) -> Result<(Seq<Elem>, nat), Failure> {
    let op = entry(m).0;
    let reg = seq![TokenKind::Register];
    let comma = seq![TokenKind::Comma];
    let byte = seq![TokenKind::U8];
    let word = seq![TokenKind::U16, TokenKind::U8];
    match entry(m).1 {
        Form::Implicit => Ok((seq![Elem::Code(op)], 0)),
        Form::Imm8 => match expect(toks, i, byte) {
            Err(e) => Err(e),
            Ok(t) => Ok((seq![Elem::Code(op), Elem::Code(byte_of(t.token))], 1)),
        },
        Form::Address => match expect(toks, i, seq![TokenKind::Label]) {
            Err(e) => Err(e),
            Ok(t) => Ok((seq![Elem::Code(op), Elem::Symbol(label_of(t.token), t.position)], 1)),
        },
        Form::Absolute => match expect(toks, i, word) {
            Err(e) => Err(e),
            Ok(t) => Ok((seq![Elem::Code(op)] + word_elems(t.token), 1)),
        },
        Form::Restart => match expect(toks, i, byte) {
            Err(e) => Err(e),
            Ok(t) => if byte_of(t.token) <= 7 {
                Ok((seq![Elem::Code((op + 8 * byte_of(t.token)) as u8)], 1))
            } else {
                Err((Fault::Invalid, t.position))
            },
        },
        _ => match expect(toks, i, reg) {
            Err(e) => Err(e),
            Ok(t) => {
                let r = reg_of(t.token);
                match entry(m).1 {
                    Form::RegLow => match indexed(t, register_index(r)) {
                        Err(e) => Err(e),
                        Ok(x) => Ok((seq![Elem::Code((op + x) as u8)], 1)),
                    },
                    Form::RegHigh => match indexed(t, register_index(r)) {
                        Err(e) => Err(e),
                        Ok(x) => Ok((seq![Elem::Code((op + 8 * x) as u8)], 1)),
                    },
                    Form::Pair => match indexed(t, word_pair_index(r)) {
                        Err(e) => Err(e),
                        Ok(x) => Ok((seq![Elem::Code((op + 16 * x) as u8)], 1)),
                    },
                    Form::LoadStore => match indexed(t, load_store_index(r)) {
                        Err(e) => Err(e),
                        Ok(x) => Ok((seq![Elem::Code((op + 16 * x) as u8)], 1)),
                    },
                    Form::Stack => match indexed(t, stack_index(r)) {
                        Err(e) => Err(e),
                        Ok(x) => Ok((seq![Elem::Code((op + 16 * x) as u8)], 1)),
                    },
                    Form::PairWord => match indexed(t, word_pair_index(r)) {
                        Err(e) => Err(e),
                        Ok(x) => match expect(toks, i + 1, comma) {
                            Err(e) => Err(e),
                            Ok(_) => match expect(toks, i + 2, word) {
                                Err(e) => Err(e),
                                Ok(w) => Ok(
                                    (seq![Elem::Code((op + 16 * x) as u8)] + word_elems(w.token), 3),
                                ),
                            },
                        },
                    },
                    Form::MoveImmediate => match indexed(t, register_index(r)) {
                        Err(e) => Err(e),
                        Ok(x) => match expect(toks, i + 1, comma) {
                            Err(e) => Err(e),
                            Ok(_) => match expect(toks, i + 2, byte) {
                                Err(e) => Err(e),
                                Ok(v) => Ok(
                                    (
                                        seq![
                                            Elem::Code((op + 8 * x) as u8),
                                            Elem::Code(byte_of(v.token)),
                                        ],
                                        3,
                                    ),
                                ),
                            },
                        },
                    },
                    _ => match indexed(t, register_index(r)) {
                        Err(e) => Err(e),
                        Ok(x) => match expect(toks, i + 1, comma) {
                            Err(e) => Err(e),
                            Ok(_) => match expect(toks, i + 2, reg) {
                                Err(e) => Err(e),
                                Ok(s) => match indexed(s, register_index(reg_of(s.token))) {
                                    Err(e) => Err(e),
                                    Ok(y) => Ok((seq![Elem::Code((op + 8 * x + y) as u8)], 3)),
                                },
                            },
                        },
                    },
                }
            },
        },
    }
}

/// The token kinds that may start a statement.
pub open spec fn statement_kinds() -> Seq<TokenKind> {
    seq![TokenKind::Operation, TokenKind::Label, TokenKind::End]
}

/// The first pass from token `i` on, given the state reached before it.
pub open spec fn first_pass_from(toks: Seq<Token>, i: int, acc: Pass) -> Result<Pass, Failure>
    decreases toks.len() - i,
{
    if i < 0 || i >= toks.len() {
        Ok(acc)
    } else {
        match expect(toks, i, statement_kinds()) {
            Err(e) => Err(e),
            Ok(t) => match t.token {
                TokenType::Operation(m) => match operands(toks, i + 1, m) {
                    Err(e) => Err(e),
                    Ok(r) => first_pass_from(
                        toks,
                        i + 1 + r.1,
                        Pass {
                            stream: acc.stream + r.0,
                            offset: acc.offset + form_size(entry(m).1),
                            statements: acc.statements.push(Statement::Instr(m)),
                            ..acc
                        },
                    ),
                },
                TokenType::Label(name) => match expect(toks, i + 1, seq![TokenKind::Colon]) {
                    Err(e) => Err(e),
                    Ok(_) => if find_label(acc.table, name@) is Some {
                        Err((Fault::Duplicate(name@), t.position))
                    } else {
                        first_pass_from(
                            toks,
                            i + 2,
                            Pass {
                                table: acc.table.push((name@, (acc.offset % 65536) as u16)),
                                statements: acc.statements.push(Statement::Label(name@)),
                                defined_at: acc.defined_at.push(acc.statements.len() as int),
                                ..acc
                            },
                        )
                    },
                },
                _ => Ok(acc),
            },
        }
    }
}

pub open spec fn empty_pass() -> Pass {
    Pass {
        stream: Seq::empty(),
        table: Seq::empty(),
        offset: 0,
        statements: Seq::empty(),
        defined_at: Seq::empty(),
    }
}

/// The first pass over a whole token sequence.
pub open spec fn first_pass(toks: Seq<Token>) -> Result<Pass, Failure> {
    first_pass_from(toks, 0, empty_pass())
}

/// The second pass: code bytes as they are, label references as their offsets, low byte first.
/// The first reference to an undefined label is an error.
pub open spec fn link(s: Seq<Elem>, t: Seq<(Seq<char>, u16)>) -> Result<Seq<u8>, Failure>
    decreases s.len(),
{
    if s.len() == 0 {
        Ok(Seq::empty())
    } else {
        match link(s.drop_last(), t) {
            Err(e) => Err(e),
            Ok(b) => match s.last() {
                Elem::Code(x) => Ok(b.push(x)),
                Elem::Symbol(n, p) => match find_label(t, n) {
                    Some(w) => Ok(b.push((w % 256) as u8).push((w / 256) as u8)),
                    None => Err((Fault::Undefined(n), p)),
                },
            },
        }
    }
}

/// The machine code of a token sequence.
pub open spec fn assembled(toks: Seq<Token>) -> Result<Seq<u8>, Failure> {
    match first_pass(toks) {
        Err(e) => Err(e),
        Ok(p) => link(p.stream, p.table),
    }
}

proof fn lemma_single_kind_not_end(k: TokenKind)
    requires
        k != TokenKind::End,
    ensures
        !seq![k].contains(TokenKind::End),
{
    assert(seq![k][0] == k);
}

fn kinds1(a: TokenKind) -> (r: Vec<TokenKind>)
    ensures
        r@ == seq![a],
{
    let mut v = Vec::new();
    v.push(a);
    assert(v@ =~= seq![a]);
    v
}

fn kinds2(a: TokenKind, b: TokenKind) -> (r: Vec<TokenKind>)
    ensures
        r@ == seq![a, b],
{
    let mut v = Vec::new();
    v.push(a);
    v.push(b);
    assert(v@ =~= seq![a, b]);
    v
}

fn kinds3(a: TokenKind, b: TokenKind, c: TokenKind) -> (r: Vec<TokenKind>)
    ensures
        r@ == seq![a, b, c],
{
    let mut v = Vec::new();
    v.push(a);
    v.push(b);
    v.push(c);
    assert(v@ =~= seq![a, b, c]);
    v
}

fn accepts(expected: &Vec<TokenKind>, k: TokenKind) -> (r: bool)
    ensures
        r == expected@.contains(k),
{
    let mut i: usize = 0;
    while i < expected.len()
        invariant
            i <= expected@.len(),
            forall|j: int| 0 <= j < i ==> expected@[j] != k,
        decreases expected.len() - i,
    {
        if expected[i] == k {
            return true;
        }
        i = i + 1;
    }
    false
}

/// The token at `pos` if its kind is among `expected`; past the end, `End` if that is expected.
fn next_token(tokens: &[Token], pos: usize, expected: Vec<TokenKind>) -> (r: Result<Token, ParseError>)
    ensures
        outcome(r) == expect(tokens@, pos as int, expected@),
{
    if pos >= tokens.len() {
        if accepts(&expected, TokenKind::End) {
            Ok(Token { position: (0, 0), token: TokenType::End })
        } else {
            Err(ParseError { position: (0, 0), error: ErrorKind::Eof })
        }
    } else {
        let token = &tokens[pos];
        let kind = token.token.kind();
        if accepts(&expected, kind) {
            Ok(token.duplicate())
        } else {
            Err(ParseError { position: token.position, error: ErrorKind::UnexpectedToken(expected, kind) })
        }
    }
}

fn register_name(r: &Register) -> String {
    match r {
        Register::A => "A".to_owned(),
        Register::B => "B".to_owned(),
        Register::C => "C".to_owned(),
        Register::D => "D".to_owned(),
        Register::E => "E".to_owned(),
        Register::H => "H".to_owned(),
        Register::L => "L".to_owned(),
        Register::M => "M".to_owned(),
        Register::SP => "SP".to_owned(),
        Register::PSW => "PSW".to_owned(),
    }
}

fn invalid(position: (usize, usize), expected: &str, found: &Register) -> (e: ParseError)
    ensures
        e.position == position,
        e.fault() == Fault::Invalid,
{
    ParseError {
        position,
        error: ErrorKind::InvalidArguments(expected.to_owned(), register_name(found)),
    }
}

fn get_register_index(name: &Register, position: (usize, usize)) -> (r: Result<u8, ParseError>)
    ensures
        outcome(r) == (match register_index(*name) {
            Some(x) => Ok(x),
            None => Err((Fault::Invalid, position)),
        }),
{
    match name {
        Register::B => Ok(0),
        Register::C => Ok(1),
        Register::D => Ok(2),
        Register::E => Ok(3),
        Register::H => Ok(4),
        Register::L => Ok(5),
        Register::M => Ok(6),
        Register::A => Ok(7),
        _ => Err(invalid(position, "Register", name)),
    }
}

fn get_register_pair_index(name: &Register, position: (usize, usize)) -> (r: Result<u8, ParseError>)
    ensures
        outcome(r) == (match pair_index(*name) {
            Some(x) => Ok(x),
            None => Err((Fault::Invalid, position)),
        }),
{
    match name {
        Register::B => Ok(0),
        Register::D => Ok(1),
        Register::H => Ok(2),
        Register::SP | Register::PSW => Ok(3),
        _ => Err(invalid(position, "Register Pair", name)),
    }
}

proof fn lemma_stream_push(s: Seq<ParsedToken>, p: ParsedToken)
    ensures
        stream_view(s.push(p)) == stream_view(s).push(p@),
{
    assert(stream_view(s.push(p)) =~= stream_view(s).push(p@));
}

/// Append a 16-bit operand, low byte first; an 8-bit operand gets a zero high byte.
fn push_word_operand(elems: &mut Vec<ParsedToken>, t: &TokenType)
    requires
        *t is U16 || *t is U8,
    ensures
        stream_view(final(elems)@) == stream_view(old(elems)@) + word_elems(*t),
{
    let ghost start = elems@;
    match t {
        TokenType::U16(w) => {
            elems.push(ParsedToken::Code((*w % 256) as u8));
            proof {
                lemma_stream_push(start, ParsedToken::Code((*w % 256) as u8));
            }
            let ghost mid = elems@;
            elems.push(ParsedToken::Code((*w / 256) as u8));
            proof {
                lemma_stream_push(mid, ParsedToken::Code((*w / 256) as u8));
            }
        },
        _ => {
            let b = match t {
                TokenType::U8(b) => *b,
                _ => 0,
            };
            elems.push(ParsedToken::Code(b));
            proof {
                lemma_stream_push(start, ParsedToken::Code(b));
            }
            let ghost mid = elems@;
            elems.push(ParsedToken::Code(0));
            proof {
                lemma_stream_push(mid, ParsedToken::Code(0));
            }
        },
    }
    assert(stream_view(elems@) =~= stream_view(start) + word_elems(*t));
}

fn single(b: u8) -> (r: Vec<ParsedToken>)
    ensures
        stream_view(r@) == seq![Elem::Code(b)],
{
    let r = vec![ParsedToken::Code(b)];
    assert(stream_view(r@) =~= seq![Elem::Code(b)]);
    r
}

fn word_pair_index_of(r: &Register, position: (usize, usize)) -> (x: Result<u8, ParseError>)
    ensures
        outcome(x) == (match word_pair_index(*r) {
            Some(i) => Ok(i),
            None => Err((Fault::Invalid, position)),
        }),
{
    match r {
        Register::PSW => Err(invalid(position, "B, D, H or SP", r)),
        _ => get_register_pair_index(r, position),
    }
}

/// What the code of an instruction of mnemonic `m` with operands from token `pos` on must be.
pub open spec fn operands_ensure(
    tokens: Seq<Token>,
    pos: usize,
    m: Mnemonic,
    r: Result<(Vec<ParsedToken>, usize), ParseError>,
) -> bool {
    match operands(tokens, pos as int, m) {
        Ok(o) => r matches Ok(v) && stream_view(v.0@) == o.0 && v.1 == o.1,
        Err(e) => r matches Err(x) && (x.fault(), x.position) == e,
    }
}

/// The register index a form accepts.
pub open spec fn form_index(f: Form, r: Register) -> Option<u8> {
    match f {
        Form::Pair | Form::PairWord => word_pair_index(r),
        Form::LoadStore => load_store_index(r),
        Form::Stack => stack_index(r),
        _ => register_index(r),
    }
}

/// Operands that are no register: none, a byte, a label, an address or a vector number.
fn plain_operands(tokens: &[Token], pos: usize, m: Mnemonic) -> (r: Result<(Vec<ParsedToken>, usize), ParseError>)
    requires
        entry(m).1 is Implicit || entry(m).1 is Imm8 || entry(m).1 is Address || entry(m).1 is Absolute
            || entry(m).1 is Restart,
    ensures
        operands_ensure(tokens@, pos, m, r),
{
    let (op, form) = lookup_entry(m);
    match form {
        Form::Implicit => Ok((single(op), 0)),
        Form::Imm8 => {
            let t = match next_token(tokens, pos, kinds1(TokenKind::U8)) {
                Ok(t) => t,
                Err(e) => return Err(e),
            };
            let v = match t.token {
                TokenType::U8(v) => v,
                _ => 0,
            };
            let elems = vec![ParsedToken::Code(op), ParsedToken::Code(v)];
            assert(stream_view(elems@) =~= seq![Elem::Code(op), Elem::Code(v)]);
            Ok((elems, 1))
        },
        Form::Address => {
            let t = match next_token(tokens, pos, kinds1(TokenKind::Label)) {
                Ok(t) => t,
                Err(e) => return Err(e),
            };
            let position = t.position;
            let name = match t.token {
                TokenType::Label(name) => name,
                _ => String::new(),
            };
            let elems = vec![ParsedToken::Code(op), ParsedToken::Symbol(name, position)];
            assert(stream_view(elems@) =~= seq![
                Elem::Code(op),
                Elem::Symbol(label_of(tokens@[pos as int].token), position),
            ]);
            Ok((elems, 1))
        },
        Form::Absolute => {
            let t = match next_token(tokens, pos, kinds2(TokenKind::U16, TokenKind::U8)) {
                Ok(t) => t,
                Err(e) => return Err(e),
            };
            let mut elems = single(op);
            push_word_operand(&mut elems, &t.token);
            Ok((elems, 1))
        },
        _ => {
            let t = match next_token(tokens, pos, kinds1(TokenKind::U8)) {
                Ok(t) => t,
                Err(e) => return Err(e),
            };
            let n = match t.token {
                TokenType::U8(n) => n,
                _ => 0,
            };
            if n <= 7 {
                Ok((single(((op as u16 + 8 * n as u16) % 256) as u8), 1))
            } else {
                Err(
                    ParseError {
                        position: t.position,
                        error: ErrorKind::InvalidArguments("[0-7]".to_owned(), "a larger number".to_owned()),
                    },
                )
            }
        },
    }
}

/// The register operand at `pos`, as the index its form accepts.
fn first_register(tokens: &[Token], pos: usize, form: Form) -> (r: Result<u8, ParseError>)
    ensures
        match expect(tokens@, pos as int, seq![TokenKind::Register]) {
            Err(e) => r matches Err(x) && (x.fault(), x.position) == e,
            Ok(t) => outcome(r) == indexed(t, form_index(form, reg_of(t.token))),
        },
        r is Ok ==> pos < tokens@.len(),
{
    let t = match next_token(tokens, pos, kinds1(TokenKind::Register)) {
        Ok(t) => t,
        Err(e) => return Err(e),
    };
    proof {
        lemma_single_kind_not_end(TokenKind::Register);
    }
    let position = t.position;
    let reg = match t.token {
        TokenType::Register(r) => r,
        _ => Register::A,
    };
    match form {
        Form::Pair | Form::PairWord => word_pair_index_of(&reg, position),
        Form::LoadStore => match reg {
            Register::B | Register::D => get_register_pair_index(&reg, position),
            _ => Err(invalid(position, "B or D", &reg)),
        },
        Form::Stack => match reg {
            Register::SP => Err(invalid(position, "B, D, H or PSW", &reg)),
            _ => get_register_pair_index(&reg, position),
        },
        _ => get_register_index(&reg, position),
    }
}

/// A single register operand.
fn register_operand(tokens: &[Token], pos: usize, m: Mnemonic) -> (r: Result<(Vec<ParsedToken>, usize), ParseError>)
    requires
        entry(m).1 is RegLow || entry(m).1 is RegHigh || entry(m).1 is Pair || entry(m).1 is LoadStore
            || entry(m).1 is Stack,
    ensures
        operands_ensure(tokens@, pos, m, r),
{
    let (op, form) = lookup_entry(m);
    let x = match first_register(tokens, pos, form) {
        Ok(x) => x,
        Err(e) => return Err(e),
    };
    match form {
        Form::RegLow => Ok((single(((op as u16 + x as u16) % 256) as u8), 1)),
        Form::RegHigh => Ok((single(((op as u16 + 8 * x as u16) % 256) as u8), 1)),
        _ => Ok((single(((op as u16 + 16 * x as u16) % 256) as u8), 1)),
    }
}

/// A register, a comma, and a second operand: a word, a byte or a register.
fn register_and_operand(tokens: &[Token], pos: usize, m: Mnemonic) -> (r: Result<(Vec<ParsedToken>, usize), ParseError>)
    requires
        entry(m).1 is PairWord || entry(m).1 is MoveImmediate || entry(m).1 is Move,
    ensures
        operands_ensure(tokens@, pos, m, r),
{
    let (op, form) = lookup_entry(m);
    let x = match first_register(tokens, pos, form) {
        Ok(x) => x,
        Err(e) => return Err(e),
    };
    let count = tokens.len();
    assert(pos < count);
    match next_token(tokens, pos + 1, kinds1(TokenKind::Comma)) {
        Ok(_) => {},
        Err(e) => return Err(e),
    };
    proof {
        lemma_single_kind_not_end(TokenKind::Comma);
    }
    match form {
        Form::PairWord => {
            let w = match next_token(tokens, pos + 2, kinds2(TokenKind::U16, TokenKind::U8)) {
                Ok(w) => w,
                Err(e) => return Err(e),
            };
            let mut elems = single(((op as u16 + 16 * x as u16) % 256) as u8);
            push_word_operand(&mut elems, &w.token);
            Ok((elems, 3))
        },
        Form::MoveImmediate => {
            let v = match next_token(tokens, pos + 2, kinds1(TokenKind::U8)) {
                Ok(v) => v,
                Err(e) => return Err(e),
            };
            let b = match v.token {
                TokenType::U8(b) => b,
                _ => 0,
            };
            let first = ((op as u16 + 8 * x as u16) % 256) as u8;
            let elems = vec![ParsedToken::Code(first), ParsedToken::Code(b)];
            assert(stream_view(elems@) =~= seq![Elem::Code(first), Elem::Code(b)]);
            Ok((elems, 3))
        },
        _ => {
            let s = match next_token(tokens, pos + 2, kinds1(TokenKind::Register)) {
                Ok(s) => s,
                Err(e) => return Err(e),
            };
            let source = match s.token {
                TokenType::Register(r) => r,
                _ => Register::A,
            };
            let y = match get_register_index(&source, s.position) {
                Ok(y) => y,
                Err(e) => return Err(e),
            };
            Ok((single(((op as u16 + 8 * x as u16 + y as u16) % 256) as u8), 3))
        },
    }
}

/// Encode the operands of one instruction whose mnemonic precedes token `pos`.
/// Returns the code and the number of operand tokens taken.
fn parse_operands(tokens: &[Token], pos: usize, m: Mnemonic) -> (r: Result<(Vec<ParsedToken>, usize), ParseError>)
    ensures
        operands_ensure(tokens@, pos, m, r),
{
    let (_, form) = lookup_entry(m);
    match form {
        Form::Implicit | Form::Imm8 | Form::Address | Form::Absolute | Form::Restart => {
            plain_operands(tokens, pos, m)
        },
        Form::RegLow | Form::RegHigh | Form::Pair | Form::LoadStore | Form::Stack => {
            register_operand(tokens, pos, m)
        },
        _ => register_and_operand(tokens, pos, m),
    }
}

proof fn lemma_two_kinds_not_end(a: TokenKind, b: TokenKind)
    requires
        a != TokenKind::End,
        b != TokenKind::End,
    ensures
        !seq![a, b].contains(TokenKind::End),
{
    assert(seq![a, b][0] == a && seq![a, b][1] == b);
}

/// The operands of an instruction that parsed are tokens that exist.
/// A token that `expect` accepts from a list without `End` is a real token.
proof fn lemma_expect_within(toks: Seq<Token>, i: int, kinds: Seq<TokenKind>)
    requires
        expect(toks, i, kinds) is Ok,
        !kinds.contains(TokenKind::End),
    ensures
        i < toks.len(),
{
}

/// The operands of an instruction that parsed are tokens that exist.
proof fn lemma_operands_within(toks: Seq<Token>, i: int, m: Mnemonic)
    requires
        0 <= i <= toks.len(),
        operands(toks, i, m) is Ok,
    ensures
        i + operands(toks, i, m)->Ok_0.1 <= toks.len(),
{
    let reg = seq![TokenKind::Register];
    let comma = seq![TokenKind::Comma];
    let byte = seq![TokenKind::U8];
    let word = seq![TokenKind::U16, TokenKind::U8];
    lemma_single_kind_not_end(TokenKind::U8);
    lemma_single_kind_not_end(TokenKind::Label);
    lemma_single_kind_not_end(TokenKind::Register);
    lemma_single_kind_not_end(TokenKind::Comma);
    lemma_two_kinds_not_end(TokenKind::U16, TokenKind::U8);
    match entry(m).1 {
        Form::Implicit => {},
        Form::Imm8 | Form::Restart => {
            assert(expect(toks, i, byte) is Ok);
            lemma_expect_within(toks, i, byte);
        },
        Form::Address => {
            assert(expect(toks, i, seq![TokenKind::Label]) is Ok);
            lemma_expect_within(toks, i, seq![TokenKind::Label]);
        },
        Form::Absolute => {
            assert(expect(toks, i, word) is Ok);
            lemma_expect_within(toks, i, word);
        },
        Form::RegLow | Form::RegHigh | Form::Pair | Form::LoadStore | Form::Stack => {
            assert(expect(toks, i, reg) is Ok);
            lemma_expect_within(toks, i, reg);
        },
        Form::PairWord => {
            assert(expect(toks, i + 2, word) is Ok);
            lemma_expect_within(toks, i + 2, word);
        },
        Form::MoveImmediate => {
            assert(expect(toks, i + 2, byte) is Ok);
            lemma_expect_within(toks, i + 2, byte);
        },
        Form::Move => {
            assert(expect(toks, i + 2, reg) is Ok);
            lemma_expect_within(toks, i + 2, reg);
        },
    }
}

proof fn lemma_table_push(t: Seq<(String, u16)>, e: (String, u16))
    ensures
        table_view(t.push(e)) == table_view(t).push((e.0@, e.1)),
{
    assert(table_view(t.push(e)) =~= table_view(t).push((e.0@, e.1)));
}

/// The offset recorded for `name`, if it is defined.
fn find_symbol(table: &SymbolTable, name: &String) -> (r: Option<u16>)
    ensures
        r == find_label(table_view(table@), name@),
{
    let mut i = table.len();
    assert(table@.subrange(0, i as int) =~= table@);
    while i > 0
        invariant
            i <= table@.len(),
            find_label(table_view(table@), name@) == find_label(
                table_view(table@.subrange(0, i as int)),
                name@,
            ),
        decreases i,
    {
        let ghost prefix = table@.subrange(0, i as int);
        assert(table_view(prefix).drop_last() =~= table_view(table@.subrange(0, i - 1)));
        if table[i - 1].0 == *name {
            return Some(table[i - 1].1);
        }
        i = i - 1;
    }
    assert(table_view(table@.subrange(0, 0)) =~= Seq::empty());
    None
}

/// The first pass: the code with unresolved label references, and the label offsets.
fn parse_first_pass(tokens: &[Token]) -> (r: Result<(Vec<ParsedToken>, SymbolTable), ParseError>)
    ensures
        match first_pass(tokens@) {
            Ok(p) => r matches Ok(v) && stream_view(v.0@) == p.stream && table_view(v.1@)
                == p.table,
            Err(e) => r matches Err(x) && (x.fault(), x.position) == e,
        },
{
    let mut pos: usize = 0;
    let mut byte: u16 = 0;
    let mut symbol_table: SymbolTable = Vec::new();
    let mut stream: Vec<ParsedToken> = Vec::new();
    let ghost mut acc = empty_pass();
    proof {
        assert(stream_view(stream@) =~= Seq::empty());
        assert(table_view(symbol_table@) =~= Seq::empty());
    }
    while pos < tokens.len()
        invariant
            first_pass_from(tokens@, pos as int, acc) == first_pass(tokens@),
            stream_view(stream@) == acc.stream,
            table_view(symbol_table@) == acc.table,
            acc.offset >= 0,
            byte == acc.offset % 65536,
        ensures
            first_pass(tokens@) == Ok::<Pass, Failure>(acc),
            stream_view(stream@) == acc.stream,
            table_view(symbol_table@) == acc.table,
        decreases tokens.len() - pos,
    {
        let t = match next_token(
            tokens,
            pos,
            kinds3(TokenKind::Operation, TokenKind::Label, TokenKind::End),
        ) {
            Ok(t) => t,
            Err(e) => return Err(e),
        };
        let position = t.position;
        match t.token {
            TokenType::Operation(m) => {
                let (mut elems, k) = match parse_operands(tokens, pos + 1, m) {
                    Ok(v) => v,
                    Err(e) => return Err(e),
                };
                proof {
                    lemma_operands_within(tokens@, pos + 1, m);
                }
                let ghost before = stream@;
                let ghost added = elems@;
                stream.append(&mut elems);
                proof {
                    assert(stream_view(stream@) =~= stream_view(before) + stream_view(added));
                }
                let size = descriptor(m).size;
                byte = ((byte as u32 + size as u32) % 65536) as u16;
                proof {
                    vstd::arithmetic::div_mod::lemma_add_mod_noop(
                        acc.offset,
                        form_size(entry(m).1) as int,
                        65536,
                    );
                    acc = Pass {
                        stream: acc.stream + stream_view(added),
                        offset: acc.offset + form_size(entry(m).1),
                        statements: acc.statements.push(Statement::Instr(m)),
                        ..acc
                    };
                }
                pos = pos + 1 + k;
            },
            TokenType::Label(name) => {
                match next_token(tokens, pos + 1, kinds1(TokenKind::Colon)) {
                    Ok(_) => {},
                    Err(e) => return Err(e),
                }
                proof {
                    lemma_single_kind_not_end(TokenKind::Colon);
                }
                if find_symbol(&symbol_table, &name).is_some() {
                    return Err(ParseError { position, error: ErrorKind::DuplicateLabel(name) });
                }
                let ghost before = symbol_table@;
                let ghost label = name@;
                symbol_table.push((name, byte));
                proof {
                    lemma_table_push(before, symbol_table@.last());
                    assert(before.push(symbol_table@.last()) =~= symbol_table@);
                    acc = Pass {
                        table: acc.table.push((label, (acc.offset % 65536) as u16)),
                        statements: acc.statements.push(Statement::Label(label)),
                        defined_at: acc.defined_at.push(acc.statements.len() as int),
                        ..acc
                    };
                }
                pos = pos + 2;
            },
            _ => break,
        }
    }
    Ok((stream, symbol_table))
}

/// Resolving label references in a prefix that fails makes the whole sequence fail the same way.
proof fn lemma_link_failure_persists(s: Seq<Elem>, t: Seq<(Seq<char>, u16)>, j: int)
    requires
        0 <= j <= s.len(),
        link(s.subrange(0, j), t) is Err,
    ensures
        link(s, t) == link(s.subrange(0, j), t),
    decreases s.len() - j,
{
    if j < s.len() {
        assert(s.subrange(0, j + 1).drop_last() =~= s.subrange(0, j));
        lemma_link_failure_persists(s, t, j + 1);
    } else {
        assert(s.subrange(0, j) =~= s);
    }
}

/// The second pass: label references replaced by their offsets, low byte first.
fn second_pass(symbol_table: &SymbolTable, token_stream: &Vec<ParsedToken>) -> (r: Result<Vec<u8>, ParseError>)
    ensures
        match link(stream_view(token_stream@), table_view(symbol_table@)) {
            Ok(b) => r matches Ok(v) && v@ == b,
            Err(e) => r matches Err(x) && (x.fault(), x.position) == e,
        },
{
    let ghost s = stream_view(token_stream@);
    let ghost t = table_view(symbol_table@);
    let mut bytes: Vec<u8> = Vec::new();
    let mut i: usize = 0;
    assert(s.subrange(0, 0) =~= Seq::<Elem>::empty());
    while i < token_stream.len()
        invariant
            i <= token_stream@.len(),
            s == stream_view(token_stream@),
            t == table_view(symbol_table@),
            link(s.subrange(0, i as int), t) == Ok::<Seq<u8>, Failure>(bytes@),
        decreases token_stream.len() - i,
    {
        assert(s.subrange(0, i + 1).drop_last() =~= s.subrange(0, i as int));
        assert(s.subrange(0, i + 1).last() == token_stream@[i as int]@);
        match &token_stream[i] {
            ParsedToken::Code(b) => bytes.push(*b),
            ParsedToken::Symbol(name, position) => {
                match find_symbol(symbol_table, name) {
                    Some(word) => {
                        bytes.push((word % 256) as u8);
                        bytes.push((word / 256) as u8);
                    },
                    None => {
                        proof {
                            lemma_link_failure_persists(s, t, i + 1);
                        }
                        return Err(
                            ParseError {
                                position: *position,
                                error: ErrorKind::UndefinedLabel(name.clone()),
                            },
                        );
                    },
                }
            },
        }
        i = i + 1;
    }
    assert(s.subrange(0, i as int) =~= s);
    Ok(bytes)
}

/// Assemble a token sequence into machine code.
pub fn assemble_tokens(tokens: &TokenStream) -> (r: Result<Vec<u8>, ParseError>)
    ensures
        match assembled(tokens.tokens@) {
            Ok(b) => r matches Ok(v) && v@ == b,
            Err(e) => r matches Err(x) && (x.fault(), x.position) == e,
        },
{
    let (stream, symbol_table) = match parse_first_pass(tokens.iter()) {
        Ok(v) => v,
        Err(e) => return Err(e),
    };
    second_pass(&symbol_table, &stream)
}
/// Bytes that an element of the first pass's output stands for: a code byte is one, a label
/// reference two.
pub open spec fn width(e: Elem) -> int {
    match e {
        Elem::Code(_) => 1,
        Elem::Symbol(_, _) => 2,
    }
}

/// Number of bytes a first-pass output stands for.
pub open spec fn encoded_len(s: Seq<Elem>) -> int
    decreases s.len(),
{
    if s.len() == 0 {
        0
    } else {
        encoded_len(s.drop_last()) + width(s.last())
    }
}

/// Sum of the sizes of the instructions among the statements.
pub open spec fn total_size(st: Seq<Statement>) -> int
    decreases st.len(),
{
    if st.len() == 0 {
        0
    } else {
        total_size(st.drop_last()) + match st.last() {
            Statement::Instr(m) => form_size(entry(m).1) as int,
            Statement::Label(_) => 0,
        }
    }
}

proof fn lemma_encoded_len_concat(a: Seq<Elem>, b: Seq<Elem>)
    ensures
        encoded_len(a + b) == encoded_len(a) + encoded_len(b),
    decreases b.len(),
{
    if b.len() > 0 {
        assert((a + b).drop_last() =~= a + b.drop_last());
        lemma_encoded_len_concat(a, b.drop_last());
    } else {
        assert(a + b =~= a);
    }
}

proof fn lemma_encoded_len_one(x: Elem)
    ensures
        encoded_len(seq![x]) == width(x),
{
    assert(seq![x].drop_last() =~= Seq::<Elem>::empty());
    assert(encoded_len(Seq::<Elem>::empty()) == 0);
    assert(seq![x].last() == x);
}

proof fn lemma_encoded_len_two(x: Elem, y: Elem)
    ensures
        encoded_len(seq![x, y]) == width(x) + width(y),
{
    lemma_encoded_len_one(x);
    assert(seq![x, y].drop_last() =~= seq![x]);
}

/// The code of an instruction that parsed has the instruction's size.
proof fn lemma_operands_size(toks: Seq<Token>, i: int, m: Mnemonic)
    requires
        operands(toks, i, m) is Ok,
    ensures
        encoded_len(operands(toks, i, m)->Ok_0.0) == form_size(entry(m).1),
{
    let o = operands(toks, i, m)->Ok_0.0;
    let op = entry(m).0;
    lemma_encoded_len_one(o[0]);
    if o.len() == 2 {
        lemma_encoded_len_two(o[0], o[1]);
        assert(o =~= seq![o[0], o[1]]);
    } else if o.len() == 3 {
        lemma_encoded_len_two(o[1], o[2]);
        lemma_encoded_len_concat(seq![o[0]], seq![o[1], o[2]]);
        assert(o =~= seq![o[0]] + seq![o[1], o[2]]);
    } else {
        assert(o =~= seq![o[0]]);
    }
}

/// The first pass keeps its byte counter equal to the size of the code emitted so far and to
/// the sum of the sizes of the instructions read so far.
proof fn lemma_pass_counts(toks: Seq<Token>, i: int, acc: Pass)
    requires
        encoded_len(acc.stream) == acc.offset,
        total_size(acc.statements) == acc.offset,
        first_pass_from(toks, i, acc) is Ok,
    ensures
        encoded_len(first_pass_from(toks, i, acc)->Ok_0.stream) == first_pass_from(toks, i, acc)->Ok_0.offset,
        total_size(first_pass_from(toks, i, acc)->Ok_0.statements) == first_pass_from(toks, i, acc)->Ok_0.offset,
    decreases toks.len() - i,
{
    if 0 <= i < toks.len() {
        let t = expect(toks, i, statement_kinds())->Ok_0;
        match t.token {
            TokenType::Operation(m) => {
                let r = operands(toks, i + 1, m)->Ok_0;
                let next = Pass {
                    stream: acc.stream + r.0,
                    offset: acc.offset + form_size(entry(m).1),
                    statements: acc.statements.push(Statement::Instr(m)),
                    ..acc
                };
                lemma_operands_size(toks, i + 1, m);
                lemma_encoded_len_concat(acc.stream, r.0);
                assert(next.statements.drop_last() =~= acc.statements);
                lemma_pass_counts(toks, i + 1 + r.1, next);
            },
            TokenType::Label(name) => {
                let next = Pass {
                    table: acc.table.push((name@, (acc.offset % 65536) as u16)),
                    statements: acc.statements.push(Statement::Label(name@)),
                    defined_at: acc.defined_at.push(acc.statements.len() as int),
                    ..acc
                };
                assert(next.statements.drop_last() =~= acc.statements);
                lemma_pass_counts(toks, i + 2, next);
            },
            _ => {},
        }
    }
}

proof fn lemma_link_length(s: Seq<Elem>, t: Seq<(Seq<char>, u16)>)
    requires
        link(s, t) is Ok,
    ensures
        link(s, t)->Ok_0.len() == encoded_len(s),
    decreases s.len(),
{
    if s.len() > 0 {
        lemma_link_length(s.drop_last(), t);
    }
}

/// For a token sequence that assembles, the length of the code equals the sum of the sizes of
/// its instructions, and equals the first pass's final byte count.
pub proof fn lemma_code_length(toks: Seq<Token>)
    requires
        assembled(toks) is Ok,
    ensures
        assembled(toks)->Ok_0.len() == first_pass(toks)->Ok_0.offset,
        assembled(toks)->Ok_0.len() == total_size(first_pass(toks)->Ok_0.statements),
{
    assert(encoded_len(empty_pass().stream) == 0);
    assert(total_size(empty_pass().statements) == 0);
    lemma_pass_counts(toks, 0, empty_pass());
    let p = first_pass(toks)->Ok_0;
    lemma_link_length(p.stream, p.table);
}

/// The byte offset, modulo 2^16, at which the statement with index `k` begins: the sum of the
/// sizes of the instructions before it.
pub open spec fn offset_before(st: Seq<Statement>, k: int) -> u16 {
    (total_size(st.subrange(0, k)) % 65536) as u16
}

/// A table entry names the label defined by statement `k` and holds the offset at which that
/// statement begins.
pub open spec fn placed_at(p: Pass, e: (Seq<char>, u16), k: int) -> bool {
    &&& 0 <= k < p.statements.len()
    &&& p.statements[k] == Statement::Label(e.0)
    &&& e.1 == offset_before(p.statements, k)
}

/// Each entry of the symbol table names the label defined by the statement recorded for it,
/// and holds the byte offset at which that statement begins.
pub open spec fn labels_placed(p: Pass) -> bool {
    &&& p.defined_at.len() == p.table.len()
    &&& forall|j: int| 0 <= j < p.table.len() ==> placed_at(p, #[trigger] p.table[j], p.defined_at[j])
}

proof fn lemma_placed_after_push(p: Pass, q: Pass, x: Statement)
    requires
        labels_placed(p),
        q.statements == p.statements.push(x),
        q.table == p.table,
        q.defined_at == p.defined_at,
    ensures
        labels_placed(q),
{
    assert forall|j: int| 0 <= j < q.table.len() implies placed_at(
        q,
        #[trigger] q.table[j],
        q.defined_at[j],
    ) by {
        assert(placed_at(p, p.table[j], p.defined_at[j]));
        let k = p.defined_at[j];
        assert(q.statements.subrange(0, k) =~= p.statements.subrange(0, k));
    }
}

/// The first pass keeps every symbol-table entry at the offset of its definition.
proof fn lemma_pass_labels(toks: Seq<Token>, i: int, acc: Pass)
    requires
        total_size(acc.statements) == acc.offset,
        labels_placed(acc),
        first_pass_from(toks, i, acc) is Ok,
    ensures
        labels_placed(first_pass_from(toks, i, acc)->Ok_0),
    decreases toks.len() - i,
{
    if 0 <= i < toks.len() {
        let t = expect(toks, i, statement_kinds())->Ok_0;
        match t.token {
            TokenType::Operation(m) => {
                let r = operands(toks, i + 1, m)->Ok_0;
                let next = Pass {
                    stream: acc.stream + r.0,
                    offset: acc.offset + form_size(entry(m).1),
                    statements: acc.statements.push(Statement::Instr(m)),
                    ..acc
                };
                assert(next.statements.drop_last() =~= acc.statements);
                lemma_placed_after_push(acc, next, Statement::Instr(m));
                lemma_pass_labels(toks, i + 1 + r.1, next);
            },
            TokenType::Label(name) => {
                let n = acc.statements.len() as int;
                let next = Pass {
                    table: acc.table.push((name@, (acc.offset % 65536) as u16)),
                    statements: acc.statements.push(Statement::Label(name@)),
                    defined_at: acc.defined_at.push(n),
                    ..acc
                };
                let mid = Pass { statements: next.statements, ..acc };
                lemma_placed_after_push(acc, mid, Statement::Label(name@));
                assert(next.statements.subrange(0, n) =~= acc.statements);
                assert forall|j: int| 0 <= j < next.table.len() implies placed_at(
                    next,
                    #[trigger] next.table[j],
                    next.defined_at[j],
                ) by {
                    if j < acc.table.len() {
                        assert(placed_at(mid, mid.table[j], mid.defined_at[j]));
                    }
                }
                assert(next.statements.drop_last() =~= acc.statements);
                lemma_pass_labels(toks, i + 2, next);
            },
            _ => {},
        }
    }
}

/// In a program that passes the first pass, every label in the symbol table is recorded with
/// the byte offset (modulo 2^16) at which the code after its definition begins.
pub proof fn lemma_label_offsets(toks: Seq<Token>)
    requires
        first_pass(toks) is Ok,
    ensures
        labels_placed(first_pass(toks)->Ok_0),
{
    assert(total_size(empty_pass().statements) == 0);
    lemma_pass_labels(toks, 0, empty_pass());
}

/// Assemble source text: split it into tokens, then assemble those. A lexeme that is no valid
/// token is reported first; otherwise the result is the machine code of the text's tokens.
pub fn assemble(source: &str) -> (r: Result<Vec<u8>, ParseError>)
    ensures
        first_fault(pieces(source@)) matches Some(f) ==> r matches Err(x) && f == (
            x.fault(),
            (x.position.0 as int, x.position.1 as int),
        ),
        first_fault(pieces(source@)) is None ==> exists|toks: Seq<Token>|
            #![trigger assembled(toks)]
            toks.len() == pieces(source@).len() + 1 && tokens_match(toks.drop_last(), pieces(source@))
                && toks.last().token is End && match assembled(toks) {
                Ok(b) => r matches Ok(v) && v@ == b,
                Err(e) => r matches Err(x) && (x.fault(), x.position) == e,
            },
{
    let tokens = match tokenize(source) {
        Ok(tokens) => tokens,
        Err(e) => return Err(e),
    };
    assemble_tokens(&tokens)
}

} // verus!
