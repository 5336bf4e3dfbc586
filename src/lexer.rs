//! The lexer: source text to tokens.
use vstd::prelude::*;
use crate::error::{ErrorKind, Fault, ParseError};
use crate::opcodes::{Mnemonic, keyword, spelling};
use crate::token::{Register, Token, TokenKind, TokenStream, TokenType, kind_of};

verus! {

/// Characters that end a lexeme: blanks, line breaks, comma and colon.
pub open spec fn is_separator(c: char) -> bool {
    c == ' ' || c == '\t' || c == ',' || c == ':' || c == '\n' || c == '\r'
}

pub open spec fn is_digit(c: char) -> bool {
    '0' <= c <= '9'
}

pub open spec fn is_letter(c: char) -> bool {
    ('a' <= c <= 'z') || ('A' <= c <= 'Z')
}

/// The value of a digit in base 10 or 16 (either case), if it is one.
pub open spec fn digit_value(c: char, base: nat) -> Option<nat> {
    if is_digit(c) {
        Some((c as nat - '0' as nat) as nat)
    } else if base == 16 && 'a' <= c <= 'f' {
        Some((c as nat - 'a' as nat + 10) as nat)
    } else if base == 16 && 'A' <= c <= 'F' {
        Some((c as nat - 'A' as nat + 10) as nat)
    } else {
        None
    }
}

pub open spec fn all_digits(s: Seq<char>, base: nat) -> bool {
    forall|i: int| 0 <= i < s.len() ==> (#[trigger] digit_value(s[i], base)) is Some
}

/// The number written by the digits `s` in the given base.
pub open spec fn number_value(s: Seq<char>, base: nat) -> nat
    decreases s.len(),
{
    if s.len() == 0 {
        0
    } else {
        number_value(s.drop_last(), base) * base + match digit_value(s.last(), base) {
            Some(d) => d,
            None => 0,
        }
    }
}

/// A lexeme that starts with a decimal digit and ends with `H` or `K` (either case) is hexadecimal.
pub open spec fn hex_literal(s: Seq<char>) -> bool {
    s.len() >= 2 && is_digit(s[0]) && (s.last() == 'H' || s.last() == 'h' || s.last() == 'K'
        || s.last() == 'k')
}

/// A lexeme made of decimal digits only.
pub open spec fn decimal_literal(s: Seq<char>) -> bool {
    s.len() >= 1 && all_digits(s, 10)
}

/// The value of a numeric lexeme; `None` when a hexadecimal lexeme holds a non-hex digit.
pub open spec fn literal_value(s: Seq<char>) -> Option<nat> {
    if hex_literal(s) {
        if all_digits(s.drop_last(), 16) {
            Some(number_value(s.drop_last(), 16))
        } else {
            None
        }
    } else {
        Some(number_value(s, 10))
    }
}

pub open spec fn upper(c: char) -> char {
    if 'a' <= c <= 'z' {
        ((c as int) - 32) as char
    } else {
        c
    }
}

/// The first four characters of `s` in upper case, padded with spaces.
pub open spec fn padded_upper(s: Seq<char>) -> (char, char, char, char) {
    (
        if s.len() > 0 {
            upper(s[0])
        } else {
            ' '
        },
        if s.len() > 1 {
            upper(s[1])
        } else {
            ' '
        },
        if s.len() > 2 {
            upper(s[2])
        } else {
            ' '
        },
        if s.len() > 3 {
            upper(s[3])
        } else {
            ' '
        },
    )
}

/// A register's name in upper case, padded with spaces to four characters.
pub open spec fn register_spelling(r: Register) -> (char, char, char, char) {
    match r {
        Register::A => ('A', ' ', ' ', ' '),
        Register::B => ('B', ' ', ' ', ' '),
        Register::C => ('C', ' ', ' ', ' '),
        Register::D => ('D', ' ', ' ', ' '),
        Register::E => ('E', ' ', ' ', ' '),
        Register::H => ('H', ' ', ' ', ' '),
        Register::L => ('L', ' ', ' ', ' '),
        Register::M => ('M', ' ', ' ', ' '),
        Register::SP => ('S', 'P', ' ', ' '),
        Register::PSW => ('P', 'S', 'W', ' '),
    }
}

/// A mnemonic, in any case.
pub open spec fn names_mnemonic(s: Seq<char>) -> bool {
    1 <= s.len() <= 4 && exists|m: Mnemonic| spelling(m) == padded_upper(s)
}

/// A register name, in any case.
pub open spec fn names_register(s: Seq<char>) -> bool {
    1 <= s.len() <= 4 && exists|r: Register| register_spelling(r) == padded_upper(s)
}

/// `[A-Za-z_][A-Za-z0-9_]*`
pub open spec fn valid_identifier(s: Seq<char>) -> bool {
    &&& s.len() >= 1
    &&& (is_letter(s[0]) || s[0] == '_')
    &&& forall|i: int|
        1 <= i < s.len() ==> is_letter(#[trigger] s[i]) || is_digit(s[i]) || s[i] == '_'
}

/// What is wrong with a lexeme, if anything: a number that is malformed or above 65535, or a
/// lexeme that is neither a number, a mnemonic, a register nor an identifier.
pub open spec fn lexeme_fault(s: Seq<char>) -> Option<Fault> {
    if hex_literal(s) || decimal_literal(s) {
        match literal_value(s) {
            Some(v) => if v <= 65535 {
                None
            } else {
                Some(Fault::Number(s))
            },
            None => Some(Fault::Number(s)),
        }
    } else if names_mnemonic(s) || names_register(s) || valid_identifier(s) {
        None
    } else {
        Some(Fault::Lexeme(s))
    }
}

/// `t` is the token for a lexeme without fault: a number below 256 is `U8`, a larger one `U16`;
/// then mnemonics, registers and labels, in that order.
pub open spec fn lexeme_token(s: Seq<char>, t: TokenType) -> bool {
    if hex_literal(s) || decimal_literal(s) {
        let v = literal_value(s)->Some_0;
        if v < 256 {
            t == TokenType::U8(v as u8)
        } else {
            t == TokenType::U16(v as u16)
        }
    } else if names_mnemonic(s) {
        t matches TokenType::Operation(m) && spelling(m) == padded_upper(s)
    } else if names_register(s) {
        t matches TokenType::Register(r) && register_spelling(r) == padded_upper(s)
    } else {
        t matches TokenType::Label(x) && x@ == s
    }
}

/// Relies on `String::push`: the string grows by one character at its end.
#[verifier::external_body]
fn push_char(s: &mut String, c: char)
    ensures
        final(s)@ == old(s)@.push(c),
{
    s.push(c);
}

/// The characters of `code`, in order.
pub fn chars_of(code: &str) -> (r: Vec<char>)
    ensures
        r@ == code@,
{
    let mut out: Vec<char> = Vec::new();
    for c in it: code.chars()
        invariant
            it.seq() == code@,
            out@ == it.seq().subrange(0, it.index() as int),
    {
        out.push(c);
    }
    out
}

fn to_upper(c: char) -> (r: char)
    ensures
        r == upper(c),
{
    if 'a' <= c && c <= 'z' {
        ((c as u8) - 32) as char
    } else {
        c
    }
}

/// The first four characters in upper case, padded with spaces.
fn pad4(s: &[char]) -> (r: (char, char, char, char))
    ensures
        r == padded_upper(s@),
{
    let a = if s.len() > 0 {
        to_upper(s[0])
    } else {
        ' '
    };
    let b = if s.len() > 1 {
        to_upper(s[1])
    } else {
        ' '
    };
    let c = if s.len() > 2 {
        to_upper(s[2])
    } else {
        ' '
    };
    let d = if s.len() > 3 {
        to_upper(s[3])
    } else {
        ' '
    };
    (a, b, c, d)
}

/// The register named by four upper-case characters (shorter names padded with spaces).
fn register_word(c: (char, char, char, char)) -> (r: Option<Register>)
    ensures
        r matches Some(x) ==> register_spelling(x) == c,
        r is None ==> forall|x: Register| register_spelling(x) != c,
{
    match c {
        ('A', ' ', ' ', ' ') => Some(Register::A),
        ('B', ' ', ' ', ' ') => Some(Register::B),
        ('C', ' ', ' ', ' ') => Some(Register::C),
        ('D', ' ', ' ', ' ') => Some(Register::D),
        ('E', ' ', ' ', ' ') => Some(Register::E),
        ('H', ' ', ' ', ' ') => Some(Register::H),
        ('L', ' ', ' ', ' ') => Some(Register::L),
        ('M', ' ', ' ', ' ') => Some(Register::M),
        ('S', 'P', ' ', ' ') => Some(Register::SP),
        ('P', 'S', 'W', ' ') => Some(Register::PSW),
        _ => None,
    }
}

fn digit_of(c: char, base: u32) -> (r: Option<u32>)
    requires
        base == 10 || base == 16,
    ensures
        match digit_value(c, base as nat) {
            Some(d) => r == Some(d as u32),
            None => r is None,
        },
{
    if '0' <= c && c <= '9' {
        Some(c as u32 - '0' as u32)
    } else if base == 16 && 'a' <= c && c <= 'f' {
        Some(c as u32 - 'a' as u32 + 10)
    } else if base == 16 && 'A' <= c && c <= 'F' {
        Some(c as u32 - 'A' as u32 + 10)
    } else {
        None
    }
}

proof fn lemma_value_grows(s: Seq<char>, i: int, j: int, base: nat)
    requires
        0 <= i <= j <= s.len(),
        base >= 1,
    ensures
        number_value(s.subrange(0, j), base) >= number_value(s.subrange(0, i), base),
    decreases j - i,
{
    if i < j {
        lemma_value_grows(s, i, j - 1, base);
        let p = s.subrange(0, j - 1);
        assert(s.subrange(0, j).drop_last() =~= p);
        let v = number_value(p, base);
        assert(v * base >= v) by (nonlinear_arith)
            requires
                base >= 1,
        ;
    }
}

/// The number written by the first `end` characters in the given base, if they are all digits
/// and it is at most 65535.
fn number_in(s: &[char], end: usize, base: u32) -> (r: Option<u16>)
    requires
        end <= s@.len(),
        base == 10 || base == 16,
    ensures
        match r {
            Some(v) => all_digits(s@.subrange(0, end as int), base as nat) && number_value(
                s@.subrange(0, end as int),
                base as nat,
            ) == v,
            None => !all_digits(s@.subrange(0, end as int), base as nat) || number_value(
                s@.subrange(0, end as int),
                base as nat,
            ) > 65535,
        },
{
    let mut acc: u32 = 0;
    let mut i: usize = 0;
    assert(s@.subrange(0, 0) =~= Seq::<char>::empty());
    while i < end
        invariant
            i <= end <= s@.len(),
            base == 10 || base == 16,
            acc <= 65535,
            all_digits(s@.subrange(0, i as int), base as nat),
            number_value(s@.subrange(0, i as int), base as nat) == acc,
        decreases end - i,
    {
        let ghost next = s@.subrange(0, i + 1);
        assert(next.drop_last() =~= s@.subrange(0, i as int));
        assert(next.last() == s@[i as int]);
        let d = match digit_of(s[i], base) {
            Some(d) => d,
            None => {
                assert(s@.subrange(0, end as int)[i as int] == s@[i as int]);
                return None;
            },
        };
        acc = acc * base + d;
        if acc > 65535 {
            proof {
                lemma_value_grows(s@, i + 1, end as int, base as nat);
            }
            return None;
        }
        assert forall|k: int| 0 <= k < next.len() implies (#[trigger] digit_value(
            next[k],
            base as nat,
        )) is Some by {
            if k < i {
                assert(next[k] == s@.subrange(0, i as int)[k]);
            }
        }
        i = i + 1;
    }
    Some(acc as u16)
}

/// True iff the lexeme is one or more decimal digits.
fn is_numeric(lexeme: &[char]) -> (r: bool)
    ensures
        r == decimal_literal(lexeme@),
{
    if lexeme.len() == 0 {
        return false;
    }
    let mut i: usize = 0;
    while i < lexeme.len()
        invariant
            i <= lexeme@.len(),
            forall|k: int| 0 <= k < i ==> (#[trigger] digit_value(lexeme@[k], 10)) is Some,
        decreases lexeme.len() - i,
    {
        let c = lexeme[i];
        if !('0' <= c && c <= '9') {
            assert(digit_value(lexeme@[i as int], 10) is None);
            return false;
        }
        i = i + 1;
    }
    true
}

/// True iff the lexeme matches `[A-Za-z_][A-Za-z0-9_]*`.
fn is_valid_identifier(lexeme: &[char]) -> (r: bool)
    ensures
        r == valid_identifier(lexeme@),
{
    if lexeme.len() == 0 {
        return false;
    }
    let first = lexeme[0];
    if !(('a' <= first && first <= 'z') || ('A' <= first && first <= 'Z') || first == '_') {
        return false;
    }
    let mut i: usize = 1;
    while i < lexeme.len()
        invariant
            1 <= i <= lexeme@.len(),
            forall|k: int|
                1 <= k < i ==> is_letter(#[trigger] lexeme@[k]) || is_digit(lexeme@[k])
                    || lexeme@[k] == '_',
        decreases lexeme.len() - i,
    {
        let c = lexeme[i];
        if !(('a' <= c && c <= 'z') || ('A' <= c && c <= 'Z') || ('0' <= c && c <= '9') || c
            == '_') {
            return false;
        }
        i = i + 1;
    }
    true
}

/// The lexeme as a string.
fn text(lexeme: &[char]) -> (r: String)
    ensures
        r@ == lexeme@,
{
    let mut r = String::new();
    let mut i: usize = 0;
    while i < lexeme.len()
        invariant
            i <= lexeme@.len(),
            r@ == lexeme@.subrange(0, i as int),
        decreases lexeme.len() - i,
    {
        push_char(&mut r, lexeme[i]);
        i = i + 1;
        assert(r@ =~= lexeme@.subrange(0, i as int));
    }
    assert(lexeme@.subrange(0, i as int) =~= lexeme@);
    r
}

/// The token for one lexeme found at (`line_number`, `col_num`).
pub fn make_token(line_number: usize, col_num: usize, lexeme: &[char]) -> (r: Result<Token, ParseError>)
    ensures
        match r {
            Ok(t) => t.position == (line_number, col_num) && lexeme_fault(lexeme@) is None
                && lexeme_token(lexeme@, t.token),
            Err(e) => e.position == (line_number, col_num) && lexeme_fault(lexeme@) == Some(
                e.fault(),
            ),
        },
{
    let position = (line_number, col_num);
    let n = lexeme.len();
    let hex = n >= 2 && '0' <= lexeme[0] && lexeme[0] <= '9' && (lexeme[n - 1] == 'H' || lexeme[n
        - 1] == 'h' || lexeme[n - 1] == 'K' || lexeme[n - 1] == 'k');
    if hex || is_numeric(lexeme) {
        let value = if hex {
            number_in(lexeme, n - 1, 16)
        } else {
            number_in(lexeme, n, 10)
        };
        proof {
            assert(lexeme@.subrange(0, n - 1) =~= lexeme@.drop_last());
            assert(lexeme@.subrange(0, n as int) =~= lexeme@);
        }
        return match value {
            Some(v) => if v < 256 {
                Ok(Token { position, token: TokenType::U8(v as u8) })
            } else {
                Ok(Token { position, token: TokenType::U16(v) })
            },
            None => Err(ParseError { position, error: ErrorKind::NumberError(text(lexeme)) }),
        };
    }
    if 1 <= n && n <= 4 {
        let word = pad4(lexeme);
        match keyword(word) {
            Some(m) => {
                return Ok(Token { position, token: TokenType::Operation(m) });
            },
            None => {},
        }
        match register_word(word) {
            Some(reg) => {
                return Ok(Token { position, token: TokenType::Register(reg) });
            },
            None => {},
        }
    }
    if is_valid_identifier(lexeme) {
        Ok(Token { position, token: TokenType::Label(text(lexeme)) })
    } else {
        Err(ParseError { position, error: ErrorKind::UnexpectedLexeme(text(lexeme)) })
    }
}

/// A piece of source text: a lexeme with the position of its first character, or a comma or
/// colon with its position.
pub enum Piece {
    Word(Seq<char>, (int, int)),
    Punct(TokenKind, (int, int)),
}

/// The 1-based (line, column) of character `k`; a line ends with `\n`.
pub open spec fn position_of(s: Seq<char>, k: int) -> (int, int)
    decreases k,
{
    if k <= 0 {
        (1, 1)
    } else {
        let p = position_of(s, k - 1);
        if s[k - 1] == '\n' {
            (p.0 + 1, 1)
        } else {
            (p.0, p.1 + 1)
        }
    }
}

/// The pieces completed within the first `j` characters, and the start of the lexeme still
/// open after them (-1 if none).
pub open spec fn scan(s: Seq<char>, j: int) -> (Seq<Piece>, int)
    decreases j,
{
    if j <= 0 {
        (Seq::empty(), -1)
    } else {
        let prev = scan(s, j - 1);
        let c = s[j - 1];
        if is_separator(c) {
            let words = if prev.1 >= 0 {
                prev.0.push(Piece::Word(s.subrange(prev.1, j - 1), position_of(s, prev.1)))
            } else {
                prev.0
            };
            let all = if c == ',' {
                words.push(Piece::Punct(TokenKind::Comma, position_of(s, j - 1)))
            } else if c == ':' {
                words.push(Piece::Punct(TokenKind::Colon, position_of(s, j - 1)))
            } else {
                words
            };
            (all, -1)
        } else if prev.1 >= 0 {
            prev
        } else {
            (prev.0, j - 1)
        }
    }
}

/// The pieces of a source text: lexemes are maximal runs of non-separator characters.
pub open spec fn pieces(s: Seq<char>) -> Seq<Piece> {
    let r = scan(s, s.len() as int);
    if r.1 >= 0 {
        r.0.push(Piece::Word(s.subrange(r.1, s.len() as int), position_of(s, r.1)))
    } else {
        r.0
    }
}

/// The first lexeme with a fault, as the error it gives.
pub open spec fn first_fault(ps: Seq<Piece>) -> Option<(Fault, (int, int))>
    decreases ps.len(),
{
    if ps.len() == 0 {
        None
    } else {
        match first_fault(ps.drop_last()) {
            Some(f) => Some(f),
            None => match ps.last() {
                Piece::Word(w, p) => match lexeme_fault(w) {
                    Some(f) => Some((f, p)),
                    None => None,
                },
                _ => None,
            },
        }
    }
}

/// A token stands for a piece: same position, and the lexeme's token or the separator.
pub open spec fn token_matches(t: Token, p: Piece) -> bool {
    match p {
        Piece::Word(w, pos) => (t.position.0 as int, t.position.1 as int) == pos && lexeme_token(
            w,
            t.token,
        ),
        Piece::Punct(k, pos) => (t.position.0 as int, t.position.1 as int) == pos && kind_of(
            t.token,
        ) == k,
    }
}

pub open spec fn tokens_match(ts: Seq<Token>, ps: Seq<Piece>) -> bool {
    ts.len() == ps.len() && forall|k: int| 0 <= k < ps.len() ==> token_matches(#[trigger] ts[k], ps[k])
}

proof fn lemma_fault_persists(ps: Seq<Piece>, j: int)
    requires
        0 <= j <= ps.len(),
        first_fault(ps.subrange(0, j)) is Some,
    ensures
        first_fault(ps) == first_fault(ps.subrange(0, j)),
    decreases ps.len() - j,
{
    if j < ps.len() {
        assert(ps.subrange(0, j + 1).drop_last() =~= ps.subrange(0, j));
        lemma_fault_persists(ps, j + 1);
    } else {
        assert(ps.subrange(0, j) =~= ps);
    }
}

/// What is completed within a prefix stays a prefix of the whole text's pieces.
proof fn lemma_scan_prefix(s: Seq<char>, j: int, k: int)
    requires
        0 <= j <= k <= s.len(),
    ensures
        scan(s, j).0.len() <= scan(s, k).0.len(),
        scan(s, k).0.subrange(0, scan(s, j).0.len() as int) == scan(s, j).0,
    decreases k - j,
{
    if j < k {
        lemma_scan_prefix(s, j, k - 1);
        let a = scan(s, j).0;
        let b = scan(s, k - 1).0;
        let c = scan(s, k).0;
        assert(c.subrange(0, b.len() as int) =~= b);
        assert(c.subrange(0, a.len() as int) =~= b.subrange(0, a.len() as int));
    } else {
        assert(scan(s, k).0.subrange(0, scan(s, j).0.len() as int) =~= scan(s, j).0);
    }
}

proof fn lemma_pieces_extend_scan(s: Seq<char>)
    ensures
        scan(s, s.len() as int).0.len() <= pieces(s).len(),
        pieces(s).subrange(0, scan(s, s.len() as int).0.len() as int) == scan(s, s.len() as int).0,
{
    let r = scan(s, s.len() as int);
    assert(pieces(s).subrange(0, r.0.len() as int) =~= r.0);
}

/// A copy of `v[from..to]`.
fn sub_chars(v: &Vec<char>, from: usize, to: usize) -> (r: Vec<char>)
    requires
        from <= to <= v@.len(),
    ensures
        r@ == v@.subrange(from as int, to as int),
{
    let mut r: Vec<char> = Vec::new();
    let mut i = from;
    while i < to
        invariant
            from <= i <= to <= v@.len(),
            r@ == v@.subrange(from as int, i as int),
        decreases to - i,
    {
        r.push(v[i]);
        i = i + 1;
        assert(r@ =~= v@.subrange(from as int, i as int));
    }
    r
}

/// Split source text into tokens, ending with an `End` token. Lexemes are the maximal runs of
/// characters other than blanks, line breaks, commas and colons; each comma and colon is a
/// token of its own. The first lexeme that is no valid token is the error.
pub fn tokenize(code: &str) -> (r: Result<TokenStream, ParseError>)
    ensures
        match r {
            Ok(ts) => first_fault(pieces(code@)) is None && ts.tokens@.len() == pieces(code@).len()
                + 1 && tokens_match(ts.tokens@.drop_last(), pieces(code@))
                && ts.tokens@.last().token is End,
            Err(e) => first_fault(pieces(code@)) == Some(
                (e.fault(), (e.position.0 as int, e.position.1 as int)),
            ),
        },
{
    let chars = chars_of(code);
    let ghost s = code@;
    let mut tokens: Vec<Token> = Vec::new();
    let mut line0: usize = 0;
    let mut col0: usize = 0;
    let mut start: usize = 0;
    let mut in_word = false;
    let mut word_line: usize = 0;
    let mut word_col: usize = 0;
    let mut i: usize = 0;
    while i < chars.len()
        invariant
            s == code@,
            chars@ == s,
            i <= s.len(),
            line0 <= i,
            col0 <= i,
            position_of(s, i as int) == (line0 + 1, col0 + 1),
            scan(s, i as int).1 == if in_word {
                start as int
            } else {
                -1
            },
            in_word ==> start < i && position_of(s, start as int) == (
                word_line as int,
                word_col as int,
            ),
            tokens_match(tokens@, scan(s, i as int).0),
            first_fault(scan(s, i as int).0) is None,
        decreases chars.len() - i,
    {
        let c = chars[i];
        let ghost prev = scan(s, i as int);
        let ghost mut done = prev.0;
        if c == ' ' || c == '\t' || c == ',' || c == ':' || c == '\n' || c == '\r' {
            if in_word {
                let word = sub_chars(&chars, start, i);
                let ghost piece = Piece::Word(s.subrange(start as int, i as int), position_of(s, start as int));
                let ghost ts0 = tokens@;
                match make_token(word_line, word_col, word.as_slice()) {
                    Ok(t) => {
                        tokens.push(t);
                        proof {
                            done = prev.0.push(piece);
                            assert(done.drop_last() =~= prev.0);
                            assert forall|k: int| 0 <= k < done.len() implies token_matches(
                                #[trigger] tokens@[k],
                                done[k],
                            ) by {
                                if k < ts0.len() {
                                    assert(tokens@[k] == ts0[k]);
                                }
                            }
                        }
                    },
                    Err(e) => {
                        proof {
                            let upto = prev.0.push(piece);
                            assert(upto.drop_last() =~= prev.0);
                            assert(word@ == s.subrange(start as int, i as int));
                            assert(first_fault(upto) == Some((e.fault(), position_of(s, start as int))));
                            let cur = scan(s, i + 1).0;
                            assert(cur.subrange(0, upto.len() as int) =~= upto);
                            lemma_scan_prefix(s, i + 1, s.len() as int);
                            lemma_pieces_extend_scan(s);
                            let all = pieces(s);
                            let whole = scan(s, s.len() as int).0;
                            assert(all.subrange(0, cur.len() as int) =~= cur) by {
                                assert(whole.subrange(0, cur.len() as int) == cur);
                                assert(all.subrange(0, whole.len() as int) == whole);
                                assert forall|k: int| 0 <= k < cur.len() implies all[k] == cur[k] by {
                                    assert(whole.subrange(0, cur.len() as int)[k] == cur[k]);
                                    assert(all.subrange(0, whole.len() as int)[k] == whole[k]);
                                }
                            }
                            assert(all.subrange(0, upto.len() as int) =~= upto) by {
                                assert forall|k: int| 0 <= k < upto.len() implies all[k] == upto[k] by {
                                    assert(all.subrange(0, cur.len() as int)[k] == cur[k]);
                                    assert(cur.subrange(0, upto.len() as int)[k] == upto[k]);
                                }
                            }
                            assert(all.subrange(0, upto.len() as int) =~= upto);
                            lemma_fault_persists(all, upto.len() as int);
                            assert(first_fault(all) == first_fault(upto));
                            assert(e.position == (word_line, word_col));
                            assert(first_fault(pieces(s)) == Some(
                                (e.fault(), (e.position.0 as int, e.position.1 as int)),
                            ));
                        }
                        return Err(e);
                    },
                }
                in_word = false;
            }
            let ghost ts1 = tokens@;
            let ghost here = (line0 + 1, col0 + 1);
            if c == ',' {
                tokens.push(Token { position: (line0 + 1, col0 + 1), token: TokenType::Comma });
            } else if c == ':' {
                tokens.push(Token { position: (line0 + 1, col0 + 1), token: TokenType::Colon });
            }
            if c == '\n' {
                line0 = line0 + 1;
                col0 = 0;
            } else {
                col0 = col0 + 1;
            }
            proof {
                let cur = scan(s, i + 1).0;
                if c == ',' || c == ':' {
                    assert(cur.drop_last() =~= done);
                    assert forall|k: int| 0 <= k < cur.len() implies token_matches(
                        #[trigger] tokens@[k],
                        cur[k],
                    ) by {
                        if k < ts1.len() {
                            assert(tokens@[k] == ts1[k]);
                            assert(cur[k] == done[k]);
                        }
                    }
                } else {
                    assert(cur =~= done);
                }
            }
        } else {
            if !in_word {
                in_word = true;
                start = i;
                word_line = line0 + 1;
                word_col = col0 + 1;
            }
            col0 = col0 + 1;
        }
        i = i + 1;
    }
    if in_word {
        let word = sub_chars(&chars, start, i);
        let ghost before = scan(s, i as int).0;
        let ghost piece = Piece::Word(s.subrange(start as int, i as int), position_of(s, start as int));
        match make_token(word_line, word_col, word.as_slice()) {
            Ok(t) => {
                tokens.push(t);
                proof {
                    assert(before.push(piece).drop_last() =~= before);
                    assert(pieces(s) == before.push(piece));
                }
            },
            Err(e) => {
                proof {
                    assert(before.push(piece).drop_last() =~= before);
                    assert(pieces(s) == before.push(piece));
                    assert(word@ == s.subrange(start as int, i as int));
                    assert(lexeme_fault(s.subrange(start as int, i as int)) == Some(e.fault()));
                    assert(first_fault(before.push(piece)) == Some((e.fault(), position_of(s, start as int))));
                }
                return Err(e);
            },
        }
    }
    let ghost body = tokens@;
    tokens.push(Token { position: (0, 0), token: TokenType::End });
    proof {
        assert(tokens@.drop_last() =~= body);
    }
    Ok(TokenStream { tokens })
}

} // verus!
