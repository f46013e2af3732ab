use vstd::prelude::*;
use crate::assembler::lexer::chars_of;

verus! {

/// The class of a token.
#[derive(Debug, Clone, Copy, PartialEq, Eq, Structural)]
pub enum TokenType {
    Name,
    HexLiteral,
    Comma,
    Colon,
    NewLine,
}

/// A token with its text and its 1-based source position.
#[derive(Debug, Clone)]
pub struct Token {
    token_type: TokenType,
    lexeme: String,
    line: usize,
    column: usize,
}

/// A token as a value.
pub struct TokenView {
    pub kind: TokenType,
    pub lexeme: Seq<char>,
    pub line: nat,
    pub column: nat,
}

impl View for Token {
    type V = TokenView;

    closed spec fn view(&self) -> TokenView {
        TokenView {
            kind: self.token_type,
            lexeme: self.lexeme@,
            line: self.line as nat,
            column: self.column as nat,
        }
    }
}

/// The views of a sequence of tokens.
pub open spec fn tokens_view(v: Seq<Token>) -> Seq<TokenView> {
    v.map_values(|t: Token| t@)
}

/// The value of a hexadecimal digit.
pub open spec fn hex_digit_value(c: char) -> Option<nat> {
    if '0' <= c <= '9' {
        Some((c as nat - '0' as nat) as nat)
    } else if 'a' <= c <= 'f' {
        Some((c as nat - 'a' as nat + 10) as nat)
    } else if 'A' <= c <= 'F' {
        Some((c as nat - 'A' as nat + 10) as nat)
    } else {
        None
    }
}

pub open spec fn all_hex_digits(d: Seq<char>) -> bool {
    forall|i: int| 0 <= i < d.len() ==> (#[trigger] hex_digit_value(d[i])) is Some
}

/// The number that a string of hexadecimal digits stands for.
pub open spec fn hex_number(d: Seq<char>) -> nat
    decreases d.len(),
{
    if d.len() == 0 {
        0
    } else {
        hex_number(d.drop_last()) * 16 + hex_digit_value(d.last())->0
    }
}

/// `0x` or `0X` and nothing after it.
pub open spec fn is_bare_hex_prefix(w: Seq<char>) -> bool {
    w.len() == 2 && w[0] == '0' && (w[1] == 'x' || w[1] == 'X')
}

/// The digits of a word in hexadecimal form: what follows a `0x` or `0X`
/// prefix, or else what precedes an `h` or `H` suffix.
pub open spec fn hex_digits_of(w: Seq<char>) -> Option<Seq<char>> {
    if w.len() >= 2 && w[0] == '0' && (w[1] == 'x' || w[1] == 'X') {
        Some(w.subrange(2, w.len() as int))
    } else if w.len() >= 1 && (w.last() == 'h' || w.last() == 'H') {
        Some(w.drop_last())
    } else {
        None
    }
}

/// The value of a hexadecimal literal: a word in hexadecimal form whose
/// digits are at least one, all hexadecimal, and stand for at most 0xFFFF.
pub open spec fn hex_literal_value(w: Seq<char>) -> Option<u16> {
    match hex_digits_of(w) {
        Some(d) => if d.len() > 0 && all_hex_digits(d) && hex_number(d) <= 0xFFFF {
            Some(hex_number(d) as u16)
        } else {
            None
        },
        None => None,
    }
}

/// A number never gets smaller by appending digits.
pub proof fn lemma_hex_number_prefix(d: Seq<char>, k: int)
    requires
        0 <= k <= d.len(),
        all_hex_digits(d),
    ensures
        hex_number(d.take(k)) <= hex_number(d),
    decreases d.len(),
{
    if k < d.len() {
        let p = d.drop_last();
        assert(all_hex_digits(p)) by {
            assert forall|i: int| 0 <= i < p.len() implies (#[trigger] hex_digit_value(p[i])) is Some by {
                assert(p[i] == d[i]);
            }
        }
        lemma_hex_number_prefix(p, k);
        assert(p.take(k) == d.take(k));
    }
    assert(d.take(d.len() as int) == d);
}

/// The value of a hexadecimal digit.
pub fn hex_digit(c: char) -> (r: Option<u8>)
    ensures
        match hex_digit_value(c) {
            Some(v) => r == Some(v as u8),
            None => r is None,
        },
{
    if '0' <= c && c <= '9' {
        Some((c as u32 - '0' as u32) as u8)
    } else if 'a' <= c && c <= 'f' {
        Some((c as u32 - 'a' as u32 + 10) as u8)
    } else if 'A' <= c && c <= 'F' {
        Some((c as u32 - 'A' as u32 + 10) as u8)
    } else {
        None
    }
}

/// The value of a word read as a hexadecimal literal, if it is one.
pub fn hex_value(w: &Vec<char>) -> (r: Option<u16>)
    ensures
        r == hex_literal_value(w@),
{
    let n = w.len();
    let (start, end): (usize, usize) = if n >= 2 && w[0] == '0' && (w[1] == 'x' || w[1] == 'X') {
        (2, n)
    } else if n >= 1 && (w[n - 1] == 'h' || w[n - 1] == 'H') {
        (0, n - 1)
    } else {
        return None;
    };
    let ghost d = w@.subrange(start as int, end as int);
    assert(hex_digits_of(w@) == Some(d));
    if start == end {
        return None;
    }
    let mut value: u32 = 0;
    let mut i: usize = start;
    while i < end
        invariant
            start <= i <= end <= n == w@.len(),
            d == w@.subrange(start as int, end as int),
            hex_digits_of(w@) == Some(d),
            all_hex_digits(d.take(i - start)),
            value == hex_number(d.take(i - start)),
            value <= 0xFFFF,
        decreases end - i,
    {
        let k = i - start;
        assert(d.take(k + 1).drop_last() == d.take(k as int));
        assert(d[k as int] == w@[i as int]);
        match hex_digit(w[i]) {
            None => {
                assert(!all_hex_digits(d)) by {
                    assert(hex_digit_value(d[k as int]) is None);
                }
                return None;
            },
            Some(v) => {
                assert(all_hex_digits(d.take(k + 1))) by {
                    assert forall|j: int| 0 <= j < k + 1 implies (#[trigger] hex_digit_value(
                        d.take(k + 1)[j],
                    )) is Some by {
                        if j < k {
                            assert(d.take(k + 1)[j] == d.take(k as int)[j]);
                        }
                    }
                }
                value = value * 16 + v as u32;
                if value > 0xFFFF {
                    proof {
                        if all_hex_digits(d) {
                            lemma_hex_number_prefix(d, k + 1);
                        }
                    }
                    return None;
                }
            },
        }
        i = i + 1;
    }
    assert(d.take(end - start) == d);
    Some(value as u16)
}

impl Token {
    fn new(token_type: TokenType, lexeme: String, line: usize, column: usize) -> (r: Self)
        ensures
            r@ == (TokenView { kind: token_type, lexeme: lexeme@, line: line as nat, column: column as nat }),
    {
        Token { token_type, lexeme, line, column }
    }

    pub fn new_name(lexeme: String, line: usize, column: usize) -> (r: Self)
        ensures
            r@ == (TokenView { kind: TokenType::Name, lexeme: lexeme@, line: line as nat, column: column as nat }),
    {
        Self::new(TokenType::Name, lexeme, line, column)
    }

    pub fn new_hex_literal(lexeme: String, line: usize, column: usize) -> (r: Self)
        ensures
            r@ == (TokenView {
                kind: TokenType::HexLiteral,
                lexeme: lexeme@,
                line: line as nat,
                column: column as nat,
            }),
    {
        Self::new(TokenType::HexLiteral, lexeme, line, column)
    }

    pub fn new_comma(line: usize, column: usize) -> (r: Self)
        ensures
            r@ == (TokenView { kind: TokenType::Comma, lexeme: ","@, line: line as nat, column: column as nat }),
    {
        Self::new(TokenType::Comma, ",".to_owned(), line, column)
    }

    pub fn new_colon(line: usize, column: usize) -> (r: Self)
        ensures
            r@ == (TokenView { kind: TokenType::Colon, lexeme: ":"@, line: line as nat, column: column as nat }),
    {
        Self::new(TokenType::Colon, ":".to_owned(), line, column)
    }

    pub fn new_new_line(line: usize, column: usize) -> (r: Self)
        ensures
            r@ == (TokenView {
                kind: TokenType::NewLine,
                lexeme: "\n"@,
                line: line as nat,
                column: column as nat,
            }),
    {
        Self::new(TokenType::NewLine, "\n".to_owned(), line, column)
    }

    /// A word naming the class of `token`, for messages.
    pub fn type_of(token: &Token) -> (r: &'static str)
        ensures
            r@ == class_word(token@.kind),
    {
        match token.token_type {
            TokenType::Name => "name",
            TokenType::HexLiteral => "hex literal",
            TokenType::Comma => "comma",
            TokenType::Colon => "colon",
            TokenType::NewLine => "new line",
        }
    }

    pub fn token_type(&self) -> (r: TokenType)
        ensures
            r == self@.kind,
    {
        self.token_type
    }

    pub fn lexeme(&self) -> (r: &str)
        ensures
            r@ == self@.lexeme,
    {
        self.lexeme.as_str()
    }

    pub fn line(&self) -> (r: usize)
        ensures
            r == self@.line,
    {
        self.line
    }

    pub fn column(&self) -> (r: usize)
        ensures
            r == self@.column,
    {
        self.column
    }

    /// The value of the lexeme read as a hexadecimal literal, if it is one.
    pub fn hex_value(&self) -> (r: Option<u16>)
        ensures
            r == hex_literal_value(self@.lexeme),
    {
        let w = chars_of(self.lexeme.as_str());
        hex_value(&w)
    }
}

pub open spec fn class_word(kind: TokenType) -> Seq<char> {
    match kind {
        TokenType::Name => "name"@,
        TokenType::HexLiteral => "hex literal"@,
        TokenType::Comma => "comma"@,
        TokenType::Colon => "colon"@,
        TokenType::NewLine => "new line"@,
    }
}

} // verus!
