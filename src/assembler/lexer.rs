use vstd::prelude::*;
use crate::assembler::{AssemblerError, ErrorKind, quoted, push_char, result_view};
use crate::assembler::token::{
    Token, TokenType, TokenView, all_hex_digits, hex_digit_value, hex_digits_of, hex_number,
    hex_value, hex_literal_value, is_bare_hex_prefix, tokens_view,
};

verus! {

/// Whether a character has the Unicode `White_Space` property.
pub uninterp spec fn white_space(c: char) -> bool;

/// Whether a character has the Unicode `Alphabetic` property.
pub uninterp spec fn alphabetic(c: char) -> bool;

/// Relies on `char::is_whitespace`: whether `c` has the Unicode `White_Space`
/// property, a function of `c` alone.
#[verifier::external_body]
fn is_white_space(c: char) -> (r: bool)
    ensures
        r == white_space(c),
{
    c.is_whitespace()
}

/// Relies on `char::is_alphabetic`: whether `c` has the Unicode `Alphabetic`
/// property, a function of `c` alone.
#[verifier::external_body]
fn is_alphabetic(c: char) -> (r: bool)
    ensures
        r == alphabetic(c),
{
    c.is_alphabetic()
}

/// How the lexer treats a character.
#[derive(Debug, Clone, Copy, PartialEq, Eq, Structural)]
pub enum CharClass {
    /// Ends the line.
    LineEnd,
    /// `;`: the rest of the line is a comment.
    Semicolon,
    /// `/`: starts a comment when another `/` follows, else invalid.
    Slash,
    Comma,
    Colon,
    /// Part of a name or number.
    Word,
    /// Separates words.
    Space,
    Invalid,
}

pub open spec fn is_ascii_alnum(c: char) -> bool {
    ('0' <= c <= '9') || ('a' <= c <= 'z') || ('A' <= c <= 'Z')
}

/// The class of `c`, given whether it is Unicode white space (`space`) and
/// whether it is Unicode alphabetic (`letter`). ASCII letters and digits are
/// word characters whatever the two flags say.
pub open spec fn char_class_spec(c: char, space: bool, letter: bool) -> CharClass {
    if c == '\n' {
        CharClass::LineEnd
    } else if c == ';' {
        CharClass::Semicolon
    } else if c == '/' {
        CharClass::Slash
    } else if c == ',' {
        CharClass::Comma
    } else if c == ':' {
        CharClass::Colon
    } else if is_ascii_alnum(c) {
        CharClass::Word
    } else if space {
        CharClass::Space
    } else if letter {
        CharClass::Word
    } else {
        CharClass::Invalid
    }
}

/// The class the lexer gives `c`.
pub open spec fn class_of(c: char) -> CharClass {
    char_class_spec(c, white_space(c), alphabetic(c))
}

/// The class of `c`, given whether it is Unicode white space and whether it
/// is Unicode alphabetic.
pub fn char_class(c: char, space: bool, letter: bool) -> (r: CharClass)
    ensures
        r == char_class_spec(c, space, letter),
{
    if c == '\n' {
        CharClass::LineEnd
    } else if c == ';' {
        CharClass::Semicolon
    } else if c == '/' {
        CharClass::Slash
    } else if c == ',' {
        CharClass::Comma
    } else if c == ':' {
        CharClass::Colon
    } else if ('0' <= c && c <= '9') || ('a' <= c && c <= 'z') || ('A' <= c && c <= 'Z') {
        CharClass::Word
    } else if space {
        CharClass::Space
    } else if letter {
        CharClass::Word
    } else {
        CharClass::Invalid
    }
}

/// The lexer between two characters: the tokens so far, the word being read
/// and the 0-based column where it started, the 0-based line and column of
/// the next character, and whether the rest of the line is a comment.
pub struct LexState {
    pub tokens: Seq<TokenView>,
    pub word: Seq<char>,
    pub word_col: nat,
    pub line: nat,
    pub col: nat,
    pub comment: bool,
}

pub open spec fn syntax_at(line: nat, col: nat) -> ErrorKind {
    ErrorKind::Syntax { line: Some(line), column: Some(col) }
}

/// The token a complete word makes at the given 1-based position: a hex
/// literal when it reads as one, a name otherwise, and an error for a `0x`
/// prefix with no digits.
pub open spec fn word_token(w: Seq<char>, line: nat, col: nat) -> Result<TokenView, ErrorKind> {
    if is_bare_hex_prefix(w) {
        Err(syntax_at(line, col))
    } else if hex_literal_value(w) is Some {
        Ok(TokenView { kind: TokenType::HexLiteral, lexeme: w, line, column: col })
    } else {
        Ok(TokenView { kind: TokenType::Name, lexeme: w, line, column: col })
    }
}

/// Ends the word being read, if any, turning it into a token.
pub open spec fn flush_spec(st: LexState) -> Result<LexState, ErrorKind> {
    if st.word.len() == 0 {
        Ok(st)
    } else {
        match word_token(st.word, st.line + 1, st.word_col + 1) {
            Ok(t) => Ok(LexState { tokens: st.tokens.push(t), word: Seq::empty(), ..st }),
            Err(e) => Err(e),
        }
    }
}

/// Ends the line: the pending word, then a new-line token.
pub open spec fn end_line_spec(st: LexState) -> Result<LexState, ErrorKind> {
    match flush_spec(st) {
        Ok(f) => Ok(
            LexState {
                tokens: f.tokens.push(
                    TokenView {
                        kind: TokenType::NewLine,
                        lexeme: "\n"@,
                        line: f.line + 1,
                        column: f.col + 1,
                    },
                ),
                line: f.line + 1,
                col: 0,
                comment: false,
                ..f
            },
        ),
        Err(e) => Err(e),
    }
}

/// A delimiter: the pending word, then the delimiter's own token.
pub open spec fn delimiter_spec(st: LexState, kind: TokenType, lexeme: Seq<char>) -> Result<
    LexState,
    ErrorKind,
> {
    match flush_spec(st) {
        Ok(f) => Ok(
            LexState {
                tokens: f.tokens.push(
                    TokenView { kind, lexeme, line: f.line + 1, column: f.col + 1 },
                ),
                col: f.col + 1,
                ..f
            },
        ),
        Err(e) => Err(e),
    }
}

/// Reads character `i` of `s`.
pub open spec fn lex_step(st: LexState, s: Seq<char>, i: int) -> Result<LexState, ErrorKind> {
    let c = s[i];
    let class = class_of(c);
    let next = LexState { col: st.col + 1, ..st };
    if class == CharClass::LineEnd {
        end_line_spec(st)
    } else if st.comment {
        Ok(next)
    } else {
        match class {
            CharClass::Semicolon => Ok(LexState { comment: true, ..next }),
            CharClass::Slash => if i + 1 < s.len() && s[i + 1] == '/' {
                Ok(LexState { comment: true, ..next })
            } else {
                Err(syntax_at(st.line + 1, st.col + 1))
            },
            CharClass::Comma => delimiter_spec(st, TokenType::Comma, ","@),
            CharClass::Colon => delimiter_spec(st, TokenType::Colon, ":"@),
            CharClass::Word => Ok(
                LexState {
                    word: st.word.push(c),
                    word_col: if st.word.len() == 0 {
                        st.col
                    } else {
                        st.word_col
                    },
                    ..next
                },
            ),
            CharClass::Space => match flush_spec(st) {
                Ok(f) => Ok(LexState { col: f.col + 1, ..f }),
                Err(e) => Err(e),
            },
            _ => Err(syntax_at(st.line + 1, st.col + 1)),
        }
    }
}

pub open spec fn initial_lex_state() -> LexState {
    LexState { tokens: Seq::empty(), word: Seq::empty(), word_col: 0, line: 0, col: 0, comment: false }
}

/// The lexer after reading the first `n` characters of `s`, or the first
/// error among them.
pub open spec fn lex_prefix(s: Seq<char>, n: nat) -> Result<LexState, ErrorKind>
    decreases n,
{
    if n == 0 {
        Ok(initial_lex_state())
    } else {
        match lex_prefix(s, (n - 1) as nat) {
            Ok(st) => lex_step(st, s, n - 1),
            Err(e) => Err(e),
        }
    }
}

/// Once the lexer has failed, it stays failed with the same error.
pub proof fn lemma_lex_error_persists(s: Seq<char>, m: nat, n: nat)
    requires
        m <= n,
        lex_prefix(s, m) is Err,
    ensures
        lex_prefix(s, n) == lex_prefix(s, m),
    decreases n - m,
{
    if m < n {
        lemma_lex_error_persists(s, m, (n - 1) as nat);
    }
}

/// The tokens of a source text, or its first lexical error. A last line
/// without a line end is ended as if it had one.
pub open spec fn tokenize_spec(s: Seq<char>) -> Result<Seq<TokenView>, ErrorKind> {
    match lex_prefix(s, s.len()) {
        Ok(st) => if st.col > 0 {
            match end_line_spec(st) {
                Ok(f) => Ok(f.tokens),
                Err(e) => Err(e),
            }
        } else {
            Ok(st.tokens)
        },
        Err(e) => Err(e),
    }
}

/// The characters of `s`, in order.
pub fn chars_of(s: &str) -> (r: Vec<char>)
    ensures
        r@ == s@,
{
    let mut v: Vec<char> = Vec::new();
    for c in it: s.chars()
        invariant
            v@ == it.seq().take(it.index() as int),
    {
        v.push(c);
    }
    v
}

/// A string holding the characters of `w`.
pub fn string_of(w: &Vec<char>) -> (r: String)
    ensures
        r@ == w@,
{
    let mut s = String::new();
    let mut i: usize = 0;
    while i < w.len()
        invariant
            i <= w@.len(),
            s@ == w@.take(i as int),
        decreases w@.len() - i,
    {
        push_char(&mut s, w[i]);
        assert(w@.take(i + 1) == w@.take(i as int).push(w@[i as int]));
        i = i + 1;
    }
    assert(w@.take(w@.len() as int) == w@);
    s
}

/// The lexer state held in the variables of `tokenize`.
pub open spec fn state_of(
    tokens: Seq<Token>,
    word: Seq<char>,
    word_col: usize,
    line: usize,
    col: usize,
    comment: bool,
) -> LexState {
    LexState {
        tokens: tokens_view(tokens),
        word,
        word_col: word_col as nat,
        line: line as nat,
        col: col as nat,
        comment,
    }
}

/// The token a complete word makes at the given 1-based position: a hex
/// literal when it reads as one, a name otherwise; `0x` without digits is an
/// error.
pub fn str_to_tok(word: &Vec<char>, line: usize, column: usize) -> (r: Result<Token, AssemblerError>)
    ensures
        result_view(r, |t: Token| t@) == word_token(word@, line as nat, column as nat),
{
    let text = string_of(word);
    if word.len() == 2 && word[0] == '0' && (word[1] == 'x' || word[1] == 'X') {
        return Err(
            AssemblerError::SyntaxError(
                quoted("empty hex literal", text.as_str()),
                Some(line),
                Some(column),
            ),
        );
    }
    match hex_value(word) {
        Some(_) => Ok(Token::new_hex_literal(text, line, column)),
        None => Ok(Token::new_name(text, line, column)),
    }
}

/// Turns the pending word, if any, into a token.
fn flush_buffer(
    word: &mut Vec<char>,
    tokens: &mut Vec<Token>,
    line: usize,
    word_col: usize,
    col: usize,
    comment: bool,
) -> (r: Result<(), AssemblerError>)
    requires
        line < usize::MAX,
        word_col < usize::MAX,
    ensures
        match flush_spec(state_of(old(tokens)@, old(word)@, word_col, line, col, comment)) {
            Ok(f) => r is Ok && f == state_of(final(tokens)@, final(word)@, word_col, line, col, comment),
            Err(e) => r matches Err(err) && err@ == e,
        },
{
    if word.len() == 0 {
        return Ok(());
    }
    let token = match str_to_tok(word, line + 1, word_col + 1) {
        Ok(t) => t,
        Err(e) => return Err(e),
    };
    let ghost before = tokens@;
    tokens.push(token);
    assert(tokens_view(tokens@) == tokens_view(before).push(token@));
    *word = Vec::new();
    Ok(())
}

/// An error for the invalid character `c` at the given 0-based position.
fn invalid_character(c: char, line: usize, col: usize) -> (r: AssemblerError)
    requires
        line < usize::MAX,
        col < usize::MAX,
    ensures
        r@ == syntax_at((line + 1) as nat, (col + 1) as nat),
{
    let mut shown = String::new();
    push_char(&mut shown, c);
    AssemblerError::SyntaxError(
        quoted("invalid character", shown.as_str()),
        Some(line + 1),
        Some(col + 1),
    )
}

/// Splits a source text into tokens: names, hex literals, commas, colons and
/// a new-line token at the end of every line. Fails at the first invalid
/// character or `0x` without digits.
pub fn tokenize(buffer: &str) -> (r: Result<Vec<Token>, AssemblerError>)
    requires
        buffer@.len() < usize::MAX,
    ensures
        result_view(r, |v: Vec<Token>| tokens_view(v@)) == tokenize_spec(buffer@),
{
    let s = chars_of(buffer);
    let mut tokens: Vec<Token> = Vec::new();
    let mut word: Vec<char> = Vec::new();
    let mut word_col: usize = 0;
    let mut line: usize = 0;
    let mut col: usize = 0;
    let mut comment = false;
    let mut k: usize = 0;
    assert(tokens_view(tokens@) =~= Seq::<TokenView>::empty());
    while k < s.len()
        invariant
            s@ == buffer@,
            s@.len() < usize::MAX,
            k <= s@.len(),
            line + col <= k,
            word_col <= k,
            lex_prefix(s@, k as nat) == Ok::<LexState, ErrorKind>(state_of(tokens@, word@, word_col, line, col, comment)),
        decreases s@.len() - k,
    {
        let c = s[k];
        let class = char_class(c, is_white_space(c), is_alphabetic(c));
        let ghost st = state_of(tokens@, word@, word_col, line, col, comment);
        assert(lex_prefix(s@, (k + 1) as nat) == lex_step(st, s@, k as int));
        let mut outcome: Result<(), AssemblerError> = Ok(());
        if class == CharClass::LineEnd {
            outcome = flush_buffer(&mut word, &mut tokens, line, word_col, col, comment);
            if outcome.is_ok() {
                let ghost before = tokens@;
                tokens.push(Token::new_new_line(line + 1, col + 1));
                assert(tokens_view(tokens@) == tokens_view(before).push(tokens@.last()@));
                line = line + 1;
                col = 0;
                comment = false;
            }
        } else if comment {
            col = col + 1;
        } else {
            match class {
                CharClass::Semicolon => {
                    comment = true;
                    col = col + 1;
                },
                CharClass::Slash => {
                    if k + 1 < s.len() && s[k + 1] == '/' {
                        comment = true;
                        col = col + 1;
                    } else {
                        outcome = Err(invalid_character(c, line, col));
                    }
                },
                CharClass::Comma | CharClass::Colon => {
                    outcome = flush_buffer(&mut word, &mut tokens, line, word_col, col, comment);
                    if outcome.is_ok() {
                        let ghost before = tokens@;
                        if class == CharClass::Comma {
                            tokens.push(Token::new_comma(line + 1, col + 1));
                        } else {
                            tokens.push(Token::new_colon(line + 1, col + 1));
                        }
                        assert(tokens_view(tokens@) == tokens_view(before).push(tokens@.last()@));
                        col = col + 1;
                    }
                },
                CharClass::Word => {
                    if word.len() == 0 {
                        word_col = col;
                    }
                    word.push(c);
                    col = col + 1;
                },
                CharClass::Space => {
                    outcome = flush_buffer(&mut word, &mut tokens, line, word_col, col, comment);
                    col = col + 1;
                },
                _ => {
                    outcome = Err(invalid_character(c, line, col));
                },
            }
        }
        if let Err(e) = outcome {
            proof {
                lemma_lex_error_persists(s@, (k + 1) as nat, s@.len());
            }
            return Err(e);
        }
        k = k + 1;
    }
    if col > 0 {
        let res = flush_buffer(&mut word, &mut tokens, line, word_col, col, comment);
        if let Err(e) = res {
            return Err(e);
        }
        let ghost before = tokens@;
        tokens.push(Token::new_new_line(line + 1, col + 1));
        assert(tokens_view(tokens@) == tokens_view(before).push(tokens@.last()@));
    }
    Ok(tokens)
}

} // verus!

verus! {

/// The character of a hexadecimal digit value below 16, in upper case.
pub open spec fn hex_digit_char(n: nat) -> char {
    if n < 10 {
        ('0' as nat + n) as char
    } else {
        ('A' as nat + n - 10) as char
    }
}

/// A 16-bit value as a hex literal: `0x` and four upper-case digits.
pub open spec fn hex_text(v: u16) -> Seq<char> {
    seq![
        '0',
        'x',
        hex_digit_char(v as nat / 4096),
        hex_digit_char(v as nat / 256 % 16),
        hex_digit_char(v as nat / 16 % 16),
        hex_digit_char(v as nat % 16),
    ]
}

/// The upper-case character of a hexadecimal digit value.
fn hex_digit_char_exec(n: u16) -> (r: char)
    requires
        n < 16,
    ensures
        r == hex_digit_char(n as nat),
{
    let digits: [char; 16] = [
        '0', '1', '2', '3', '4', '5', '6', '7', '8', '9', 'A', 'B', 'C', 'D', 'E', 'F',
    ];
    let c = digits[n as usize];
    assert(c == hex_digit_char(n as nat));
    c
}

/// Writes a 16-bit value as a hex literal: `0x` and four upper-case digits.
pub fn hex_literal_text(v: u16) -> (r: String)
    ensures
        r@ == hex_text(v),
{
    let mut s = String::new();
    push_char(&mut s, '0');
    push_char(&mut s, 'x');
    push_char(&mut s, hex_digit_char_exec(v / 4096));
    push_char(&mut s, hex_digit_char_exec(v / 256 % 16));
    push_char(&mut s, hex_digit_char_exec(v / 16 % 16));
    push_char(&mut s, hex_digit_char_exec(v % 16));
    assert(s@ == hex_text(v));
    s
}

/// A text made only of word characters reads as one growing word.
proof fn lemma_lex_word(s: Seq<char>, k: nat)
    requires
        k <= s.len(),
        forall|i: int| 0 <= i < s.len() ==> #[trigger] class_of(s[i]) == CharClass::Word,
    ensures
        lex_prefix(s, k) == Ok::<LexState, ErrorKind>(
            LexState {
                tokens: Seq::empty(),
                word: s.take(k as int),
                word_col: 0,
                line: 0,
                col: k,
                comment: false,
            },
        ),
    decreases k,
{
    if k > 0 {
        lemma_lex_word(s, (k - 1) as nat);
        assert(class_of(s[k - 1]) == CharClass::Word);
        assert(s.take(k - 1).push(s[k - 1]) == s.take(k as int));
    } else {
        assert(s.take(0) == Seq::<char>::empty());
    }
}

/// Any 16-bit value written as a hex literal lexes to one hex-literal token
/// (then the line end) whose value is that number; written again, the value
/// gives the same text.
pub proof fn law_hex_literal_round_trip(v: u16)
    ensures
        tokenize_spec(hex_text(v)) == Ok::<Seq<TokenView>, ErrorKind>(
            seq![
                TokenView { kind: TokenType::HexLiteral, lexeme: hex_text(v), line: 1, column: 1 },
                TokenView { kind: TokenType::NewLine, lexeme: "\n"@, line: 1, column: 7 },
            ],
        ),
        hex_literal_value(hex_text(v)) == Some(v),
{
    let s = hex_text(v);
    let d3 = v as nat / 4096;
    let d2 = v as nat / 256 % 16;
    let d1 = v as nat / 16 % 16;
    let d0 = v as nat % 16;
    assert(hex_digit_value(hex_digit_char(d3)) == Some(d3));
    assert(hex_digit_value(hex_digit_char(d2)) == Some(d2));
    assert(hex_digit_value(hex_digit_char(d1)) == Some(d1));
    assert(hex_digit_value(hex_digit_char(d0)) == Some(d0));
    let d = s.subrange(2, 6);
    assert(hex_digits_of(s) == Some(d));
    assert(all_hex_digits(d));
    let e1 = d.drop_last();
    let e2 = e1.drop_last();
    let e3 = e2.drop_last();
    let e4 = e3.drop_last();
    assert(e4 =~= Seq::<char>::empty());
    assert(e3.last() == hex_digit_char(d3));
    assert(e2.last() == hex_digit_char(d2));
    assert(e1.last() == hex_digit_char(d1));
    assert(d.last() == hex_digit_char(d0));
    assert(hex_number(e4) == 0);
    assert(hex_number(e3) == d3);
    assert(hex_number(e2) == d3 * 16 + d2);
    assert(hex_number(e1) == (d3 * 16 + d2) * 16 + d1);
    assert(hex_number(d) == ((d3 * 16 + d2) * 16 + d1) * 16 + d0);
    assert(((d3 * 16 + d2) * 16 + d1) * 16 + d0 == v) by (nonlinear_arith)
        requires
            d3 == v as nat / 4096,
            d2 == v as nat / 256 % 16,
            d1 == v as nat / 16 % 16,
            d0 == v as nat % 16,
            v <= 0xFFFF,
    ;
    assert forall|i: int| 0 <= i < s.len() implies #[trigger] class_of(s[i]) == CharClass::Word by {
        assert(is_ascii_alnum(s[i]));
    }
    lemma_lex_word(s, 6);
    assert(s.take(6) == s);
    let t1 = TokenView { kind: TokenType::HexLiteral, lexeme: s, line: 1, column: 1 };
    let t2 = TokenView { kind: TokenType::NewLine, lexeme: "\n"@, line: 1, column: 7 };
    assert(word_token(s, 1, 1) == Ok::<TokenView, ErrorKind>(t1));
    assert(Seq::<TokenView>::empty().push(t1).push(t2) == seq![t1, t2]);
}

} // verus!
