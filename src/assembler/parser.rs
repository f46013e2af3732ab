use vstd::prelude::*;
use std::collections::VecDeque;
use crate::assembler::{AssemblerError, ErrorKind, quoted, result_view};
use crate::assembler::lexer::chars_of;
use crate::assembler::mnemonics::{
    Form, encode_arg2, encode_arg3, encode_inst, mnemonic_spec, parse_arg, reg2_spec, reg3_spec,
    rst_spec,
};
use crate::assembler::token::{Token, TokenType, TokenView, hex_literal_value, hex_value, tokens_view};
use crate::bus::ORIGIN;

verus! {

/// What the parser expects next.
#[derive(Debug, Clone, Copy, PartialEq, Eq, Structural)]
pub enum State {
    /// An instruction, a label declaration or a blank line.
    Search,
    Comma,
    /// The colon after a label name.
    Colon,
    /// A source register (bits 0-2 of the opcode).
    SrcReg,
    /// A destination register (bits 3-5 of the opcode).
    DestReg,
    /// A register pair (bits 4-5 of the opcode).
    RegPair,
    /// An 8-bit value.
    Imm8,
    /// A 16-bit value or a label name.
    Imm16,
    /// A restart number (bits 3-5 of the opcode).
    RstImm,
    /// The end of the statement; the instruction is this many bytes long.
    Append(u8),
}

/// The states a mnemonic of the given form leads through.
pub open spec fn form_states(f: Form) -> Seq<State> {
    match f {
        Form::Implied => seq![State::Append(1)],
        Form::DstSrc => seq![State::DestReg, State::Comma, State::SrcReg, State::Append(1)],
        Form::DstImm8 => seq![State::DestReg, State::Comma, State::Imm8, State::Append(2)],
        Form::PairImm16 => seq![State::RegPair, State::Comma, State::Imm16, State::Append(3)],
        Form::Pair => seq![State::RegPair, State::Append(1)],
        Form::Addr => seq![State::Imm16, State::Append(3)],
        Form::Byte => seq![State::Imm8, State::Append(2)],
        Form::Dst => seq![State::DestReg, State::Append(1)],
        Form::Src => seq![State::SrcReg, State::Append(1)],
        Form::Rst => seq![State::RstImm, State::Append(1)],
    }
}

/// The states a mnemonic of the given form leads through.
pub fn form_states_exec(f: Form) -> (r: Vec<State>)
    ensures
        r@ == form_states(f),
{
    match f {
        Form::Implied => vec![State::Append(1)],
        Form::DstSrc => vec![State::DestReg, State::Comma, State::SrcReg, State::Append(1)],
        Form::DstImm8 => vec![State::DestReg, State::Comma, State::Imm8, State::Append(2)],
        Form::PairImm16 => vec![State::RegPair, State::Comma, State::Imm16, State::Append(3)],
        Form::Pair => vec![State::RegPair, State::Append(1)],
        Form::Addr => vec![State::Imm16, State::Append(3)],
        Form::Byte => vec![State::Imm8, State::Append(2)],
        Form::Dst => vec![State::DestReg, State::Append(1)],
        Form::Src => vec![State::SrcReg, State::Append(1)],
        Form::Rst => vec![State::RstImm, State::Append(1)],
    }
}

/// The parser between two tokens: the expected states, the instruction being
/// assembled (its bytes so far and the label it refers to, if any), the code
/// so far, the label declarations as (name, code offset), and the label
/// references as (code offset of the instruction, name).
pub struct ParseState {
    pub queue: Seq<State>,
    pub next_bytes: u32,
    pub pending: Option<Seq<char>>,
    pub buffer: Seq<u8>,
    pub labels: Seq<(Seq<char>, nat)>,
    pub refs: Seq<(nat, Seq<char>)>,
}

pub open spec fn initial_parse_state() -> ParseState {
    ParseState {
        queue: seq![State::Search],
        next_bytes: 0,
        pending: None,
        buffer: Seq::empty(),
        labels: Seq::empty(),
        refs: Seq::empty(),
    }
}

pub open spec fn syntax_err(t: TokenView) -> ErrorKind {
    ErrorKind::Syntax { line: Some(t.line), column: Some(t.column) }
}

pub open spec fn semantic_err(t: TokenView) -> ErrorKind {
    ErrorKind::Semantic { line: Some(t.line), column: Some(t.column) }
}

/// A token where an instruction, a label or a blank line may start. A name
/// that is a mnemonic starts an instruction, unless a colon follows (a
/// mnemonic cannot be a label); any other name declares a label at the
/// current code offset.
pub open spec fn search_spec(st: ParseState, toks: Seq<TokenView>, i: int) -> Result<
    ParseState,
    ErrorKind,
> {
    let t = toks[i];
    match t.kind {
        TokenType::Name => match mnemonic_spec(t.lexeme) {
            Some((op, form)) => if i + 1 < toks.len() && toks[i + 1].kind == TokenType::Colon {
                Err(semantic_err(t))
            } else {
                Ok(ParseState { queue: st.queue + form_states(form), next_bytes: op as u32, ..st })
            },
            None => Ok(
                ParseState {
                    labels: st.labels.push((t.lexeme, st.buffer.len())),
                    queue: st.queue.push(State::Colon),
                    ..st
                },
            ),
        },
        TokenType::NewLine => Ok(ParseState { queue: st.queue.push(State::Search), ..st }),
        _ => Err(syntax_err(t)),
    }
}

/// A register-like operand: a name whose code (`None` when the name is no
/// such operand) goes into the opcode at bit `shift`.
pub open spec fn register_spec(st: ParseState, t: TokenView, shift: u32, code: Option<u8>) -> Result<
    ParseState,
    ErrorKind,
> {
    if t.kind != TokenType::Name {
        Err(syntax_err(t))
    } else {
        match code {
            Some(c) => Ok(ParseState { next_bytes: st.next_bytes | ((c as u32) << shift), ..st }),
            None => Err(semantic_err(t)),
        }
    }
}

/// An immediate operand: a hex literal in range (at most 0xFF unless `wide`),
/// or, where 16 bits are expected, a label name to be resolved later.
pub open spec fn immediate_spec(st: ParseState, t: TokenView, wide: bool) -> Result<
    ParseState,
    ErrorKind,
> {
    match t.kind {
        TokenType::Name => if wide {
            Ok(ParseState { pending: Some(t.lexeme), ..st })
        } else {
            Err(syntax_err(t))
        },
        TokenType::HexLiteral => match hex_literal_value(t.lexeme) {
            None => Err(syntax_err(t)),
            Some(v) => if !wide && v > 0xFF {
                Err(semantic_err(t))
            } else {
                Ok(ParseState { next_bytes: st.next_bytes | ((v as u32) << 8u32), ..st })
            },
        },
        _ => Err(syntax_err(t)),
    }
}

/// The bytes of an instruction `n` bytes long, lowest first; with a label
/// reference, the opcode and two placeholder zeros.
pub open spec fn emitted(b: u32, n: u8, label: bool) -> Seq<u8> {
    if label {
        seq![(b % 256) as u8, 0u8, 0u8]
    } else if n <= 1 {
        seq![(b % 256) as u8]
    } else if n == 2 {
        seq![(b % 256) as u8, (b / 256 % 256) as u8]
    } else {
        seq![(b % 256) as u8, (b / 256 % 256) as u8, (b / 65536 % 256) as u8]
    }
}

/// The end of a statement: a new-line token commits the instruction's bytes
/// and records its label reference. Another token is an error reported at
/// the token before it.
pub open spec fn append_spec(st: ParseState, toks: Seq<TokenView>, i: int, n: u8) -> Result<
    ParseState,
    ErrorKind,
> {
    let t = toks[i];
    if t.kind != TokenType::NewLine {
        if i > 0 {
            Err(ErrorKind::Syntax { line: Some(toks[i - 1].line), column: Some(toks[i - 1].column) })
        } else {
            Err(ErrorKind::Syntax { line: None, column: None })
        }
    } else {
        let refs = match st.pending {
            Some(name) => st.refs.push((st.buffer.len(), name)),
            None => st.refs,
        };
        Ok(
            ParseState {
                buffer: st.buffer + emitted(st.next_bytes, n, st.pending is Some),
                refs,
                pending: None,
                queue: st.queue.push(State::Search),
                ..st
            },
        )
    }
}

/// Token `i` against the state at the front of the queue.
pub open spec fn parse_step(st: ParseState, toks: Seq<TokenView>, i: int) -> Result<
    ParseState,
    ErrorKind,
> {
    let t = toks[i];
    if st.queue.len() == 0 {
        if t.kind == TokenType::NewLine {
            Ok(st)
        } else {
            Err(syntax_err(t))
        }
    } else {
        let s1 = ParseState { queue: st.queue.subrange(1, st.queue.len() as int), ..st };
        match st.queue[0] {
            State::Search => search_spec(s1, toks, i),
            State::Comma => if t.kind == TokenType::Comma {
                Ok(s1)
            } else {
                Err(syntax_err(t))
            },
            State::Colon => if t.kind == TokenType::Colon {
                Ok(ParseState { queue: s1.queue.push(State::Search), ..s1 })
            } else {
                Err(syntax_err(t))
            },
            State::SrcReg => register_spec(s1, t, 0, reg3_spec(t.lexeme)),
            State::DestReg => register_spec(s1, t, 3, reg3_spec(t.lexeme)),
            State::RegPair => register_spec(s1, t, 4, reg2_spec(t.lexeme)),
            State::RstImm => register_spec(s1, t, 3, rst_spec(t.lexeme)),
            State::Imm8 => immediate_spec(s1, t, false),
            State::Imm16 => immediate_spec(s1, t, true),
            State::Append(n) => append_spec(s1, toks, i, n),
        }
    }
}

/// The parser after the first `n` tokens, or the first error among them.
pub open spec fn first_pass_spec(toks: Seq<TokenView>, n: nat) -> Result<ParseState, ErrorKind>
    decreases n,
{
    if n == 0 {
        Ok(initial_parse_state())
    } else {
        match first_pass_spec(toks, (n - 1) as nat) {
            Ok(st) => parse_step(st, toks, n - 1),
            Err(e) => Err(e),
        }
    }
}

/// The code offset of the last declaration of `name`.
pub open spec fn label_offset(labels: Seq<(Seq<char>, nat)>, name: Seq<char>) -> Option<nat>
    decreases labels.len(),
{
    if labels.len() == 0 {
        None
    } else if labels.last().0 == name {
        Some(labels.last().1)
    } else {
        label_offset(labels.drop_last(), name)
    }
}

/// The address of the last declaration of `name`, if it fits in 16 bits.
pub open spec fn label_address(labels: Seq<(Seq<char>, nat)>, name: Seq<char>) -> Option<u16> {
    match label_offset(labels, name) {
        Some(off) => if ORIGIN + off <= 0xFFFF {
            Some((ORIGIN + off) as u16)
        } else {
            None
        },
        None => None,
    }
}

/// The code with the references patched in order: after the opcode at each
/// reference's offset, the label's address, low byte first. Fails at the
/// first reference to a label never declared, or declared past the end of
/// the address space.
pub open spec fn resolve_spec(
    buffer: Seq<u8>,
    labels: Seq<(Seq<char>, nat)>,
    refs: Seq<(nat, Seq<char>)>,
) -> Result<Seq<u8>, ErrorKind>
    decreases refs.len(),
{
    if refs.len() == 0 {
        Ok(buffer)
    } else {
        match resolve_spec(buffer, labels, refs.drop_last()) {
            Err(e) => Err(e),
            Ok(b) => {
                let (pos, name) = refs.last();
                match label_offset(labels, name) {
                    None => Err(ErrorKind::LabelNotDefined { name }),
                    Some(off) => if ORIGIN + off > 0xFFFF {
                        Err(ErrorKind::Semantic { line: None, column: None })
                    } else {
                        let addr = ORIGIN + off;
                        Ok(b.update(pos as int + 1, (addr % 256) as u8).update(pos as int + 2, (addr / 256) as u8))
                    },
                }
            },
        }
    }
}

/// The tokens ended in the middle of a statement.
pub open spec fn incomplete(st: ParseState) -> bool {
    st.queue.len() > 0 && st.queue[0] != State::Search
}

/// The machine code of a token stream, or its first error.
pub open spec fn parse_spec(toks: Seq<TokenView>) -> Result<Seq<u8>, ErrorKind> {
    match first_pass_spec(toks, toks.len()) {
        Err(e) => Err(e),
        Ok(st) => if incomplete(st) {
            Err(ErrorKind::Syntax { line: None, column: None })
        } else {
            resolve_spec(st.buffer, st.labels, st.refs)
        },
    }
}

pub open spec fn labels_view(v: Seq<(String, usize)>) -> Seq<(Seq<char>, nat)> {
    v.map_values(|p: (String, usize)| (p.0@, p.1 as nat))
}

pub open spec fn refs_view(v: Seq<(usize, String)>) -> Seq<(nat, Seq<char>)> {
    v.map_values(|p: (usize, String)| (p.0 as nat, p.1@))
}

pub open spec fn pending_view(p: Option<String>) -> Option<Seq<char>> {
    match p {
        Some(s) => Some(s@),
        None => None,
    }
}

/// Once the first pass has failed, it stays failed with the same error.
pub proof fn lemma_first_pass_error_persists(toks: Seq<TokenView>, m: nat, n: nat)
    requires
        m <= n,
        first_pass_spec(toks, m) is Err,
    ensures
        first_pass_spec(toks, n) == first_pass_spec(toks, m),
    decreases n - m,
{
    if m < n {
        lemma_first_pass_error_persists(toks, m, (n - 1) as nat);
    }
}

struct Parser {
    state_queue: VecDeque<State>,
    /// The partially assembled bytes of the current instruction.
    next_bytes: u32,
    /// The label the current instruction refers to.
    pending_label: Option<String>,
    buffer: Vec<u8>,
    /// Label names with the code offsets where they were declared.
    labels: Vec<(String, usize)>,
    /// Code offsets of instructions whose operand is a label, with the label.
    unresolved_labels: Vec<(usize, String)>,
}

impl Parser {
    spec fn view(&self) -> ParseState {
        ParseState {
            queue: self.state_queue@,
            next_bytes: self.next_bytes,
            pending: pending_view(self.pending_label),
            buffer: self.buffer@,
            labels: labels_view(self.labels@),
            refs: refs_view(self.unresolved_labels@),
        }
    }

    /// Every reference leaves room for its two address bytes.
    spec fn wf(&self) -> bool {
        forall|k: int|
            0 <= k < self.unresolved_labels@.len() ==> (#[trigger] self.unresolved_labels@[k]).0 + 2
                < self.buffer@.len()
    }

    fn new() -> (r: Parser)
        ensures
            r.view() == initial_parse_state(),
            r.wf(),
    {
        let mut state_queue: VecDeque<State> = VecDeque::new();
        state_queue.push_back(State::Search);
        let r = Parser {
            state_queue,
            next_bytes: 0,
            pending_label: None,
            buffer: Vec::new(),
            labels: Vec::new(),
            unresolved_labels: Vec::new(),
        };
        assert(r.view().queue == seq![State::Search]);
        assert(labels_view(r.labels@) =~= Seq::empty());
        assert(refs_view(r.unresolved_labels@) =~= Seq::empty());
        r
    }

    fn handle_search(&mut self, tokens: &Vec<Token>, i: usize) -> (r: Result<(), AssemblerError>)
        requires
            i < tokens@.len(),
            old(self).wf(),
        ensures
            final(self).wf(),
            match search_spec(old(self).view(), tokens_view(tokens@), i as int) {
                Ok(st) => r is Ok && final(self).view() == st,
                Err(e) => r matches Err(err) && err@ == e,
            },
    {
        let ghost toks = tokens_view(tokens@);
        let token = &tokens[i];
        assert(toks[i as int] == token@);
        match token.token_type() {
            TokenType::Name => {
                let name = chars_of(token.lexeme());
                match encode_inst(&name) {
                    Some((op, form)) => {
                        if tokens.len() - i > 1 && tokens[i + 1].token_type() == TokenType::Colon {
                            assert(toks[i + 1] == tokens@[i + 1]@);
                            return Err(
                                AssemblerError::SemanticError(
                                    quoted("a mnemonic cannot name a label:", token.lexeme()),
                                    Some(token.line()),
                                    Some(token.column()),
                                ),
                            );
                        }
                        if tokens.len() - i > 1 {
                            assert(toks[i + 1] == tokens@[i + 1]@);
                        }
                        let states = form_states_exec(form);
                        let mut k: usize = 0;
                        let ghost q0 = self.state_queue@;
                        while k < states.len()
                            invariant
                                k <= states@.len(),
                                self.state_queue@ == q0 + states@.take(k as int),
                                self.buffer == old(self).buffer,
                                self.labels == old(self).labels,
                                self.unresolved_labels == old(self).unresolved_labels,
                                self.pending_label == old(self).pending_label,
                                self.next_bytes == old(self).next_bytes,
                            decreases states@.len() - k,
                        {
                            self.state_queue.push_back(states[k]);
                            assert(states@.take(k + 1) == states@.take(k as int).push(states@[k as int]));
                            k = k + 1;
                        }
                        assert(states@.take(states@.len() as int) == states@);
                        self.next_bytes = op as u32;
                    },
                    None => {
                        let ghost before = self.labels@;
                        self.labels.push((token.lexeme().to_owned(), self.buffer.len()));
                        assert(labels_view(self.labels@) == labels_view(before).push(
                            (token@.lexeme, old(self).buffer@.len()),
                        ));
                        self.state_queue.push_back(State::Colon);
                    },
                }
                Ok(())
            },
            TokenType::NewLine => {
                self.state_queue.push_back(State::Search);
                Ok(())
            },
            _ => Err(
                AssemblerError::SyntaxError(
                    quoted("expected an instruction or label name, found", token.lexeme()),
                    Some(token.line()),
                    Some(token.column()),
                ),
            ),
        }
    }

    fn handle_register_arg(&mut self, token: &Token, shift: u32, code: Option<u8>) -> (r: Result<
        (),
        AssemblerError,
    >)
        requires
            shift <= 8,
        ensures
            final(self).wf() == old(self).wf(),
            match register_spec(old(self).view(), token@, shift, code) {
                Ok(st) => r is Ok && final(self).view() == st,
                Err(e) => r matches Err(err) && err@ == e,
            },
    {
        if token.token_type() != TokenType::Name {
            return Err(
                AssemblerError::SyntaxError(
                    quoted("expected a register, found", token.lexeme()),
                    Some(token.line()),
                    Some(token.column()),
                ),
            );
        }
        match code {
            Some(c) => {
                self.next_bytes = self.next_bytes | ((c as u32) << shift);
                Ok(())
            },
            None => Err(
                AssemblerError::SemanticError(
                    quoted("unknown register or operand", token.lexeme()),
                    Some(token.line()),
                    Some(token.column()),
                ),
            ),
        }
    }

    fn handle_immediate(&mut self, token: &Token, wide: bool) -> (r: Result<(), AssemblerError>)
        ensures
            final(self).wf() == old(self).wf(),
            match immediate_spec(old(self).view(), token@, wide) {
                Ok(st) => r is Ok && final(self).view() == st,
                Err(e) => r matches Err(err) && err@ == e,
            },
    {
        match token.token_type() {
            TokenType::Name => {
                if wide {
                    self.pending_label = Some(token.lexeme().to_owned());
                    Ok(())
                } else {
                    Err(
                        AssemblerError::SyntaxError(
                            quoted("expected a hex value, found", token.lexeme()),
                            Some(token.line()),
                            Some(token.column()),
                        ),
                    )
                }
            },
            TokenType::HexLiteral => {
                let text = chars_of(token.lexeme());
                match hex_value(&text) {
                    None => Err(
                        AssemblerError::SyntaxError(
                            quoted("invalid hex literal", token.lexeme()),
                            Some(token.line()),
                            Some(token.column()),
                        ),
                    ),
                    Some(v) => {
                        if !wide && v > 0xFF {
                            Err(
                                AssemblerError::SemanticError(
                                    quoted("value does not fit in 8 bits:", token.lexeme()),
                                    Some(token.line()),
                                    Some(token.column()),
                                ),
                            )
                        } else {
                            self.next_bytes = self.next_bytes | ((v as u32) << 8u32);
                            Ok(())
                        }
                    },
                }
            },
            _ => Err(
                AssemblerError::SyntaxError(
                    quoted("expected a hex value or label name, found", token.lexeme()),
                    Some(token.line()),
                    Some(token.column()),
                ),
            ),
        }
    }

    fn handle_append(&mut self, tokens: &Vec<Token>, i: usize, bytes: u8) -> (r: Result<
        (),
        AssemblerError,
    >)
        requires
            i < tokens@.len(),
            old(self).wf(),
        ensures
            final(self).wf(),
            match append_spec(old(self).view(), tokens_view(tokens@), i as int, bytes) {
                Ok(st) => r is Ok && final(self).view() == st,
                Err(e) => r matches Err(err) && err@ == e,
            },
    {
        let ghost toks = tokens_view(tokens@);
        let token = &tokens[i];
        assert(toks[i as int] == token@);
        if token.token_type() != TokenType::NewLine {
            if i > 0 {
                let last = &tokens[i - 1];
                assert(toks[i - 1] == last@);
                return Err(
                    AssemblerError::SyntaxError(
                        "expected a new line after the instruction".to_owned(),
                        Some(last.line()),
                        Some(last.column()),
                    ),
                );
            } else {
                return Err(
                    AssemblerError::SyntaxError(
                        "expected a new line after the instruction".to_owned(),
                        None,
                        None,
                    ),
                );
            }
        }
        let start = self.buffer.len();
        let b = self.next_bytes;
        self.buffer.push((b % 256) as u8);
        let pending = self.pending_label.take();
        match pending {
            Some(name) => {
                self.buffer.push(0);
                self.buffer.push(0);
                let ghost before = self.unresolved_labels@;
                self.unresolved_labels.push((start, name));
                assert(refs_view(self.unresolved_labels@) == refs_view(before).push(
                    (start as nat, name@),
                ));
            },
            None => {
                if bytes >= 2 {
                    self.buffer.push((b / 256 % 256) as u8);
                }
                if bytes >= 3 {
                    self.buffer.push((b / 65536 % 256) as u8);
                }
            },
        }
        assert(self.buffer@ == old(self).buffer@ + emitted(b, bytes, pending is Some));
        self.state_queue.push_back(State::Search);
        Ok(())
    }

    fn process_token(&mut self, tokens: &Vec<Token>, i: usize) -> (r: Result<(), AssemblerError>)
        requires
            i < tokens@.len(),
            old(self).wf(),
        ensures
            final(self).wf(),
            match parse_step(old(self).view(), tokens_view(tokens@), i as int) {
                Ok(st) => r is Ok && final(self).view() == st,
                Err(e) => r matches Err(err) && err@ == e,
            },
    {
        let ghost toks = tokens_view(tokens@);
        let token = &tokens[i];
        assert(toks[i as int] == token@);
        let state = match self.state_queue.pop_front() {
            Some(s) => s,
            None => {
                if token.token_type() == TokenType::NewLine {
                    return Ok(());
                }
                return Err(
                    AssemblerError::SyntaxError(
                        quoted("expected a new line, found", token.lexeme()),
                        Some(token.line()),
                        Some(token.column()),
                    ),
                );
            },
        };
        match state {
            State::Search => self.handle_search(tokens, i),
            State::Comma => {
                if token.token_type() != TokenType::Comma {
                    return Err(
                        AssemblerError::SyntaxError(
                            quoted("expected \",\", found", token.lexeme()),
                            Some(token.line()),
                            Some(token.column()),
                        ),
                    );
                }
                Ok(())
            },
            State::Colon => {
                if token.token_type() != TokenType::Colon {
                    return Err(
                        AssemblerError::SyntaxError(
                            quoted("expected \":\" after the label name, found", token.lexeme()),
                            Some(token.line()),
                            Some(token.column()),
                        ),
                    );
                }
                self.state_queue.push_back(State::Search);
                Ok(())
            },
            State::SrcReg => {
                let code = encode_arg3(&chars_of(token.lexeme()));
                self.handle_register_arg(token, 0, code)
            },
            State::DestReg => {
                let code = encode_arg3(&chars_of(token.lexeme()));
                self.handle_register_arg(token, 3, code)
            },
            State::RegPair => {
                let code = encode_arg2(&chars_of(token.lexeme()));
                self.handle_register_arg(token, 4, code)
            },
            State::RstImm => {
                let code = parse_arg(&chars_of(token.lexeme()));
                self.handle_register_arg(token, 3, code)
            },
            State::Imm8 => self.handle_immediate(token, false),
            State::Imm16 => self.handle_immediate(token, true),
            State::Append(bytes) => self.handle_append(tokens, i, bytes),
        }
    }

    /// Walks the tokens once: encodes instructions, records label
    /// declarations and references.
    fn first_pass(&mut self, tokens: &Vec<Token>) -> (r: Result<(), AssemblerError>)
        requires
            old(self).view() == initial_parse_state(),
            old(self).wf(),
        ensures
            final(self).wf(),
            match first_pass_spec(tokens_view(tokens@), tokens@.len() as nat) {
                Ok(st) => r is Ok && final(self).view() == st,
                Err(e) => r matches Err(err) && err@ == e,
            },
    {
        let ghost toks = tokens_view(tokens@);
        let mut i: usize = 0;
        while i < tokens.len()
            invariant
                i <= tokens@.len(),
                toks == tokens_view(tokens@),
                self.wf(),
                first_pass_spec(toks, i as nat) == Ok::<ParseState, ErrorKind>(self.view()),
            decreases tokens@.len() - i,
        {
            let res = self.process_token(tokens, i);
            if let Err(e) = res {
                proof {
                    lemma_first_pass_error_persists(toks, (i + 1) as nat, tokens@.len() as nat);
                }
                return Err(e);
            }
            i = i + 1;
        }
        Ok(())
    }

    /// The code offset of the last declaration of `name`.
    fn find_label(&self, name: &String) -> (r: Option<usize>)
        ensures
            match label_offset(self.view().labels, name@) {
                Some(off) => r == Some(off as usize) && off <= usize::MAX,
                None => r is None,
            },
    {
        let ghost all = labels_view(self.labels@);
        let mut j: usize = self.labels.len();
        assert(all.take(j as int) == all);
        while j > 0
            invariant
                j <= self.labels@.len(),
                all == labels_view(self.labels@),
                label_offset(all, name@) == label_offset(all.take(j as int), name@),
            decreases j,
        {
            j = j - 1;
            assert(all.take(j + 1).drop_last() == all.take(j as int));
            assert(all.take(j + 1).last() == all[j as int]);
            if self.labels[j].0 == *name {
                return Some(self.labels[j].1);
            }
        }
        None
    }

    /// Patches every label reference with its label's address.
    fn second_pass(&mut self) -> (r: Result<(), AssemblerError>)
        requires
            old(self).wf(),
        ensures
            match resolve_spec(old(self).view().buffer, old(self).view().labels, old(self).view().refs) {
                Ok(b) => r is Ok && final(self).buffer@ == b,
                Err(e) => r matches Err(err) && err@ == e,
            },
    {
        let ghost refs = refs_view(self.unresolved_labels@);
        let ghost labels = labels_view(self.labels@);
        let ghost buffer0 = self.buffer@;
        let mut k: usize = 0;
        while k < self.unresolved_labels.len()
            invariant
                k <= self.unresolved_labels@.len(),
                refs == refs_view(self.unresolved_labels@),
                refs == refs_view(old(self).unresolved_labels@),
                labels == labels_view(self.labels@),
                labels == labels_view(old(self).labels@),
                buffer0 == old(self).buffer@,
                self.buffer@.len() == buffer0.len(),
                self.wf(),
                resolve_spec(buffer0, labels, refs.take(k as int)) == Ok::<Seq<u8>, ErrorKind>(
                    self.buffer@,
                ),
            decreases self.unresolved_labels@.len() - k,
        {
            assert(refs.take(k + 1).drop_last() == refs.take(k as int));
            assert(refs.take(k + 1).last() == refs[k as int]);
            let pos = self.unresolved_labels[k].0;
            assert(refs[k as int] == (pos as nat, self.unresolved_labels@[k as int].1@));
            let blen = self.buffer.len();
            assert(pos + 2 < blen);
            let found = self.find_label(&self.unresolved_labels[k].1);
            match found {
                None => {
                    proof {
                        lemma_resolve_error_persists(buffer0, labels, refs, (k + 1) as nat);
                    }
                    return Err(
                        AssemblerError::LabelNotDefined(self.unresolved_labels[k].1.clone()),
                    );
                },
                Some(off) => {
                    if off > 0xFFFF - ORIGIN as usize {
                        proof {
                            lemma_resolve_error_persists(buffer0, labels, refs, (k + 1) as nat);
                        }
                        return Err(
                            AssemblerError::SemanticError(
                                quoted(
                                    "label placed past the end of memory:",
                                    self.unresolved_labels[k].1.as_str(),
                                ),
                                None,
                                None,
                            ),
                        );
                    }
                    let addr = ORIGIN as usize + off;
                    self.buffer.set(pos + 1, (addr % 256) as u8);
                    self.buffer.set(pos + 2, (addr / 256) as u8);
                },
            }
            k = k + 1;
        }
        assert(refs.take(refs.len() as int) == refs);
        Ok(())
    }
}

/// Once resolving has failed at some reference, the whole resolution fails
/// with that error.
proof fn lemma_resolve_error_persists(
    buffer: Seq<u8>,
    labels: Seq<(Seq<char>, nat)>,
    refs: Seq<(nat, Seq<char>)>,
    k: nat,
)
    requires
        k <= refs.len(),
        resolve_spec(buffer, labels, refs.take(k as int)) is Err,
    ensures
        resolve_spec(buffer, labels, refs) == resolve_spec(buffer, labels, refs.take(k as int)),
    decreases refs.len() - k,
{
    if k < refs.len() {
        assert(refs.take(k as int + 1).drop_last() == refs.take(k as int));
        lemma_resolve_error_persists(buffer, labels, refs, k + 1);
    } else {
        assert(refs.take(k as int) == refs);
    }
}

/// Assembles a token stream into machine code for the code origin: the first
/// pass encodes instructions and records labels, the second patches label
/// references with their addresses.
pub fn parse(tokens: &Vec<Token>) -> (r: Result<Vec<u8>, AssemblerError>)
    ensures
        result_view(r, |v: Vec<u8>| v@) == parse_spec(tokens_view(tokens@)),
{
    let mut parser = Parser::new();
    let res = parser.first_pass(tokens);
    if let Err(e) = res {
        return Err(e);
    }
    if parser.state_queue.len() > 0 && parser.state_queue[0] != State::Search {
        return Err(
            AssemblerError::SyntaxError(
                "unexpected end of input inside a statement".to_owned(),
                None,
                None,
            ),
        );
    }
    let res = parser.second_pass();
    if let Err(e) = res {
        return Err(e);
    }
    Ok(parser.buffer)
}

} // verus!

verus! {

/// Every reference's label is declared, inside the address space.
pub open spec fn all_addressed(labels: Seq<(Seq<char>, nat)>, refs: Seq<(nat, Seq<char>)>) -> bool {
    forall|k: int| 0 <= k < refs.len() ==> #[trigger] label_address(labels, refs[k].1) is Some
}

/// Every declared label lies inside the address space.
pub open spec fn declared_in_range(labels: Seq<(Seq<char>, nat)>, refs: Seq<(nat, Seq<char>)>) -> bool {
    forall|k: int|
        0 <= k < refs.len() && #[trigger] label_offset(labels, refs[k].1) is Some ==> label_address(
            labels,
            refs[k].1,
        ) is Some
}

/// Some reference names a label that is never declared.
pub open spec fn some_undeclared(labels: Seq<(Seq<char>, nat)>, refs: Seq<(nat, Seq<char>)>) -> bool {
    exists|k: int| 0 <= k < refs.len() && #[trigger] label_offset(labels, refs[k].1) is None
}

/// After each reference's opcode, the code holds its label's address, low
/// byte first.
pub open spec fn all_patched(
    code: Seq<u8>,
    labels: Seq<(Seq<char>, nat)>,
    refs: Seq<(nat, Seq<char>)>,
) -> bool {
    forall|k: int|
        0 <= k < refs.len() ==> {
            let a = label_address(labels, #[trigger] refs[k].1)->0;
            &&& code[refs[k].0 as int + 1] == a % 256
            &&& code[refs[k].0 as int + 2] == a / 256
        }
}

/// The error names a label that some reference uses and nothing declares.
pub open spec fn names_undeclared(
    r: Result<Seq<u8>, ErrorKind>,
    labels: Seq<(Seq<char>, nat)>,
    refs: Seq<(nat, Seq<char>)>,
) -> bool {
    &&& r matches Err(ErrorKind::LabelNotDefined { name })
    &&& label_offset(labels, r->Err_0->name) is None
    &&& exists|k: int| 0 <= k < refs.len() && #[trigger] refs[k].1 == r->Err_0->name
}

/// Each reference leaves room for its opcode and two address bytes in the
/// code, and references come in code order without overlapping.
pub open spec fn refs_spaced(buffer: Seq<u8>, refs: Seq<(nat, Seq<char>)>) -> bool {
    &&& forall|k: int| 0 <= k < refs.len() ==> #[trigger] refs[k].0 + 3 <= buffer.len()
    &&& forall|j: int, k: int| 0 <= j < k < refs.len() ==> #[trigger] refs[j].0 + 3 <= #[trigger] refs[k].0
}

/// The first pass only ever records references that are spaced in the code.
proof fn lemma_first_pass_spaced(toks: Seq<TokenView>, n: nat)
    ensures
        first_pass_spec(toks, n) matches Ok(st) ==> refs_spaced(st.buffer, st.refs),
    decreases n,
{
    if n > 0 {
        lemma_first_pass_spaced(toks, (n - 1) as nat);
        if let Ok(st) = first_pass_spec(toks, (n - 1) as nat) {
            if let Ok(next) = parse_step(st, toks, n - 1) {
                if st.queue.len() > 0 {
                    let s1 = ParseState { queue: st.queue.subrange(1, st.queue.len() as int), ..st };
                    if let State::Append(b) = st.queue[0] {
                        let bytes = emitted(s1.next_bytes, b, s1.pending is Some);
                        assert(next.buffer == st.buffer + bytes);
                        assert(bytes.len() >= 1);
                        if s1.pending is Some {
                            assert(bytes.len() == 3);
                            assert(next.refs == st.refs.push((st.buffer.len(), s1.pending->0)));
                        } else {
                            assert(next.refs == st.refs);
                        }
                    } else {
                        assert(next.buffer == st.buffer);
                        assert(next.refs == st.refs);
                    }
                }
            }
        }
    }
}

/// When every referenced label has an address, resolving succeeds.
proof fn lemma_resolve_ok(buffer: Seq<u8>, labels: Seq<(Seq<char>, nat)>, refs: Seq<(nat, Seq<char>)>)
    requires
        all_addressed(labels, refs),
    ensures
        resolve_spec(buffer, labels, refs) is Ok,
    decreases refs.len(),
{
    if refs.len() > 0 {
        lemma_resolve_ok(buffer, labels, refs.drop_last());
        assert(label_address(labels, refs[refs.len() - 1].1) is Some);
    }
}

/// Resolving keeps the code's length and writes each reference's label
/// address after its opcode.
proof fn lemma_resolve_patches(
    buffer: Seq<u8>,
    labels: Seq<(Seq<char>, nat)>,
    refs: Seq<(nat, Seq<char>)>,
)
    requires
        refs_spaced(buffer, refs),
        all_addressed(labels, refs),
    ensures
        resolve_spec(buffer, labels, refs) is Ok,
        resolve_spec(buffer, labels, refs)->Ok_0.len() == buffer.len(),
        all_patched(resolve_spec(buffer, labels, refs)->Ok_0, labels, refs),
    decreases refs.len(),
{
    if refs.len() > 0 {
        let p = refs.drop_last();
        assert forall|k: int| 0 <= k < p.len() implies #[trigger] label_address(labels, p[k].1) is Some by {
            assert(p[k] == refs[k]);
        }
        assert(refs_spaced(buffer, p)) by {
            assert forall|k: int| 0 <= k < p.len() implies #[trigger] p[k].0 + 3 <= buffer.len() by {
                assert(p[k] == refs[k]);
            }
            assert forall|j: int, k: int| 0 <= j < k < p.len() implies #[trigger] p[j].0 + 3
                <= #[trigger] p[k].0 by {
                assert(p[j] == refs[j]);
                assert(p[k] == refs[k]);
            }
        }
        lemma_resolve_patches(buffer, labels, p);
        let last = refs.len() - 1;
        assert(label_address(labels, refs[last].1) is Some);
        let code = resolve_spec(buffer, labels, refs)->Ok_0;
        assert forall|k: int| 0 <= k < refs.len() implies {
            let a = label_address(labels, #[trigger] refs[k].1)->0;
            &&& code[refs[k].0 as int + 1] == a % 256
            &&& code[refs[k].0 as int + 2] == a / 256
        } by {
            if k < last {
                assert(p[k] == refs[k]);
                assert(refs[k].0 + 3 <= refs[last].0);
            }
        }
    }
}

/// With some referenced label never declared (and every declared one inside
/// the address space), resolving fails naming such a label.
proof fn lemma_resolve_undefined(
    buffer: Seq<u8>,
    labels: Seq<(Seq<char>, nat)>,
    refs: Seq<(nat, Seq<char>)>,
)
    requires
        declared_in_range(labels, refs),
        some_undeclared(labels, refs),
    ensures
        names_undeclared(resolve_spec(buffer, labels, refs), labels, refs),
    decreases refs.len(),
{
    let p = refs.drop_last();
    let last = refs.len() - 1;
    if exists|k: int| 0 <= k < p.len() && #[trigger] label_offset(labels, p[k].1) is None {
        let k0 = choose|k: int| 0 <= k < p.len() && #[trigger] label_offset(labels, p[k].1) is None;
        assert forall|k: int|
            0 <= k < p.len() && #[trigger] label_offset(labels, p[k].1) is Some implies label_address(
                labels,
                p[k].1,
            ) is Some by {
            assert(p[k] == refs[k]);
        }
        lemma_resolve_undefined(buffer, labels, p);
        let name = resolve_spec(buffer, labels, p)->Err_0->name;
        let k1 = choose|k: int| 0 <= k < p.len() && #[trigger] p[k].1 == name;
        assert(refs[k1].1 == name);
    } else {
        assert forall|k: int| 0 <= k < p.len() implies #[trigger] label_address(labels, p[k].1) is Some by {
            assert(p[k] == refs[k]);
            assert(label_offset(labels, p[k].1) is Some);
        }
        lemma_resolve_ok(buffer, labels, p);
        let k0 = choose|k: int| 0 <= k < refs.len() && #[trigger] label_offset(labels, refs[k].1) is None;
        if k0 < last {
            assert(p[k0] == refs[k0]);
            assert(label_offset(labels, p[k0].1) is None);
        }
        assert(k0 == last);
    }
}

/// Every label reference, forward or backward, is patched with the address of
/// the label's last declaration, low byte first, right after the opcode of
/// the instruction that names it; and when a referenced label is never
/// declared, assembly fails naming such a label. (Here the first pass has
/// succeeded and ended between statements.)
pub proof fn law_label_references(toks: Seq<TokenView>)
    requires
        first_pass_spec(toks, toks.len()) is Ok,
        !incomplete(first_pass_spec(toks, toks.len())->Ok_0),
    ensures
        ({
            let st = first_pass_spec(toks, toks.len())->Ok_0;
            &&& all_addressed(st.labels, st.refs) ==> (parse_spec(toks) is Ok && all_patched(
                parse_spec(toks)->Ok_0,
                st.labels,
                st.refs,
            ))
            &&& (declared_in_range(st.labels, st.refs) && some_undeclared(st.labels, st.refs))
                ==> names_undeclared(parse_spec(toks), st.labels, st.refs)
        }),
{
    let st = first_pass_spec(toks, toks.len())->Ok_0;
    lemma_first_pass_spaced(toks, toks.len());
    if all_addressed(st.labels, st.refs) {
        lemma_resolve_patches(st.buffer, st.labels, st.refs);
    }
    if declared_in_range(st.labels, st.refs) && some_undeclared(st.labels, st.refs) {
        lemma_resolve_undefined(st.buffer, st.labels, st.refs);
    }
}

} // verus!
