use vstd::prelude::*;
use crate::assembler::lexer::chars_of;

verus! {

/// The operands an instruction takes, which fix the states the parser goes
/// through after its mnemonic.
#[derive(Debug, Clone, Copy, PartialEq, Eq, Structural)]
pub enum Form {
    /// No operand.
    Implied,
    /// A destination register, a comma, a source register.
    DstSrc,
    /// A destination register, a comma, an 8-bit value.
    DstImm8,
    /// A register pair, a comma, a 16-bit value or label.
    PairImm16,
    /// A register pair.
    Pair,
    /// A 16-bit value or label.
    Addr,
    /// An 8-bit value.
    Byte,
    /// A destination register.
    Dst,
    /// A source register.
    Src,
    /// A restart number.
    Rst,
}

/// `a` is `lower` or, for a lowercase ASCII letter, its uppercase form.
pub open spec fn char_matches(a: char, lower: char) -> bool {
    a == lower || ('a' <= lower <= 'z' && a as u32 + 32 == lower as u32)
}

/// `name` spells the lowercase word `lower`, ignoring ASCII case.
pub open spec fn matches_word(name: Seq<char>, lower: Seq<char>) -> bool {
    &&& name.len() == lower.len()
    &&& forall|i: int| 0 <= i < name.len() ==> #[trigger] char_matches(name[i], lower[i])
}

/// Whether `name` spells the lowercase word `lower`, ignoring ASCII case.
pub fn matches_word_exec(name: &Vec<char>, lower: &str) -> (r: bool)
    ensures
        r == matches_word(name@, lower@),
{
    let w = chars_of(lower);
    if name.len() != w.len() {
        return false;
    }
    let mut i: usize = 0;
    while i < name.len()
        invariant
            i <= name@.len() == w@.len(),
            w@ == lower@,
            forall|j: int| 0 <= j < i ==> #[trigger] char_matches(name@[j], w@[j]),
        decreases name@.len() - i,
    {
        let a = name[i];
        let b = w[i];
        if !(a == b || ('a' <= b && b <= 'z' && a as u32 == b as u32 - 32)) {
            assert(!char_matches(name@[i as int], w@[i as int]));
            return false;
        }
        i = i + 1;
    }
    true
}

/// Rows of the mnemonic table: data transfer instructions.
pub open spec fn data_transfer_spec(name: Seq<char>) -> Option<(u8, Form)> {
    if matches_word(name, "mov"@) {
        Some((0x40, Form::DstSrc))
    } else if matches_word(name, "mvi"@) {
        Some((0x06, Form::DstImm8))
    } else if matches_word(name, "lxi"@) {
        Some((0x01, Form::PairImm16))
    } else if matches_word(name, "stax"@) {
        Some((0x02, Form::Pair))
    } else if matches_word(name, "ldax"@) {
        Some((0x0A, Form::Pair))
    } else if matches_word(name, "sta"@) {
        Some((0x32, Form::Addr))
    } else if matches_word(name, "lda"@) {
        Some((0x3A, Form::Addr))
    } else if matches_word(name, "shld"@) {
        Some((0x22, Form::Addr))
    } else if matches_word(name, "lhld"@) {
        Some((0x2A, Form::Addr))
    } else if matches_word(name, "xchg"@) {
        Some((0xEB, Form::Implied))
    } else if matches_word(name, "push"@) {
        Some((0xC5, Form::Pair))
    } else if matches_word(name, "pop"@) {
        Some((0xC1, Form::Pair))
    } else if matches_word(name, "xthl"@) {
        Some((0xE3, Form::Implied))
    } else if matches_word(name, "sphl"@) {
        Some((0xF9, Form::Implied))
    } else if matches_word(name, "inx"@) {
        Some((0x03, Form::Pair))
    } else if matches_word(name, "dcx"@) {
        Some((0x0B, Form::Pair))
    } else {
        None
    }
}

/// Rows of the mnemonic table: branch instructions.
pub open spec fn branch_spec(name: Seq<char>) -> Option<(u8, Form)> {
    if matches_word(name, "jmp"@) {
        Some((0xC3, Form::Addr))
    } else if matches_word(name, "jc"@) {
        Some((0xDA, Form::Addr))
    } else if matches_word(name, "jnc"@) {
        Some((0xD2, Form::Addr))
    } else if matches_word(name, "jz"@) {
        Some((0xCA, Form::Addr))
    } else if matches_word(name, "jnz"@) {
        Some((0xC2, Form::Addr))
    } else if matches_word(name, "jp"@) {
        Some((0xF2, Form::Addr))
    } else if matches_word(name, "jm"@) {
        Some((0xFA, Form::Addr))
    } else if matches_word(name, "jpe"@) {
        Some((0xEA, Form::Addr))
    } else if matches_word(name, "jpo"@) {
        Some((0xE2, Form::Addr))
    } else if matches_word(name, "pchl"@) {
        Some((0xE9, Form::Implied))
    } else if matches_word(name, "call"@) {
        Some((0xCD, Form::Addr))
    } else if matches_word(name, "cc"@) {
        Some((0xDC, Form::Addr))
    } else if matches_word(name, "cnc"@) {
        Some((0xD4, Form::Addr))
    } else if matches_word(name, "cz"@) {
        Some((0xCC, Form::Addr))
    } else if matches_word(name, "cnz"@) {
        Some((0xC4, Form::Addr))
    } else if matches_word(name, "cp"@) {
        Some((0xF4, Form::Addr))
    } else if matches_word(name, "cm"@) {
        Some((0xFC, Form::Addr))
    } else if matches_word(name, "cpe"@) {
        Some((0xEC, Form::Addr))
    } else if matches_word(name, "cpo"@) {
        Some((0xE4, Form::Addr))
    } else if matches_word(name, "ret"@) {
        Some((0xC9, Form::Implied))
    } else if matches_word(name, "rc"@) {
        Some((0xD8, Form::Implied))
    } else if matches_word(name, "rnc"@) {
        Some((0xD0, Form::Implied))
    } else if matches_word(name, "rz"@) {
        Some((0xC8, Form::Implied))
    } else if matches_word(name, "rnz"@) {
        Some((0xC0, Form::Implied))
    } else if matches_word(name, "rp"@) {
        Some((0xF0, Form::Implied))
    } else if matches_word(name, "rm"@) {
        Some((0xF8, Form::Implied))
    } else if matches_word(name, "rpe"@) {
        Some((0xE8, Form::Implied))
    } else if matches_word(name, "rpo"@) {
        Some((0xE0, Form::Implied))
    } else if matches_word(name, "rst"@) {
        Some((0xC7, Form::Rst))
    } else if matches_word(name, "in"@) {
        Some((0xDB, Form::Byte))
    } else if matches_word(name, "out"@) {
        Some((0xD3, Form::Byte))
    } else {
        None
    }
}

/// Rows of the mnemonic table: arithmetic instructions.
pub open spec fn arithmetic_spec(name: Seq<char>) -> Option<(u8, Form)> {
    if matches_word(name, "inr"@) {
        Some((0x04, Form::Dst))
    } else if matches_word(name, "dcr"@) {
        Some((0x05, Form::Dst))
    } else if matches_word(name, "add"@) {
        Some((0x80, Form::Src))
    } else if matches_word(name, "adc"@) {
        Some((0x88, Form::Src))
    } else if matches_word(name, "adi"@) {
        Some((0xC6, Form::Byte))
    } else if matches_word(name, "aci"@) {
        Some((0xCE, Form::Byte))
    } else if matches_word(name, "dad"@) {
        Some((0x09, Form::Pair))
    } else if matches_word(name, "sub"@) {
        Some((0x90, Form::Src))
    } else if matches_word(name, "sbb"@) {
        Some((0x98, Form::Src))
    } else if matches_word(name, "sui"@) {
        Some((0xD6, Form::Byte))
    } else if matches_word(name, "sbi"@) {
        Some((0xDE, Form::Byte))
    } else if matches_word(name, "ana"@) {
        Some((0xA0, Form::Src))
    } else if matches_word(name, "xra"@) {
        Some((0xA8, Form::Src))
    } else if matches_word(name, "ora"@) {
        Some((0xB0, Form::Src))
    } else if matches_word(name, "cmp"@) {
        Some((0xB8, Form::Src))
    } else if matches_word(name, "ani"@) {
        Some((0xE6, Form::Byte))
    } else if matches_word(name, "xri"@) {
        Some((0xEE, Form::Byte))
    } else if matches_word(name, "ori"@) {
        Some((0xF6, Form::Byte))
    } else if matches_word(name, "cpi"@) {
        Some((0xFE, Form::Byte))
    } else {
        None
    }
}

/// Rows of the mnemonic table: control instructions.
pub open spec fn control_spec(name: Seq<char>) -> Option<(u8, Form)> {
    if matches_word(name, "rlc"@) {
        Some((0x07, Form::Implied))
    } else if matches_word(name, "rrc"@) {
        Some((0x0F, Form::Implied))
    } else if matches_word(name, "ral"@) {
        Some((0x17, Form::Implied))
    } else if matches_word(name, "rar"@) {
        Some((0x1F, Form::Implied))
    } else if matches_word(name, "cma"@) {
        Some((0x2F, Form::Implied))
    } else if matches_word(name, "stc"@) {
        Some((0x37, Form::Implied))
    } else if matches_word(name, "cmc"@) {
        Some((0x3F, Form::Implied))
    } else if matches_word(name, "daa"@) {
        Some((0x27, Form::Implied))
    } else if matches_word(name, "ei"@) {
        Some((0xFB, Form::Implied))
    } else if matches_word(name, "di"@) {
        Some((0xF3, Form::Implied))
    } else if matches_word(name, "nop"@) {
        Some((0x00, Form::Implied))
    } else if matches_word(name, "hlt"@) {
        Some((0x76, Form::Implied))
    } else if matches_word(name, "rim"@) {
        Some((0x20, Form::Implied))
    } else if matches_word(name, "sim"@) {
        Some((0x30, Form::Implied))
    } else {
        None
    }
}

/// The opcode and operand form of a mnemonic, in any mix of case.
pub open spec fn mnemonic_spec(name: Seq<char>) -> Option<(u8, Form)> {
    match data_transfer_spec(name) {
        Some(e) => Some(e),
        None => match branch_spec(name) {
            Some(e) => Some(e),
            None => match arithmetic_spec(name) {
                Some(e) => Some(e),
                None => control_spec(name),
            },
        },
    }
}

fn data_transfer(name: &Vec<char>) -> (r: Option<(u8, Form)>)
    ensures
        r == data_transfer_spec(name@),
{
    if matches_word_exec(name, "mov") {
        return Some((0x40, Form::DstSrc));
    }
    if matches_word_exec(name, "mvi") {
        return Some((0x06, Form::DstImm8));
    }
    if matches_word_exec(name, "lxi") {
        return Some((0x01, Form::PairImm16));
    }
    if matches_word_exec(name, "stax") {
        return Some((0x02, Form::Pair));
    }
    if matches_word_exec(name, "ldax") {
        return Some((0x0A, Form::Pair));
    }
    if matches_word_exec(name, "sta") {
        return Some((0x32, Form::Addr));
    }
    if matches_word_exec(name, "lda") {
        return Some((0x3A, Form::Addr));
    }
    if matches_word_exec(name, "shld") {
        return Some((0x22, Form::Addr));
    }
    if matches_word_exec(name, "lhld") {
        return Some((0x2A, Form::Addr));
    }
    if matches_word_exec(name, "xchg") {
        return Some((0xEB, Form::Implied));
    }
    if matches_word_exec(name, "push") {
        return Some((0xC5, Form::Pair));
    }
    if matches_word_exec(name, "pop") {
        return Some((0xC1, Form::Pair));
    }
    if matches_word_exec(name, "xthl") {
        return Some((0xE3, Form::Implied));
    }
    if matches_word_exec(name, "sphl") {
        return Some((0xF9, Form::Implied));
    }
    if matches_word_exec(name, "inx") {
        return Some((0x03, Form::Pair));
    }
    if matches_word_exec(name, "dcx") {
        return Some((0x0B, Form::Pair));
    }
    None
}

fn branch(name: &Vec<char>) -> (r: Option<(u8, Form)>)
    ensures
        r == branch_spec(name@),
{
    if matches_word_exec(name, "jmp") {
        return Some((0xC3, Form::Addr));
    }
    if matches_word_exec(name, "jc") {
        return Some((0xDA, Form::Addr));
    }
    if matches_word_exec(name, "jnc") {
        return Some((0xD2, Form::Addr));
    }
    if matches_word_exec(name, "jz") {
        return Some((0xCA, Form::Addr));
    }
    if matches_word_exec(name, "jnz") {
        return Some((0xC2, Form::Addr));
    }
    if matches_word_exec(name, "jp") {
        return Some((0xF2, Form::Addr));
    }
    if matches_word_exec(name, "jm") {
        return Some((0xFA, Form::Addr));
    }
    if matches_word_exec(name, "jpe") {
        return Some((0xEA, Form::Addr));
    }
    if matches_word_exec(name, "jpo") {
        return Some((0xE2, Form::Addr));
    }
    if matches_word_exec(name, "pchl") {
        return Some((0xE9, Form::Implied));
    }
    if matches_word_exec(name, "call") {
        return Some((0xCD, Form::Addr));
    }
    if matches_word_exec(name, "cc") {
        return Some((0xDC, Form::Addr));
    }
    if matches_word_exec(name, "cnc") {
        return Some((0xD4, Form::Addr));
    }
    if matches_word_exec(name, "cz") {
        return Some((0xCC, Form::Addr));
    }
    if matches_word_exec(name, "cnz") {
        return Some((0xC4, Form::Addr));
    }
    if matches_word_exec(name, "cp") {
        return Some((0xF4, Form::Addr));
    }
    if matches_word_exec(name, "cm") {
        return Some((0xFC, Form::Addr));
    }
    if matches_word_exec(name, "cpe") {
        return Some((0xEC, Form::Addr));
    }
    if matches_word_exec(name, "cpo") {
        return Some((0xE4, Form::Addr));
    }
    if matches_word_exec(name, "ret") {
        return Some((0xC9, Form::Implied));
    }
    if matches_word_exec(name, "rc") {
        return Some((0xD8, Form::Implied));
    }
    if matches_word_exec(name, "rnc") {
        return Some((0xD0, Form::Implied));
    }
    if matches_word_exec(name, "rz") {
        return Some((0xC8, Form::Implied));
    }
    if matches_word_exec(name, "rnz") {
        return Some((0xC0, Form::Implied));
    }
    if matches_word_exec(name, "rp") {
        return Some((0xF0, Form::Implied));
    }
    if matches_word_exec(name, "rm") {
        return Some((0xF8, Form::Implied));
    }
    if matches_word_exec(name, "rpe") {
        return Some((0xE8, Form::Implied));
    }
    if matches_word_exec(name, "rpo") {
        return Some((0xE0, Form::Implied));
    }
    if matches_word_exec(name, "rst") {
        return Some((0xC7, Form::Rst));
    }
    if matches_word_exec(name, "in") {
        return Some((0xDB, Form::Byte));
    }
    if matches_word_exec(name, "out") {
        return Some((0xD3, Form::Byte));
    }
    None
}

fn arithmetic(name: &Vec<char>) -> (r: Option<(u8, Form)>)
    ensures
        r == arithmetic_spec(name@),
{
    if matches_word_exec(name, "inr") {
        return Some((0x04, Form::Dst));
    }
    if matches_word_exec(name, "dcr") {
        return Some((0x05, Form::Dst));
    }
    if matches_word_exec(name, "add") {
        return Some((0x80, Form::Src));
    }
    if matches_word_exec(name, "adc") {
        return Some((0x88, Form::Src));
    }
    if matches_word_exec(name, "adi") {
        return Some((0xC6, Form::Byte));
    }
    if matches_word_exec(name, "aci") {
        return Some((0xCE, Form::Byte));
    }
    if matches_word_exec(name, "dad") {
        return Some((0x09, Form::Pair));
    }
    if matches_word_exec(name, "sub") {
        return Some((0x90, Form::Src));
    }
    if matches_word_exec(name, "sbb") {
        return Some((0x98, Form::Src));
    }
    if matches_word_exec(name, "sui") {
        return Some((0xD6, Form::Byte));
    }
    if matches_word_exec(name, "sbi") {
        return Some((0xDE, Form::Byte));
    }
    if matches_word_exec(name, "ana") {
        return Some((0xA0, Form::Src));
    }
    if matches_word_exec(name, "xra") {
        return Some((0xA8, Form::Src));
    }
    if matches_word_exec(name, "ora") {
        return Some((0xB0, Form::Src));
    }
    if matches_word_exec(name, "cmp") {
        return Some((0xB8, Form::Src));
    }
    if matches_word_exec(name, "ani") {
        return Some((0xE6, Form::Byte));
    }
    if matches_word_exec(name, "xri") {
        return Some((0xEE, Form::Byte));
    }
    if matches_word_exec(name, "ori") {
        return Some((0xF6, Form::Byte));
    }
    if matches_word_exec(name, "cpi") {
        return Some((0xFE, Form::Byte));
    }
    None
}

fn control(name: &Vec<char>) -> (r: Option<(u8, Form)>)
    ensures
        r == control_spec(name@),
{
    if matches_word_exec(name, "rlc") {
        return Some((0x07, Form::Implied));
    }
    if matches_word_exec(name, "rrc") {
        return Some((0x0F, Form::Implied));
    }
    if matches_word_exec(name, "ral") {
        return Some((0x17, Form::Implied));
    }
    if matches_word_exec(name, "rar") {
        return Some((0x1F, Form::Implied));
    }
    if matches_word_exec(name, "cma") {
        return Some((0x2F, Form::Implied));
    }
    if matches_word_exec(name, "stc") {
        return Some((0x37, Form::Implied));
    }
    if matches_word_exec(name, "cmc") {
        return Some((0x3F, Form::Implied));
    }
    if matches_word_exec(name, "daa") {
        return Some((0x27, Form::Implied));
    }
    if matches_word_exec(name, "ei") {
        return Some((0xFB, Form::Implied));
    }
    if matches_word_exec(name, "di") {
        return Some((0xF3, Form::Implied));
    }
    if matches_word_exec(name, "nop") {
        return Some((0x00, Form::Implied));
    }
    if matches_word_exec(name, "hlt") {
        return Some((0x76, Form::Implied));
    }
    if matches_word_exec(name, "rim") {
        return Some((0x20, Form::Implied));
    }
    if matches_word_exec(name, "sim") {
        return Some((0x30, Form::Implied));
    }
    None
}

/// The opcode and operand form of a mnemonic, in any mix of case.
pub fn encode_inst(name: &Vec<char>) -> (r: Option<(u8, Form)>)
    ensures
        r == mnemonic_spec(name@),
{
    match data_transfer(name) {
        Some(e) => Some(e),
        None => match branch(name) {
            Some(e) => Some(e),
            None => match arithmetic(name) {
                Some(e) => Some(e),
                None => control(name),
            },
        },
    }
}

/// The 3-bit code of a register name (B, C, D, E, H, L, M, A).
pub open spec fn reg3_spec(name: Seq<char>) -> Option<u8> {
    if matches_word(name, "b"@) {
        Some(0)
    } else if matches_word(name, "c"@) {
        Some(1)
    } else if matches_word(name, "d"@) {
        Some(2)
    } else if matches_word(name, "e"@) {
        Some(3)
    } else if matches_word(name, "h"@) {
        Some(4)
    } else if matches_word(name, "l"@) {
        Some(5)
    } else if matches_word(name, "m"@) {
        Some(6)
    } else if matches_word(name, "a"@) {
        Some(7)
    } else {
        None
    }
}

/// The 2-bit code of a register pair name (B, D, H, SP).
pub open spec fn reg2_spec(name: Seq<char>) -> Option<u8> {
    if matches_word(name, "b"@) {
        Some(0)
    } else if matches_word(name, "d"@) {
        Some(1)
    } else if matches_word(name, "h"@) {
        Some(2)
    } else if matches_word(name, "sp"@) {
        Some(3)
    } else {
        None
    }
}

pub fn encode_arg3(name: &Vec<char>) -> (r: Option<u8>)
    ensures
        r == reg3_spec(name@),
{
    if matches_word_exec(name, "b") {
        Some(0)
    } else if matches_word_exec(name, "c") {
        Some(1)
    } else if matches_word_exec(name, "d") {
        Some(2)
    } else if matches_word_exec(name, "e") {
        Some(3)
    } else if matches_word_exec(name, "h") {
        Some(4)
    } else if matches_word_exec(name, "l") {
        Some(5)
    } else if matches_word_exec(name, "m") {
        Some(6)
    } else if matches_word_exec(name, "a") {
        Some(7)
    } else {
        None
    }
}

pub fn encode_arg2(name: &Vec<char>) -> (r: Option<u8>)
    ensures
        r == reg2_spec(name@),
{
    if matches_word_exec(name, "b") {
        Some(0)
    } else if matches_word_exec(name, "d") {
        Some(1)
    } else if matches_word_exec(name, "h") {
        Some(2)
    } else if matches_word_exec(name, "sp") {
        Some(3)
    } else {
        None
    }
}

pub open spec fn is_decimal_digit(c: char) -> bool {
    '0' <= c <= '9'
}

/// The number that a string of decimal digits stands for.
pub open spec fn decimal_number(d: Seq<char>) -> nat
    decreases d.len(),
{
    if d.len() == 0 {
        0
    } else {
        decimal_number(d.drop_last()) * 10 + (d.last() as nat - '0' as nat) as nat
    }
}

/// The restart number of an RST operand: decimal digits standing for at
/// most 7.
pub open spec fn rst_spec(name: Seq<char>) -> Option<u8> {
    if name.len() > 0 && (forall|i: int| 0 <= i < name.len() ==> #[trigger] is_decimal_digit(name[i]))
        && decimal_number(name) <= 7 {
        Some(decimal_number(name) as u8)
    } else {
        None
    }
}

/// A number never gets smaller by appending digits.
proof fn lemma_decimal_prefix(d: Seq<char>, k: int)
    requires
        0 <= k <= d.len(),
        forall|i: int| 0 <= i < d.len() ==> #[trigger] is_decimal_digit(d[i]),
    ensures
        decimal_number(d.take(k)) <= decimal_number(d),
    decreases d.len(),
{
    if k < d.len() {
        let p = d.drop_last();
        assert forall|i: int| 0 <= i < p.len() implies #[trigger] is_decimal_digit(p[i]) by {
            assert(p[i] == d[i]);
        }
        lemma_decimal_prefix(p, k);
        assert(p.take(k) == d.take(k));
    }
    assert(d.take(d.len() as int) == d);
}

/// The restart number of an RST operand.
pub fn parse_arg(name: &Vec<char>) -> (r: Option<u8>)
    ensures
        r == rst_spec(name@),
{
    if name.len() == 0 {
        return None;
    }
    let mut value: u32 = 0;
    let mut i: usize = 0;
    while i < name.len()
        invariant
            i <= name@.len(),
            forall|j: int| 0 <= j < i ==> #[trigger] is_decimal_digit(name@[j]),
            value == decimal_number(name@.take(i as int)),
            value <= 7,
        decreases name@.len() - i,
    {
        let c = name[i];
        assert(name@.take(i + 1).drop_last() == name@.take(i as int));
        if !('0' <= c && c <= '9') {
            assert(!is_decimal_digit(name@[i as int]));
            return None;
        }
        value = value * 10 + (c as u32 - '0' as u32);
        if value > 7 {
            proof {
                if forall|j: int| 0 <= j < name@.len() ==> #[trigger] is_decimal_digit(name@[j]) {
                    lemma_decimal_prefix(name@, i + 1);
                }
            }
            return None;
        }
        i = i + 1;
    }
    assert(name@.take(name@.len() as int) == name@);
    Some(value as u8)
}

} // verus!
