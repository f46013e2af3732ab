use vstd::prelude::*;

verus! {

/// A full copy of the processor's registers and flags.
#[derive(Default, Debug, Clone, Copy, PartialEq, Eq, Structural)]
pub struct Regs {
    pub a: u8,
    pub b: u8,
    pub c: u8,
    pub d: u8,
    pub e: u8,
    pub h: u8,
    pub l: u8,
    pub pc: u16,
    pub sp: u16,
    pub z: bool,
    pub s: bool,
    pub ac: bool,
    pub cy: bool,
    pub p: bool,
}

/// What it takes to undo one step: the registers before the step, and the
/// memory and port bytes that the step changed, each with its value before.
#[derive(Default, Debug, Clone)]
pub struct Changes {
    pub cpu: Regs,
    pub memory: Vec<(u16, u8)>,
    pub io: Vec<(u8, u8)>,
}

} // verus!
