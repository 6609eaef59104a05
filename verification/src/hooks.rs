//! Function hooks: a hook redirects the start of a target routine to a
//! detour with a 5-byte relative jump.
use vstd::prelude::*;
use crate::memscan::{le_u32, le_i32};
use crate::packets::le_bytes;

verus! {

/// How many bytes at the target are made writable before the jump is
/// written over them.
pub const HOOK_PATCH_LEN: usize = 14;

/// Opcode of `jmp rel32`.
pub const JMP_REL32: u8 = 0xE9;

/// Length of a `jmp rel32` instruction.
pub const JMP_LEN: usize = 5;

/// The displacement of a jump at `from` to `target`, as the low 32 bits
/// of `target - (from + 5)`.
pub open spec fn rel32(from: int, target: int) -> int {
    (target - (from + 5)) % 0x100000000
}

/// `jmp rel32` from `from` to `target`.
pub open spec fn spec_jmp(from: int, target: int) -> Seq<u8> {
    seq![JMP_REL32] + le_bytes(rel32(from, target) as u32)
}

/// The bytes of a jump placed at `from` that lands on `target`.
pub fn create_jmp_instruction(from: usize, target: usize) -> (r: Vec<u8>)
    ensures
        r@ == spec_jmp(from as int, target as int),
{
    let t: u64 = (target as u64) % 0x100000000;
    let f: u64 = ((from as u64) % 0x100000000 + 5) % 0x100000000;
    let rel: u64 = (t + 0x100000000 - f) % 0x100000000;
    proof {
        let ti = target as int;
        let fi = from as int;
        assert(rel == rel32(fi, ti)) by {
            vstd::arithmetic::div_mod::lemma_add_mod_noop(fi % 0x100000000, 5, 0x100000000);
            vstd::arithmetic::div_mod::lemma_mod_twice(fi, 0x100000000);
            vstd::arithmetic::div_mod::lemma_add_mod_noop(fi, 5, 0x100000000);
            vstd::arithmetic::div_mod::lemma_sub_mod_noop(ti, fi + 5, 0x100000000);
            vstd::arithmetic::div_mod::lemma_mod_add_multiples_vanish(
                ti % 0x100000000 - (fi + 5) % 0x100000000,
                0x100000000,
            );
        }
    }
    let rel32v: u32 = rel as u32;
    let mut r: Vec<u8> = Vec::new();
    r.push(JMP_REL32);
    r.push((rel32v % 0x100) as u8);
    r.push((rel32v / 0x100 % 0x100) as u8);
    r.push((rel32v / 0x10000 % 0x100) as u8);
    r.push((rel32v / 0x1000000) as u8);
    assert(r@ =~= spec_jmp(from as int, target as int));
    r
}

/// A jump written at `from` lands on `target`: its displacement read back
/// as a signed 32-bit number, added to the end of the instruction, gives
/// `target` modulo 2^32, and gives `target` itself when the distance fits
/// in 32 signed bits.
pub proof fn lemma_jmp_lands_on_target(from: int, target: int)
    ensures
        spec_jmp(from, target).len() == JMP_LEN,
        spec_jmp(from, target)[0] == JMP_REL32,
        ({
            let b = spec_jmp(from, target);
            let d = le_i32(b[1], b[2], b[3], b[4]);
            &&& (from + 5 + d - target) % 0x100000000 == 0
            &&& (-0x80000000 <= target - (from + 5) < 0x80000000 ==> from + 5 + d == target)
        }),
{
    let rel = rel32(from, target);
    let b = spec_jmp(from, target);
    assert(0 <= rel < 0x100000000);
    let v = rel as u32;
    assert(v == rel);
    crate::packets::lemma_handshake_roundtrip(v);
    assert(b[1] == crate::packets::spec_handshake_packet(v)[1]);
    assert(b[2] == crate::packets::spec_handshake_packet(v)[2]);
    assert(b[3] == crate::packets::spec_handshake_packet(v)[3]);
    assert(b[4] == crate::packets::spec_handshake_packet(v)[4]);
    assert(le_u32(b[1], b[2], b[3], b[4]) == rel);
    let x = target - (from + 5);
    vstd::arithmetic::div_mod::lemma_fundamental_div_mod(x, 0x100000000);
    let q = x / 0x100000000;
    assert(x == 0x100000000 * q + rel);
    let d = le_i32(b[1], b[2], b[3], b[4]);
    assert(d == rel || d == rel - 0x100000000);
    assert(from + 5 + d - target == d - x);
    assert((d - x) == -0x100000000 * q || (d - x) == -0x100000000 * q - 0x100000000);
    vstd::arithmetic::div_mod::lemma_mod_multiples_basic(-q, 0x100000000);
    vstd::arithmetic::div_mod::lemma_mod_multiples_basic(-q - 1, 0x100000000);
    assert(-0x100000000 * q == (-q) * 0x100000000) by (nonlinear_arith);
    assert(-0x100000000 * q - 0x100000000 == (-q - 1) * 0x100000000) by (nonlinear_arith);
    if -0x80000000 <= x < 0x80000000 {
        if x >= 0 {
            vstd::arithmetic::div_mod::lemma_small_mod(x as nat, 0x100000000);
        } else {
            vstd::arithmetic::div_mod::lemma_mod_add_multiples_vanish(x, 0x100000000);
            vstd::arithmetic::div_mod::lemma_small_mod((x + 0x100000000) as nat, 0x100000000);
        }
    }
}

/// A hook from a target routine to a detour. Addresses are plain numbers;
/// `original` is where a copy of the overwritten bytes would live, zero
/// while there is none.
pub struct Hook {
    pub target: usize,
    pub detour: usize,
    pub original: usize,
}

impl Hook {
    /// A hook with no saved original.
    pub fn new(target: usize, detour: usize) -> (r: Self)
        ensures
            r.target == target,
            r.detour == detour,
            r.original == 0,
    {
        Hook { target, detour, original: 0 }
    }

    /// The bytes written over the target when the hook is enabled: a jump
    /// from the target to the detour.
    pub fn jmp_patch(&self) -> (r: Vec<u8>)
        ensures
            r@ == spec_jmp(self.target as int, self.detour as int),
    {
        create_jmp_instruction(self.target, self.detour)
    }
}

} // verus!
