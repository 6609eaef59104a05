//! Signature scanning over the game's memory: find a byte pattern (with
//! zero bytes as wildcards) in what was read of a region, walk the regions,
//! and resolve the RIP-relative operand of a found instruction.
use vstd::prelude::*;

verus! {

/// The address the scan of the process starts from.
pub const SCAN_START: usize = 0x400000;

/// The state value of a committed memory region (`MEM_COMMIT`).
pub const MEM_COMMIT: u32 = 0x1000;

/// `pattern` matches `buffer` at offset `i`: every byte of the pattern is a
/// wildcard (zero) or equals the byte it lies over.
pub open spec fn pattern_matches_at(buffer: Seq<u8>, pattern: Seq<u8>, i: int) -> bool {
    forall|j: int| 0 <= j < pattern.len() ==> (#[trigger] pattern[j] == 0 || buffer[i + j] == pattern[j])
}

/// The offsets that are tried: `0 .. n - m`, or none when the pattern is
/// not shorter than what was read.
pub open spec fn scan_limit(buffer: Seq<u8>, pattern: Seq<u8>) -> int {
    if buffer.len() > pattern.len() {
        buffer.len() - pattern.len()
    } else {
        0
    }
}

/// `i` is the first offset tried at which the pattern matches.
pub open spec fn is_first_match(buffer: Seq<u8>, pattern: Seq<u8>, i: int) -> bool {
    &&& 0 <= i < scan_limit(buffer, pattern)
    &&& pattern_matches_at(buffer, pattern, i)
    &&& forall|k: int| 0 <= k < i ==> !pattern_matches_at(buffer, pattern, k)
}

/// No offset tried matches.
pub open spec fn no_match(buffer: Seq<u8>, pattern: Seq<u8>) -> bool {
    forall|k: int| 0 <= k < scan_limit(buffer, pattern) ==> !pattern_matches_at(buffer, pattern, k)
}

/// The offsets tried are exactly those at which the whole pattern lies
/// inside the bytes read and at least one byte follows it: a pattern that
/// matches at such an offset is never missed, and nothing is reported at an
/// offset where the pattern does not fit.
pub proof fn lemma_scan_covers_region(buffer: Seq<u8>, pattern: Seq<u8>, i: int)
    ensures
        (0 <= i && i + pattern.len() < buffer.len()) <==> (0 <= i < scan_limit(buffer, pattern)),
        no_match(buffer, pattern) && 0 <= i && i + pattern.len() < buffer.len() ==> exists|j: int|
            0 <= j < pattern.len() && pattern[j] != 0 && buffer[i + j] != pattern[j],
{
    if no_match(buffer, pattern) && 0 <= i && i + pattern.len() < buffer.len() {
        assert(!pattern_matches_at(buffer, pattern, i));
    }
}

/// What `find_pattern`'s first-match result says directly of the buffer.
proof fn lemma_first_match_direct(buffer: Seq<u8>, pattern: Seq<u8>, r: Option<usize>)
    requires
        match r {
            Some(i) => is_first_match(buffer, pattern, i as int),
            None => no_match(buffer, pattern),
        },
    ensures
        r matches Some(k) ==> {
            &&& k + pattern.len() < buffer.len()
            &&& forall|j: int|
                0 <= j < pattern.len() ==> pattern[j] == 0 || buffer[k + j] == pattern[j]
        },
        forall|i: int|
            0 <= i && i + pattern.len() < buffer.len() && #[trigger] pattern_matches_at(buffer, pattern, i)
                ==> (r is Some && r.unwrap() <= i),
{
    assert forall|i: int|
        0 <= i && i + pattern.len() < buffer.len() && #[trigger] pattern_matches_at(buffer, pattern, i)
            implies (r is Some && r.unwrap() <= i) by {
        match r {
            Some(k) => {
                if i < k {
                    assert(!pattern_matches_at(buffer, pattern, i));
                }
            },
            None => {
                assert(!pattern_matches_at(buffer, pattern, i));
            },
        }
    }
    if let Some(k) = r {
        assert(pattern_matches_at(buffer, pattern, k as int));
    }
}

/// Searches the bytes read from one region for the pattern and returns the
/// offset of the first match.
pub fn find_pattern(buffer: &[u8], pattern: &[u8]) -> (r: Option<usize>)
    ensures
        match r {
            Some(i) => is_first_match(buffer@, pattern@, i as int),
            None => no_match(buffer@, pattern@),
        },
        r matches Some(k) ==> {
            &&& k + pattern@.len() < buffer@.len()
            &&& forall|j: int|
                0 <= j < pattern@.len() ==> pattern@[j] == 0 || buffer@[k + j] == pattern@[j]
        },
        forall|i: int|
            0 <= i && i + pattern@.len() < buffer@.len() && #[trigger] pattern_matches_at(buffer@, pattern@, i)
                ==> (r is Some && r.unwrap() <= i),
{
    let n = buffer.len();
    let m = pattern.len();
    let limit = if n > m { n - m } else { 0 };
    let mut i: usize = 0;
    while i < limit
        invariant
            limit == scan_limit(buffer@, pattern@),
            n == buffer@.len(),
            m == pattern@.len(),
            i <= limit,
            forall|k: int| 0 <= k < i ==> !pattern_matches_at(buffer@, pattern@, k),
        decreases limit - i,
    {
        let mut j: usize = 0;
        let mut ok = true;
        while j < m
            invariant
                n == buffer@.len(),
                m == pattern@.len(),
                i < limit,
                limit == scan_limit(buffer@, pattern@),
                j <= m,
                ok ==> forall|jj: int|
                    0 <= jj < j ==> (#[trigger] pattern@[jj] == 0 || buffer@[i + jj] == pattern@[jj]),
                !ok ==> !pattern_matches_at(buffer@, pattern@, i as int),
            ensures
                ok == pattern_matches_at(buffer@, pattern@, i as int),
            decreases m - j,
        {
            if pattern[j] != 0 && buffer[i + j] != pattern[j] {
                ok = false;
                break;
            }
            j += 1;
        }
        if ok {
            proof {
                lemma_first_match_direct(buffer@, pattern@, Some(i));
            }
            return Some(i);
        }
        i += 1;
    }
    proof {
        lemma_first_match_direct(buffer@, pattern@, None);
    }
    None
}

/// What the scan does after one region.
pub enum ScanStep {
    /// The pattern was found at this address.
    Found(usize),
    /// Go on with the region that starts at this address.
    Next(usize),
}

/// Only committed regions are read.
pub fn region_is_readable(state: u32) -> (r: bool)
    ensures
        r == (state == MEM_COMMIT),
{
    state == MEM_COMMIT
}

/// The decision for one region that starts at `base` and spans
/// `region_size` bytes; `read` holds the bytes read from it, or `None` when
/// it was not read.
pub fn scan_region(base: usize, region_size: usize, read: Option<&[u8]>, pattern: &[u8]) -> (r: ScanStep)
    requires
        base + region_size <= usize::MAX,
        read matches Some(bytes) ==> bytes@.len() <= region_size,
    ensures
        match read {
            Some(bytes) => match r {
                ScanStep::Found(addr) => base <= addr < base + bytes@.len() && is_first_match(
                    bytes@,
                    pattern@,
                    addr - base,
                ),
                ScanStep::Next(next) => no_match(bytes@, pattern@) && next == base + region_size,
            },
            None => r == ScanStep::Next((base + region_size) as usize),
        },
        read matches Some(bytes) ==> forall|i: int|
            0 <= i && i + pattern@.len() < bytes@.len() && #[trigger] pattern_matches_at(bytes@, pattern@, i)
                ==> (r is Found && r->Found_0 <= base + i),
        match read {
            Some(bytes) => match r {
                ScanStep::Found(addr) => addr - base + pattern@.len() < bytes@.len(),
                ScanStep::Next(next) => true,
            },
            None => r == ScanStep::Next((base + region_size) as usize),
        },
{
    match read {
        Some(bytes) => match find_pattern(bytes, pattern) {
            Some(i) => ScanStep::Found(base + i),
            None => ScanStep::Next(base + region_size),
        },
        None => ScanStep::Next(base + region_size),
    }
}

/// The value of four bytes read as a little-endian unsigned integer.
pub open spec fn le_u32(b0: u8, b1: u8, b2: u8, b3: u8) -> int {
    b0 + b1 * 0x100 + b2 * 0x10000 + b3 * 0x1000000
}

/// The value of four bytes read as a little-endian two's-complement
/// integer.
pub open spec fn le_i32(b0: u8, b1: u8, b2: u8, b3: u8) -> int {
    let u = le_u32(b0, b1, b2, b3);
    if u >= 0x80000000 {
        u - 0x100000000
    } else {
        u
    }
}

/// Reads the 32-bit displacement stored little-endian at `at`.
pub fn read_displacement(bytes: &[u8], at: usize) -> (r: i32)
    requires
        at + 4 <= bytes@.len(),
    ensures
        r == le_i32(bytes@[at as int], bytes@[at + 1], bytes@[at + 2], bytes@[at + 3]),
{
    let u: u64 = bytes[at] as u64 + bytes[at + 1] as u64 * 0x100 + bytes[at + 2] as u64 * 0x10000
        + bytes[at + 3] as u64 * 0x1000000;
    if u >= 0x80000000 {
        (u as i64 - 0x100000000i64) as i32
    } else {
        u as i32
    }
}

/// The address an instruction at `addr`, `instr_len` bytes long, refers
/// to through its relative displacement `disp`.
pub fn resolve_relative(addr: usize, instr_len: usize, disp: i32) -> (r: usize)
    requires
        0 <= addr + instr_len + disp <= usize::MAX,
    ensures
        r == addr + instr_len + disp,
{
    (addr as i128 + instr_len as i128 + disp as i128) as usize
}

} // verus!
