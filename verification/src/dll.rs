//! The DLLs of the project: what the loader tells a DLL entry point, the
//! placeholder client image, and the loader stub copied into the game.
use vstd::prelude::*;

verus! {

/// Why the loader called a DLL entry point.
#[derive(PartialEq, Eq, Structural, Clone, Copy, Debug)]
pub enum DllReason {
    ProcessDetach,
    ProcessAttach,
    ThreadAttach,
    ThreadDetach,
    Other(u32),
}

/// The reason a `fdwReason` code stands for (`DLL_PROCESS_DETACH` 0,
/// `DLL_PROCESS_ATTACH` 1, `DLL_THREAD_ATTACH` 2, `DLL_THREAD_DETACH` 3).
pub fn dll_reason(code: u32) -> (r: DllReason)
    ensures
        r == (if code == 0 {
            DllReason::ProcessDetach
        } else if code == 1 {
            DllReason::ProcessAttach
        } else if code == 2 {
            DllReason::ThreadAttach
        } else if code == 3 {
            DllReason::ThreadDetach
        } else {
            DllReason::Other(code)
        }),
{
    if code == 0 {
        DllReason::ProcessDetach
    } else if code == 1 {
        DllReason::ProcessAttach
    } else if code == 2 {
        DllReason::ThreadAttach
    } else if code == 3 {
        DllReason::ThreadDetach
    } else {
        DllReason::Other(code)
    }
}

/// Size in bytes of the minimal DLL image: one file-aligned block of
/// headers.
pub const MINIMAL_DLL_SIZE: usize = 0x200;

/// Where the DOS header keeps the offset of the PE header (`e_lfanew`).
pub const PE_OFFSET_FIELD: usize = 0x3C;

/// The offset of the PE header in the minimal image.
pub const PE_HEADER_AT: usize = 0x40;

/// The bytes of the minimal DLL image: a DOS header pointing at a PE
/// header, a COFF header for x86-64 marked executable, large-address-aware
/// and DLL, with no sections, and a PE32+ optional header (image base
/// 0x180000000, section alignment 0x1000, file alignment 0x200, image size
/// 0x1000, headers size 0x200, Windows GUI subsystem, ASLR/NX/high-entropy
/// flags, 16 empty data directories) and no entry point, so loading it runs
/// no code. Every byte not listed is zero.
pub open spec fn dll_image_byte(i: int) -> u8 {
    if i == 0x00 {
        0x4D
    } else
    if i == 0x01 {
        0x5A
    } else
    if i == 0x3C {
        0x40
    } else
    if i == 0x40 {
        0x50
    } else
    if i == 0x41 {
        0x45
    } else
    if i == 0x44 {
        0x64
    } else
    if i == 0x45 {
        0x86
    } else
    if i == 0x54 {
        0xF0
    } else
    if i == 0x56 {
        0x22
    } else
    if i == 0x57 {
        0x20
    } else
    if i == 0x58 {
        0x0B
    } else
    if i == 0x59 {
        0x02
    } else
    if i == 0x73 {
        0x80
    } else
    if i == 0x74 {
        0x01
    } else
    if i == 0x79 {
        0x10
    } else
    if i == 0x7D {
        0x02
    } else
    if i == 0x80 {
        0x06
    } else
    if i == 0x88 {
        0x06
    } else
    if i == 0x91 {
        0x10
    } else
    if i == 0x95 {
        0x02
    } else
    if i == 0x9C {
        0x02
    } else
    if i == 0x9E {
        0x60
    } else
    if i == 0x9F {
        0x01
    } else
    if i == 0xA2 {
        0x10
    } else
    if i == 0xA9 {
        0x10
    } else
    if i == 0xB2 {
        0x10
    } else
    if i == 0xB9 {
        0x10
    } else
    if i == 0xC4 {
        0x10
    } else
    {
        0
    }
}

pub open spec fn spec_minimal_dll() -> Seq<u8> {
    Seq::new(MINIMAL_DLL_SIZE as nat, |i: int| dll_image_byte(i))
}

/// A 16-bit little-endian field of an image.
pub open spec fn le_u16_at(image: Seq<u8>, at: int) -> int {
    image[at] + image[at + 1] * 0x100
}

/// A 32-bit little-endian field of an image.
pub open spec fn le_u32_at(image: Seq<u8>, at: int) -> int {
    image[at] + image[at + 1] * 0x100 + image[at + 2] * 0x10000 + image[at + 3] * 0x1000000
}

/// The image written as `client.dll`: a minimal DLL that Windows maps and
/// that runs no code.
pub fn generate_minimal_dll() -> (r: Vec<u8>)
    ensures
        r@ == spec_minimal_dll(),
        r@.len() == MINIMAL_DLL_SIZE,
        r@[0] == 0x4D && r@[1] == 0x5A,
        le_u32_at(r@, PE_OFFSET_FIELD as int) == PE_HEADER_AT,
        r@.subrange(PE_HEADER_AT as int, PE_HEADER_AT + 4) == seq![0x50u8, 0x45, 0x00, 0x00],
        le_u16_at(r@, PE_HEADER_AT + 4) == 0x8664,
        le_u16_at(r@, PE_HEADER_AT + 0x14) == 0xF0,
        le_u16_at(r@, PE_HEADER_AT + 0x16) == 0x2022,
        le_u16_at(r@, PE_HEADER_AT + 0x18) == 0x020B,
        le_u32_at(r@, PE_HEADER_AT + 0x28) == 0,
{
    let mut r: Vec<u8> = Vec::new();
    let mut k: usize = 0;
    while k < MINIMAL_DLL_SIZE
        invariant
            k <= MINIMAL_DLL_SIZE,
            r@.len() == k,
            forall|i: int| 0 <= i < k ==> r@[i] == 0,
        decreases MINIMAL_DLL_SIZE - k,
    {
        r.push(0);
        k += 1;
    }
    r.set(0x00, 0x4D);
    r.set(0x01, 0x5A);
    r.set(0x3C, 0x40);
    r.set(0x40, 0x50);
    r.set(0x41, 0x45);
    r.set(0x44, 0x64);
    r.set(0x45, 0x86);
    r.set(0x54, 0xF0);
    r.set(0x56, 0x22);
    r.set(0x57, 0x20);
    r.set(0x58, 0x0B);
    r.set(0x59, 0x02);
    r.set(0x73, 0x80);
    r.set(0x74, 0x01);
    r.set(0x79, 0x10);
    r.set(0x7D, 0x02);
    r.set(0x80, 0x06);
    r.set(0x88, 0x06);
    r.set(0x91, 0x10);
    r.set(0x95, 0x02);
    r.set(0x9C, 0x02);
    r.set(0x9E, 0x60);
    r.set(0x9F, 0x01);
    r.set(0xA2, 0x10);
    r.set(0xA9, 0x10);
    r.set(0xB2, 0x10);
    r.set(0xB9, 0x10);
    r.set(0xC4, 0x10);
    assert(r@ =~= spec_minimal_dll());
    assert(r@.subrange(PE_HEADER_AT as int, PE_HEADER_AT + 4) =~= seq![0x50u8, 0x45, 0x00, 0x00]);
    r
}

/// The loader stub copied into the game: it saves `rbx`, calls the
/// routine whose address is the first word of its argument, restores and
/// returns.
pub open spec fn spec_shellcode() -> Seq<u8> {
    seq![
        0x48u8, 0x89, 0x5C, 0x24, 0x08, 0x57, 0x48, 0x83, 0xEC, 0x20,
        0x48, 0x8B, 0xD9, 0x48, 0x8B, 0xF1, 0x48, 0x8B, 0x01, 0xFF,
        0xD0, 0x48, 0x8B, 0x5C, 0x24, 0x30, 0x48, 0x83, 0xC4, 0x20,
        0x5F, 0xC3,
    ]
}

pub fn shellcode() -> (r: Vec<u8>)
    ensures
        r@ == spec_shellcode(),
{
    let r = vec![
        0x48u8, 0x89, 0x5C, 0x24, 0x08, 0x57, 0x48, 0x83, 0xEC, 0x20,
        0x48, 0x8B, 0xD9, 0x48, 0x8B, 0xF1, 0x48, 0x8B, 0x01, 0xFF,
        0xD0, 0x48, 0x8B, 0x5C, 0x24, 0x30, 0x48, 0x83, 0xC4, 0x20,
        0x5F, 0xC3,
    ];
    assert(r@ =~= spec_shellcode());
    r
}

} // verus!
