//! The byte signatures that locate game data and code, where their
//! operands sit, and the patches written over found code.
use vstd::prelude::*;

verus! {

/// `mov rcx, [rip + disp32]; test rcx, rcx; je ..`: the load of the
/// player-info pointer (also the story-active flag).
pub open spec fn spec_player_info_pattern() -> Seq<u8> {
    seq![0x48u8, 0x8B, 0x0D, 0x00, 0x00, 0x00, 0x00, 0x48, 0x85, 0xC9, 0x74, 0x00]
}

/// Where the displacement sits in the player-info instruction, and the
/// length the address is resolved against.
pub const PLAYER_INFO_DISP_AT: usize = 3;
pub const PLAYER_INFO_INSTR_LEN: usize = 7;

/// The player-info load followed by `mov eax, [rcx + ..]`: the signature
/// the network side looks the local player up with.
pub open spec fn spec_local_player_pattern() -> Seq<u8> {
    seq![0x48u8, 0x8B, 0x0D, 0x00, 0x00, 0x00, 0x00, 0x48, 0x85, 0xC9, 0x74, 0x00, 0x8B, 0x81]
}

/// `cmp byte ptr [rip + disp32], imm8; je ..`: the test of the story flag.
pub open spec fn spec_story_flag_pattern() -> Seq<u8> {
    seq![0x80u8, 0x3D, 0x00, 0x00, 0x00, 0x00, 0x00, 0x74, 0x00]
}

pub const STORY_FLAG_DISP_AT: usize = 2;
pub const STORY_FLAG_INSTR_LEN: usize = 6;

/// The load of the game-mode object followed by the test of its mode byte.
pub open spec fn spec_game_mode_pattern() -> Seq<u8> {
    seq![0x48u8, 0x8B, 0x0D, 0x00, 0x00, 0x00, 0x00, 0x80, 0xB9, 0x00, 0x00, 0x00, 0x00, 0x00]
}

/// The mode byte sits this far after the start of the game-mode signature.
pub const GAME_MODE_FLAG_OFFSET: usize = 0x10;

/// The prologue of the mission start routine.
pub open spec fn spec_mission_start_pattern() -> Seq<u8> {
    seq![0x40u8, 0x53, 0x48, 0x83, 0xEC, 0x20, 0x48, 0x8B, 0xD9, 0xE8]
}

/// The prologue of the story script loader.
pub open spec fn spec_script_load_pattern() -> Seq<u8> {
    seq![0x48u8, 0x89, 0x5C, 0x24, 0x08, 0x48, 0x89, 0x74, 0x24, 0x10, 0x57]
}

/// `ret` followed by three `nop`s.
pub open spec fn spec_mission_start_patch() -> Seq<u8> {
    seq![0xC3u8, 0x90, 0x90, 0x90]
}

/// `ret` followed by one `nop`.
pub open spec fn spec_script_load_patch() -> Seq<u8> {
    seq![0xC3u8, 0x90]
}

pub fn player_info_pattern() -> (r: Vec<u8>)
    ensures
        r@ == spec_player_info_pattern(),
{
    let r = vec![0x48u8, 0x8B, 0x0D, 0x00, 0x00, 0x00, 0x00, 0x48, 0x85, 0xC9, 0x74, 0x00];
    assert(r@ =~= spec_player_info_pattern());
    r
}

pub fn local_player_pattern() -> (r: Vec<u8>)
    ensures
        r@ == spec_local_player_pattern(),
{
    let r = vec![0x48u8, 0x8B, 0x0D, 0x00, 0x00, 0x00, 0x00, 0x48, 0x85, 0xC9, 0x74, 0x00, 0x8B, 0x81];
    assert(r@ =~= spec_local_player_pattern());
    r
}

pub fn story_flag_pattern() -> (r: Vec<u8>)
    ensures
        r@ == spec_story_flag_pattern(),
{
    let r = vec![0x80u8, 0x3D, 0x00, 0x00, 0x00, 0x00, 0x00, 0x74, 0x00];
    assert(r@ =~= spec_story_flag_pattern());
    r
}

pub fn game_mode_pattern() -> (r: Vec<u8>)
    ensures
        r@ == spec_game_mode_pattern(),
{
    let r = vec![0x48u8, 0x8B, 0x0D, 0x00, 0x00, 0x00, 0x00, 0x80, 0xB9, 0x00, 0x00, 0x00, 0x00, 0x00];
    assert(r@ =~= spec_game_mode_pattern());
    r
}

pub fn mission_start_pattern() -> (r: Vec<u8>)
    ensures
        r@ == spec_mission_start_pattern(),
{
    let r = vec![0x40u8, 0x53, 0x48, 0x83, 0xEC, 0x20, 0x48, 0x8B, 0xD9, 0xE8];
    assert(r@ =~= spec_mission_start_pattern());
    r
}

pub fn script_load_pattern() -> (r: Vec<u8>)
    ensures
        r@ == spec_script_load_pattern(),
{
    let r = vec![0x48u8, 0x89, 0x5C, 0x24, 0x08, 0x48, 0x89, 0x74, 0x24, 0x10, 0x57];
    assert(r@ =~= spec_script_load_pattern());
    r
}

pub fn mission_start_patch() -> (r: Vec<u8>)
    ensures
        r@ == spec_mission_start_patch(),
{
    let r = vec![0xC3u8, 0x90, 0x90, 0x90];
    assert(r@ =~= spec_mission_start_patch());
    r
}

pub fn script_load_patch() -> (r: Vec<u8>)
    ensures
        r@ == spec_script_load_patch(),
{
    let r = vec![0xC3u8, 0x90];
    assert(r@ =~= spec_script_load_patch());
    r
}

} // verus!
