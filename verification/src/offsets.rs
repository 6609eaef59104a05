//! Offsets into the game's data (game build 1.0.3258.0), and the address
//! arithmetic built on them.
use vstd::prelude::*;

verus! {

/// Global pointer to the world object, relative to the game image.
pub const WORLD_PTR: usize = 0x267B0F8;

/// The local player's ped within the world object.
pub const LOCAL_PED: usize = 0x8;

/// Health and armour within a ped.
pub const HEALTH: usize = 0x280;
pub const MAX_HEALTH: usize = 0x284;
pub const ARMOR: usize = 0x288;

/// Position and rotation within a ped.
pub const POSITION_X: usize = 0x40;
pub const POSITION_Y: usize = 0x44;
pub const POSITION_Z: usize = 0x48;
pub const ROTATION: usize = 0x70;

/// Money and wanted level.
pub const MONEY: usize = 0x11F8;
pub const WANTED: usize = 0x10A8;

/// The ped's vehicle, and the speed within a vehicle.
pub const VEHICLE: usize = 0x18D8;
pub const VEHICLE_SPEED: usize = 0x48;

/// Weapon and ammunition within a ped.
pub const WEAPON: usize = 0x1078;
pub const AMMO: usize = 0x1080;

/// Position of the player's coordinates within the player object, as the
/// client writes them when it teleports.
pub const OFFSET_POSITION: usize = 0x90;

/// Where the local ped's address is read from, given the world object's
/// address: nowhere while the world does not exist (its address is zero).
pub fn local_ped_slot(world_ptr: usize) -> (r: Option<usize>)
    requires
        world_ptr + LOCAL_PED <= usize::MAX,
    ensures
        world_ptr == 0 ==> r is None,
        world_ptr != 0 ==> r == Some((world_ptr + LOCAL_PED) as usize),
{
    if world_ptr != 0 {
        Some(world_ptr + LOCAL_PED)
    } else {
        None
    }
}

/// The address of a field `offset` bytes into an object at `base`; none
/// when the object's address is zero.
pub fn field_address(base: usize, offset: usize) -> (r: Option<usize>)
    requires
        base + offset <= usize::MAX,
    ensures
        base == 0 ==> r is None,
        base != 0 ==> r == Some((base + offset) as usize),
{
    if base != 0 {
        Some(base + offset)
    } else {
        None
    }
}

/// How many times the client looks for the player before it gives up
/// teleporting, and the pause between two looks in milliseconds.
pub const TELEPORT_ATTEMPTS: u32 = 50;
pub const TELEPORT_RETRY_MS: u64 = 100;

/// What the teleport does after one look for the player.
pub enum TeleportStep {
    /// Write the spawn coordinates at this address.
    Write(usize),
    /// The player does not exist yet: wait and look again, or give up if
    /// this was the last look.
    Wait { give_up: bool },
}

/// The decision after look number `attempt` (counted from 1), given the
/// player object's address read (zero while there is none).
pub fn teleport_step(attempt: u32, player: usize) -> (r: TeleportStep)
    requires
        1 <= attempt <= TELEPORT_ATTEMPTS,
        player + OFFSET_POSITION <= usize::MAX,
    ensures
        player != 0 ==> r == TeleportStep::Write((player + OFFSET_POSITION) as usize),
        player == 0 ==> r == (TeleportStep::Wait { give_up: attempt == TELEPORT_ATTEMPTS }),
{
    match field_address(player, OFFSET_POSITION) {
        Some(addr) => TeleportStep::Write(addr),
        None => TeleportStep::Wait { give_up: attempt == TELEPORT_ATTEMPTS },
    }
}

} // verus!
