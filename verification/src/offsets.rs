//! Where the game keeps what the overlay reads: offsets from the base of
//! `client.dll` (`dw…`) and offsets of fields inside the game's objects.
#![allow(non_upper_case_globals)]

pub mod game_rules;

use vstd::prelude::*;

verus! {

/// The entity list, from the base of `client.dll`.
pub const dwEntityList: usize = 0x17C1960;

/// The flag that makes the local player attack, from the base of `client.dll`.
pub const dwForceAttack: usize = 0x16C2190;

/// The 4x4 view matrix, from the base of `client.dll`.
pub const dwViewMatrix: usize = 0x1820160;

/// The game rules object, from the base of `client.dll`.
pub const dwGameRules: usize = 0x181E058;

/// Health of a pawn (`int32_t`).
pub const m_iHealth: usize = 0x32C;

/// Handle of a controller's pawn (`CHandle<C_CSPlayerPawn>`).
pub const m_hPlayerPawn: usize = 0x7EC;

/// Name of a player, in its controller (`char[128]`).
pub const m_iszPlayerName: usize = 0x640;

/// Team of an entity (`uint8_t`).
pub const m_iTeamNum: usize = 0x3BF;

/// Index of the entity under the local player's crosshair (`CEntityIndex`).
pub const m_iIDEntIndex: usize = 0x1544;

/// Position of a pawn (`Vector`).
pub const m_vOldOrigin: usize = 0x1224;

/// The weapon a pawn holds (`C_CSWeaponBase*`).
pub const m_pClippingWeapon: usize = 0x12B0;

/// Class name of a weapon, in its data (`CUtlString`).
pub const m_szName: usize = 0xC18;

/// Identity of an entity (`CEntityIdentity*`).
pub const m_pEntity: usize = 0x10;

/// Designer name of an entity identity (`CUtlSymbolLarge`).
pub const m_designerName: usize = 0x20;

/// Money services of a controller (`CCSPlayerController_InGameMoneyServices*`).
pub const m_pInGameMoneyServices: usize = 0x700;

/// Money a player holds, in its money services (`int32_t`).
pub const m_iAccount: usize = 0x40;

/// Money a player has spent, in its money services (`int32_t`).
pub const m_iTotalCashSpent: usize = 0x48;

/// Money a player has spent this round, in its money services (`int32_t`).
pub const m_iCashSpentThisRound: usize = 0x4C;

/// Scene node of an entity (`CGameSceneNode*`). The schema dump that the
/// other offsets here come from does not list this one: the value is
/// supplied by this library.
pub const m_pGameSceneNode: usize = 0x310;

/// Model state of a skeleton instance (`CModelState`). Not in the schema dump
/// either: the value is supplied by this library.
pub const m_modelState: usize = 0x160;

/// Where a weapon keeps a pointer to its data (`CCSWeaponBaseVData*`).
pub const weapon_vdata: usize = 0x360;

/// Where a model state keeps a pointer to its bone array.
pub const bone_array: usize = 0x80;

/// Size of one bone's entry in the bone array.
pub const bone_stride: usize = 32;

/// Size of one slot of the entity list.
pub const entity_slot: usize = 0x78;

} // verus!
