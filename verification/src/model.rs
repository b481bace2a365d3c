//! Mathematical model of the instructions this service builds: the byte
//! layout of each instruction payload and the well-known program addresses,
//! as the on-chain programs define them.

use vstd::prelude::*;

verus! {

/// An account referenced by an instruction: its 32-byte address and the
/// flags that tell the runtime whether it signs and whether it is written.
pub struct AccountRef {
    pub pubkey: Vec<u8>,
    pub is_signer: bool,
    pub is_writable: bool,
}

/// An instruction as a ledger node expects it: the program to run, the
/// ordered account references, and the opaque payload bytes.
pub struct BuiltInstruction {
    pub program_id: Vec<u8>,
    pub accounts: Vec<AccountRef>,
    pub data: Vec<u8>,
}

/// The eight bytes of `x` in little-endian order.
pub open spec fn u64_le_bytes(x: u64) -> Seq<u8> {
    seq![
        (x & 0xff) as u8,
        ((x >> 8) & 0xff) as u8,
        ((x >> 16) & 0xff) as u8,
        ((x >> 24) & 0xff) as u8,
        ((x >> 32) & 0xff) as u8,
        ((x >> 40) & 0xff) as u8,
        ((x >> 48) & 0xff) as u8,
        ((x >> 56) & 0xff) as u8,
    ]
}

/// Address of the token program (base58 `TokenkegQfeZyiNwAJbNbGKPFXCWuBvf9Ss623VQ5DA`).
pub open spec fn token_program_id_bytes() -> Seq<u8> {
    seq![
        6u8, 221u8, 246u8, 225u8, 215u8, 101u8, 161u8, 147u8,
        217u8, 203u8, 225u8, 70u8, 206u8, 235u8, 121u8, 172u8,
        28u8, 180u8, 133u8, 237u8, 95u8, 91u8, 55u8, 145u8,
        58u8, 140u8, 245u8, 133u8, 126u8, 255u8, 0u8, 169u8,
    ]
}

/// Address of the rent sysvar (base58 `SysvarRent111111111111111111111111111111111`).
pub open spec fn rent_sysvar_id_bytes() -> Seq<u8> {
    seq![
        6u8, 167u8, 213u8, 23u8, 25u8, 44u8, 92u8, 81u8,
        33u8, 140u8, 201u8, 76u8, 61u8, 74u8, 241u8, 127u8,
        88u8, 218u8, 238u8, 8u8, 155u8, 161u8, 253u8, 68u8,
        227u8, 219u8, 217u8, 138u8, 0u8, 0u8, 0u8, 0u8,
    ]
}

/// Address of the system program: thirty-two zero bytes
/// (base58 `11111111111111111111111111111111`).
pub open spec fn system_program_id_bytes() -> Seq<u8> {
    Seq::new(32, |i: int| 0u8)
}

/// Payload of an `InitializeMint` token instruction: tag byte 0, the number
/// of decimals, the 32-byte mint authority, and a zero byte for the absent
/// freeze authority.
pub open spec fn initialize_mint_data(mint_authority: Seq<u8>, decimals: u8) -> Seq<u8> {
    seq![0u8, decimals] + mint_authority + seq![0u8]
}

/// Payload of a `Transfer` token instruction: tag byte 3 followed by the
/// amount in little-endian order.
pub open spec fn token_transfer_data(amount: u64) -> Seq<u8> {
    seq![3u8] + u64_le_bytes(amount)
}

/// Payload of a `MintTo` token instruction: tag byte 7 followed by the
/// amount in little-endian order.
pub open spec fn mint_to_data(amount: u64) -> Seq<u8> {
    seq![7u8] + u64_le_bytes(amount)
}

/// Payload of a system-program lamport transfer: the variant index 2 as a
/// little-endian 32-bit tag, followed by the lamport amount in little-endian
/// order.
pub open spec fn system_transfer_data(lamports: u64) -> Seq<u8> {
    seq![2u8, 0u8, 0u8, 0u8] + u64_le_bytes(lamports)
}

} // verus!
