//! Construction of a `MintTo` token instruction from a request that names
//! the mint, the destination account, the mint authority and the amount.

use crate::model::{mint_to_data, token_program_id_bytes};
use crate::sdk::{b58_of, b64_of, encode_base58, encode_base64, mint_to_instruction,
    parse_pubkey, pubkey_decode};
use vstd::prelude::*;

verus! {

/// A request to build a `MintTo` instruction.
pub struct MintToRequest {
    pub mint: String,
    pub destination: String,
    pub authority: String,
    pub amount: u64,
}

/// An account reference in the response: base58 address and flags.
pub struct AccountMetaResponse {
    pub pubkey: String,
    pub is_signer: bool,
    pub is_writable: bool,
}

/// The built instruction: base58 program id, account references, base64
/// payload.
pub struct InstructionData {
    pub program_id: String,
    pub accounts: Vec<AccountMetaResponse>,
    pub instruction_data: String,
}

/// The response envelope for `mint_token`.
pub struct MintToResponse {
    pub success: bool,
    pub data: InstructionData,
}

/// Whether all three addresses of the request parse.
pub open spec fn mint_to_parses(req: MintToRequest) -> bool {
    &&& pubkey_decode(req.mint@) is Some
    &&& pubkey_decode(req.destination@) is Some
    &&& pubkey_decode(req.authority@) is Some
}

/// The successful response: the token program as program id; the writable
/// mint, the writable destination and the read-only signing authority as
/// accounts; and the encoded `MintTo` payload for the request's amount.
pub open spec fn mint_to_built(req: MintToRequest, r: MintToResponse) -> bool {
    &&& r.success
    &&& r.data.program_id@ == b58_of(token_program_id_bytes())
    &&& r.data.accounts@.len() == 3
    &&& r.data.accounts@[0].pubkey@ == b58_of(pubkey_decode(req.mint@)->Some_0)
    &&& !r.data.accounts@[0].is_signer
    &&& r.data.accounts@[0].is_writable
    &&& r.data.accounts@[1].pubkey@ == b58_of(pubkey_decode(req.destination@)->Some_0)
    &&& !r.data.accounts@[1].is_signer
    &&& r.data.accounts@[1].is_writable
    &&& r.data.accounts@[2].pubkey@ == b58_of(pubkey_decode(req.authority@)->Some_0)
    &&& r.data.accounts@[2].is_signer
    &&& !r.data.accounts@[2].is_writable
    &&& r.data.instruction_data@ == b64_of(mint_to_data(req.amount))
}

/// Builds a `MintTo` instruction.  All three addresses must parse; the
/// caller that cannot know this uses [`try_mint_token`].
pub fn mint_token(req: &MintToRequest) -> (r: MintToResponse)
    requires
        mint_to_parses(*req),
    ensures
        mint_to_built(*req, r),
{
    let mint = parse_pubkey(req.mint.as_str()).unwrap();
    let destination = parse_pubkey(req.destination.as_str()).unwrap();
    let authority = parse_pubkey(req.authority.as_str()).unwrap();
    let ix = mint_to_instruction(&mint, &destination, &authority, req.amount);
    let mut accounts: Vec<AccountMetaResponse> = Vec::new();
    accounts.push(AccountMetaResponse {
        pubkey: encode_base58(&ix.accounts[0].pubkey),
        is_signer: ix.accounts[0].is_signer,
        is_writable: ix.accounts[0].is_writable,
    });
    accounts.push(AccountMetaResponse {
        pubkey: encode_base58(&ix.accounts[1].pubkey),
        is_signer: ix.accounts[1].is_signer,
        is_writable: ix.accounts[1].is_writable,
    });
    accounts.push(AccountMetaResponse {
        pubkey: encode_base58(&ix.accounts[2].pubkey),
        is_signer: ix.accounts[2].is_signer,
        is_writable: ix.accounts[2].is_writable,
    });
    MintToResponse {
        success: true,
        data: InstructionData {
            program_id: encode_base58(&ix.program_id),
            accounts,
            instruction_data: encode_base64(&ix.data),
        },
    }
}

/// Builds a `MintTo` instruction after checking that all three addresses
/// parse, and returns `None` exactly where one does not.
pub fn try_mint_token(req: &MintToRequest) -> (r: Option<MintToResponse>)
    ensures
        r is Some <==> mint_to_parses(*req),
        r matches Some(resp) ==> mint_to_built(*req, resp),
{
    let mint = parse_pubkey(req.mint.as_str());
    let destination = parse_pubkey(req.destination.as_str());
    let authority = parse_pubkey(req.authority.as_str());
    if mint.is_some() && destination.is_some() && authority.is_some() {
        Some(mint_token(req))
    } else {
        None
    }
}

} // verus!
