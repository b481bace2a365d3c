//! Construction of an `InitializeMint` token instruction from a request
//! that names the mint, the mint authority and the number of decimals.

use crate::model::{initialize_mint_data, rent_sysvar_id_bytes, token_program_id_bytes};
use crate::sdk::{b58_of, b64_of, encode_base58, encode_base64, initialize_mint_instruction,
    parse_pubkey, pubkey_decode};
use vstd::prelude::*;

verus! {

/// A request to build an `InitializeMint` instruction.
pub struct CreateMintRequest {
    pub mint_authority: String,
    pub mint: String,
    pub decimals: u8,
}

/// An account reference in the response: base58 address and flags.
pub struct AccountMetaResponse {
    pub pubkey: String,
    pub is_signer: bool,
    pub is_writable: bool,
}

/// The built instruction: base58 program id, account references, base64
/// payload.
pub struct InstructionData {
    pub program_id: String,
    pub accounts: Vec<AccountMetaResponse>,
    pub instruction_data: String,
}

/// The response envelope for `create_token`.
pub struct CreateMintResponse {
    pub success: bool,
    pub data: InstructionData,
}

/// Whether both addresses of the request parse.
pub open spec fn create_mint_parses(req: CreateMintRequest) -> bool {
    &&& pubkey_decode(req.mint@) is Some
    &&& pubkey_decode(req.mint_authority@) is Some
}

/// The successful response: the token program as program id, the writable
/// mint and the read-only rent sysvar as accounts, and the encoded
/// `InitializeMint` payload for the request's authority and decimals.
pub open spec fn create_mint_built(req: CreateMintRequest, r: CreateMintResponse) -> bool {
    &&& r.success
    &&& r.data.program_id@ == b58_of(token_program_id_bytes())
    &&& r.data.accounts@.len() == 2
    &&& r.data.accounts@[0].pubkey@ == b58_of(pubkey_decode(req.mint@)->Some_0)
    &&& !r.data.accounts@[0].is_signer
    &&& r.data.accounts@[0].is_writable
    &&& r.data.accounts@[1].pubkey@ == b58_of(rent_sysvar_id_bytes())
    &&& !r.data.accounts@[1].is_signer
    &&& !r.data.accounts@[1].is_writable
    &&& r.data.instruction_data@ == b64_of(
        initialize_mint_data(pubkey_decode(req.mint_authority@)->Some_0, req.decimals),
    )
}

/// Builds an `InitializeMint` instruction.  Both addresses must parse; the
/// caller that cannot know this uses [`try_create_token`].
pub fn create_token(req: &CreateMintRequest) -> (r: CreateMintResponse)
    requires
        create_mint_parses(*req),
    ensures
        create_mint_built(*req, r),
{
    let mint = parse_pubkey(req.mint.as_str()).unwrap();
    let authority = parse_pubkey(req.mint_authority.as_str()).unwrap();
    let ix = initialize_mint_instruction(&mint, &authority, req.decimals);
    let mut accounts: Vec<AccountMetaResponse> = Vec::new();
    accounts.push(AccountMetaResponse {
        pubkey: encode_base58(&ix.accounts[0].pubkey),
        is_signer: ix.accounts[0].is_signer,
        is_writable: ix.accounts[0].is_writable,
    });
    accounts.push(AccountMetaResponse {
        pubkey: encode_base58(&ix.accounts[1].pubkey),
        is_signer: ix.accounts[1].is_signer,
        is_writable: ix.accounts[1].is_writable,
    });
    CreateMintResponse {
        success: true,
        data: InstructionData {
            program_id: encode_base58(&ix.program_id),
            accounts,
            instruction_data: encode_base64(&ix.data),
        },
    }
}

/// Builds an `InitializeMint` instruction after checking that both
/// addresses parse, and returns `None` exactly where one does not.
pub fn try_create_token(req: &CreateMintRequest) -> (r: Option<CreateMintResponse>)
    ensures
        r is Some <==> create_mint_parses(*req),
        r matches Some(resp) ==> create_mint_built(*req, resp),
{
    let mint = parse_pubkey(req.mint.as_str());
    let authority = parse_pubkey(req.mint_authority.as_str());
    if mint.is_some() && authority.is_some() {
        Some(create_token(req))
    } else {
        None
    }
}

} // verus!
