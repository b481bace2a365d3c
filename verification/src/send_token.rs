//! Construction of a token `Transfer` instruction from a request that
//! names the destination account, the mint, the owner and the amount.

use crate::model::{token_program_id_bytes, token_transfer_data};
use crate::sdk::{b58_of, b64_of, encode_base58, encode_base64, parse_pubkey, pubkey_decode,
    token_transfer_instruction};
use vstd::prelude::*;

verus! {

/// A request to build a token transfer instruction.
pub struct SendTokenRequest {
    pub destination: String,
    pub mint: String,
    pub owner: String,
    pub amount: u64,
}

/// An account reference in the response: base58 address and signer flag.
pub struct AccountInfo {
    pub pubkey: String,
    pub is_signer: bool,
}

/// The built instruction: base58 program id, account references, base64
/// payload.  On failure the same shape carries an empty program id, no
/// accounts, and the error message in the payload field.
pub struct InstructionResponseData {
    pub program_id: String,
    pub accounts: Vec<AccountInfo>,
    pub instruction_data: String,
}

/// The response envelope for `send_token`.
pub struct SendTokenResponse {
    pub success: bool,
    pub data: InstructionResponseData,
}

/// Whether all three addresses of the request parse.
pub open spec fn send_token_accepted(req: SendTokenRequest) -> bool {
    &&& pubkey_decode(req.destination@) is Some
    &&& pubkey_decode(req.mint@) is Some
    &&& pubkey_decode(req.owner@) is Some
}

/// The successful payload: the token program as program id; the mint
/// address as the writable source account, the writable destination, and
/// the signing owner; and the encoded `Transfer` payload for the request's
/// amount.
pub open spec fn send_token_instruction(req: SendTokenRequest, d: InstructionResponseData) -> bool {
    &&& d.program_id@ == b58_of(token_program_id_bytes())
    &&& d.accounts@.len() == 3
    &&& d.accounts@[0].pubkey@ == b58_of(pubkey_decode(req.mint@)->Some_0)
    &&& !d.accounts@[0].is_signer
    &&& d.accounts@[1].pubkey@ == b58_of(pubkey_decode(req.destination@)->Some_0)
    &&& !d.accounts@[1].is_signer
    &&& d.accounts@[2].pubkey@ == b58_of(pubkey_decode(req.owner@)->Some_0)
    &&& d.accounts@[2].is_signer
    &&& d.instruction_data@ == b64_of(token_transfer_data(req.amount))
}

/// The failure payload: empty program id, no accounts, and the error
/// message in the payload field.
pub open spec fn send_token_rejection(d: InstructionResponseData, msg: Seq<char>) -> bool {
    &&& d.program_id@ == ""@
    &&& d.accounts@.len() == 0
    &&& d.instruction_data@ == msg
}

fn send_token_failure(msg: &str) -> (r: SendTokenResponse)
    ensures
        !r.success,
        send_token_rejection(r.data, msg@),
{
    SendTokenResponse {
        success: false,
        data: InstructionResponseData {
            program_id: "".to_owned(),
            accounts: Vec::new(),
            instruction_data: msg.to_owned(),
        },
    }
}

/// Builds a token `Transfer` instruction.  The response succeeds exactly
/// where all three addresses parse; each rejected request carries the
/// message of the first address that fails.
pub fn send_token(req: &SendTokenRequest) -> (r: SendTokenResponse)
    ensures
        r.success == send_token_accepted(*req),
        send_token_accepted(*req) ==> send_token_instruction(*req, r.data),
        pubkey_decode(req.destination@) is None ==> send_token_rejection(
            r.data,
            "Invalid destination address"@,
        ),
        pubkey_decode(req.destination@) is Some && pubkey_decode(req.mint@) is None
            ==> send_token_rejection(r.data, "Invalid mint address"@),
        pubkey_decode(req.destination@) is Some && pubkey_decode(req.mint@) is Some
            && pubkey_decode(req.owner@) is None ==> send_token_rejection(
            r.data,
            "Invalid owner address"@,
        ),
{
    let destination = match parse_pubkey(req.destination.as_str()) {
        Some(b) => b,
        None => {
            return send_token_failure("Invalid destination address");
        },
    };
    let mint = match parse_pubkey(req.mint.as_str()) {
        Some(b) => b,
        None => {
            return send_token_failure("Invalid mint address");
        },
    };
    let owner = match parse_pubkey(req.owner.as_str()) {
        Some(b) => b,
        None => {
            return send_token_failure("Invalid owner address");
        },
    };
    let ix = token_transfer_instruction(&mint, &destination, &owner, req.amount);
    let mut accounts: Vec<AccountInfo> = Vec::new();
    accounts.push(AccountInfo {
        pubkey: encode_base58(&ix.accounts[0].pubkey),
        is_signer: ix.accounts[0].is_signer,
    });
    accounts.push(AccountInfo {
        pubkey: encode_base58(&ix.accounts[1].pubkey),
        is_signer: ix.accounts[1].is_signer,
    });
    accounts.push(AccountInfo {
        pubkey: encode_base58(&ix.accounts[2].pubkey),
        is_signer: ix.accounts[2].is_signer,
    });
    SendTokenResponse {
        success: true,
        data: InstructionResponseData {
            program_id: encode_base58(&ix.program_id),
            accounts,
            instruction_data: encode_base64(&ix.data),
        },
    }
}

} // verus!
