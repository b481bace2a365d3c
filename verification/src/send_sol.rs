//! Construction of a system-program lamport transfer from a request that
//! names the funding account, the recipient and the amount.

use crate::bytes::bytes_eq;
use crate::model::{system_program_id_bytes, system_transfer_data};
use crate::sdk::{b58_of, b64_of, encode_base58, encode_base64, parse_pubkey, pubkey_decode,
    system_transfer_instruction};
use vstd::prelude::*;

verus! {

/// A request to build a lamport transfer instruction.
pub struct SendSolRequest {
    pub from: String,
    pub to: String,
    pub lamports: u64,
}

/// The built instruction: base58 program id, the referenced account
/// addresses in order, and the base64 payload.  On failure the same shape
/// carries an empty program id, no accounts, and the error message in the
/// payload field.
pub struct InstructionData {
    pub program_id: String,
    pub accounts: Vec<String>,
    pub instruction_data: String,
}

/// The response envelope for `send_sol`.
pub struct SendSolResponse {
    pub success: bool,
    pub data: InstructionData,
}

/// Whether the request passes every check: both addresses parse, the
/// amount is positive, and the two addresses are distinct.
pub open spec fn send_sol_accepted(req: SendSolRequest) -> bool {
    &&& pubkey_decode(req.from@) is Some
    &&& pubkey_decode(req.to@) is Some
    &&& req.lamports > 0
    &&& pubkey_decode(req.from@) != pubkey_decode(req.to@)
}

/// The successful payload: the system program as program id, the funding
/// and recipient addresses in order, and the encoded transfer payload.
pub open spec fn send_sol_instruction(req: SendSolRequest, d: InstructionData) -> bool {
    &&& d.program_id@ == b58_of(system_program_id_bytes())
    &&& d.accounts@.len() == 2
    &&& d.accounts@[0]@ == b58_of(pubkey_decode(req.from@)->Some_0)
    &&& d.accounts@[1]@ == b58_of(pubkey_decode(req.to@)->Some_0)
    &&& d.instruction_data@ == b64_of(system_transfer_data(req.lamports))
}

/// The failure payload: empty program id, no accounts, and the error
/// message in the payload field.
pub open spec fn send_sol_rejection(d: InstructionData, msg: Seq<char>) -> bool {
    &&& d.program_id@ == ""@
    &&& d.accounts@.len() == 0
    &&& d.instruction_data@ == msg
}

fn send_sol_failure(msg: &str) -> (r: SendSolResponse)
    ensures
        !r.success,
        send_sol_rejection(r.data, msg@),
{
    SendSolResponse {
        success: false,
        data: InstructionData {
            program_id: "".to_owned(),
            accounts: Vec::new(),
            instruction_data: msg.to_owned(),
        },
    }
}

/// Builds a lamport transfer instruction.  The response succeeds exactly on
/// accepted requests; each rejected request carries the message of the
/// first check it fails.
pub fn send_sol(req: &SendSolRequest) -> (r: SendSolResponse)
    ensures
        r.success == send_sol_accepted(*req),
        send_sol_accepted(*req) ==> send_sol_instruction(*req, r.data),
        pubkey_decode(req.from@) is None ==> send_sol_rejection(
            r.data,
            "Invalid 'from' address"@,
        ),
        pubkey_decode(req.from@) is Some && pubkey_decode(req.to@) is None
            ==> send_sol_rejection(r.data, "Invalid 'to' address"@),
        pubkey_decode(req.from@) is Some && pubkey_decode(req.to@) is Some
            && req.lamports == 0 ==> send_sol_rejection(r.data, "Lamports must be > 0"@),
        pubkey_decode(req.from@) is Some && pubkey_decode(req.to@) is Some
            && req.lamports > 0 && pubkey_decode(req.from@) == pubkey_decode(req.to@)
            ==> send_sol_rejection(r.data, "'from' and 'to' cannot be the same"@),
{
    let from = match parse_pubkey(req.from.as_str()) {
        Some(b) => b,
        None => {
            return send_sol_failure("Invalid 'from' address");
        },
    };
    let to = match parse_pubkey(req.to.as_str()) {
        Some(b) => b,
        None => {
            return send_sol_failure("Invalid 'to' address");
        },
    };
    if req.lamports == 0 {
        return send_sol_failure("Lamports must be > 0");
    }
    if bytes_eq(&from, &to) {
        return send_sol_failure("'from' and 'to' cannot be the same");
    }
    let ix = system_transfer_instruction(&from, &to, req.lamports);
    let mut accounts: Vec<String> = Vec::new();
    accounts.push(encode_base58(&ix.accounts[0].pubkey));
    accounts.push(encode_base58(&ix.accounts[1].pubkey));
    SendSolResponse {
        success: true,
        data: InstructionData {
            program_id: encode_base58(&ix.program_id),
            accounts,
            instruction_data: encode_base64(&ix.data),
        },
    }
}

} // verus!
