//! The trusted boundary around the blockchain SDK and the encoding crates.
//! Every executable function here is `external_body`: its body makes one
//! call into an outside crate, and its contract states what that crate's
//! source shows about the result.  Results that are functions of the
//! arguments alone but have no short description (base58 and base64 forms,
//! ed25519 signatures) are given names by bodiless spec functions.

use crate::model::{
    initialize_mint_data, mint_to_data, rent_sysvar_id_bytes, system_program_id_bytes,
    system_transfer_data, token_program_id_bytes, token_transfer_data, AccountRef,
    BuiltInstruction,
};
use base64::Engine as _;
use solana_sdk::signer::Signer as _;
use std::str::FromStr;
use vstd::prelude::*;
use vstd::string::StringSliceAdditionalSpecFns;

verus! {

/// What `Pubkey::from_str` returns on a string: the 32 decoded bytes, or
/// `None` where the string is not the base58 form of exactly 32 bytes.
pub uninterp spec fn pubkey_decode(s: Seq<char>) -> Option<Seq<u8>>;

/// What `bs58::encode` returns on a byte string: its bitcoin-alphabet
/// base58 form.
pub uninterp spec fn b58_of(b: Seq<u8>) -> Seq<char>;

/// What `bs58::decode` returns on a string: the decoded bytes, or `None`
/// where the string holds a character outside the base58 alphabet.
pub uninterp spec fn b58_decode_of(s: Seq<char>) -> Option<Seq<u8>>;

/// What the standard padded base64 encoder returns on a byte string.
pub uninterp spec fn b64_of(b: Seq<u8>) -> Seq<char>;

/// What the standard padded base64 decoder returns on a string: the decoded
/// bytes, or `None` where the string is not well-formed base64.
pub uninterp spec fn b64_decode_of(s: Seq<char>) -> Option<Seq<u8>>;

/// Whether `Keypair::try_from` accepts these bytes as a serialized keypair:
/// 64 bytes whose second half is the valid public key of the first half.
pub uninterp spec fn keypair_parses(b: Seq<u8>) -> bool;

/// What `Signer::sign_message` returns: the deterministic ed25519 signature
/// of the message under the keypair serialized in `keypair`.
pub uninterp spec fn ed25519_sig_of(keypair: Seq<u8>, msg: Seq<u8>) -> Seq<u8>;

/// What `Signature::verify` returns: whether `sig` is a strict ed25519
/// signature of `msg` under the public key `pubkey`.
pub uninterp spec fn ed25519_verifies(pubkey: Seq<u8>, msg: Seq<u8>, sig: Seq<u8>) -> bool;

/// Relies on `solana_sdk::pubkey::Pubkey::from_str`: it base58-decodes the
/// string and accepts it exactly when the decoded form is 32 bytes.
#[verifier::external_body]
pub(crate) fn parse_pubkey(s: &str) -> (r: Option<Vec<u8>>)
    ensures
        r is Some <==> pubkey_decode(s@) is Some,
        r matches Some(v) ==> pubkey_decode(s@) == Some(v@) && v@.len() == 32,
{
    solana_sdk::pubkey::Pubkey::from_str(s).ok().map(|p| p.to_bytes().to_vec())
}

/// Relies on `bs58::encode`: its output is nonempty for nonempty input and
/// decodes back by `bs58::decode`, and for a 32-byte input it is at most 44
/// characters and so accepted by `Pubkey::from_str`.
#[verifier::external_body]
pub(crate) fn encode_base58(b: &Vec<u8>) -> (r: String)
    ensures
        r@ == b58_of(b@),
        b58_decode_of(r@) == Some(b@),
        b@.len() > 0 ==> r@.len() > 0,
        b@.len() == 32 ==> pubkey_decode(r@) == Some(b@),
{
    bs58::encode(b.as_slice()).into_string()
}

/// Relies on `bs58::decode`.
#[verifier::external_body]
pub(crate) fn decode_base58(s: &str) -> (r: Option<Vec<u8>>)
    ensures
        r is Some <==> b58_decode_of(s@) is Some,
        r matches Some(v) ==> b58_decode_of(s@) == Some(v@),
{
    bs58::decode(s).into_vec().ok()
}

/// Relies on `base64::engine::general_purpose::STANDARD.encode`: its
/// padded output decodes back by the same engine.
#[verifier::external_body]
pub(crate) fn encode_base64(b: &Vec<u8>) -> (r: String)
    ensures
        r@ == b64_of(b@),
        b64_decode_of(r@) == Some(b@),
{
    base64::engine::general_purpose::STANDARD.encode(b.as_slice())
}

/// Relies on `base64::engine::general_purpose::STANDARD.decode`.
#[verifier::external_body]
pub(crate) fn decode_base64(s: &str) -> (r: Option<Vec<u8>>)
    ensures
        r is Some <==> b64_decode_of(s@) is Some,
        r matches Some(v) ==> b64_decode_of(s@) == Some(v@),
{
    base64::engine::general_purpose::STANDARD.decode(s).ok()
}

/// Relies on `solana_sdk::signature::Keypair::new` and `Keypair::to_bytes`:
/// a fresh random keypair serialized as 64 bytes, the 32-byte secret seed
/// followed by the public key derived from it — a form `Keypair::try_from`
/// accepts again, whatever keypair was drawn.  The keypair is random, so
/// nothing more is promised of the bytes.
#[verifier::external_body]
pub(crate) fn random_keypair_bytes() -> (r: Vec<u8>)
    ensures
        r@.len() == 64,
        keypair_parses(r@),
{
    solana_sdk::signature::Keypair::new().to_bytes().to_vec()
}

/// Relies on `solana_sdk::signature::Keypair::try_from`, which accepts
/// exactly 64 bytes whose halves form a consistent ed25519 keypair, and on
/// `Signer::sign_message`, whose 64-byte result is a function of the
/// keypair bytes and the message alone and verifies strictly under the
/// keypair's public half.
#[verifier::external_body]
pub(crate) fn sign_with_secret(secret: &Vec<u8>, msg: &str) -> (r: Option<Vec<u8>>)
    ensures
        r is Some <==> keypair_parses(secret@),
        r is Some ==> secret@.len() == 64,
        r matches Some(v) ==> v@ == ed25519_sig_of(secret@, msg.spec_bytes()) && v@.len() == 64,
        r matches Some(v) ==> ed25519_verifies(secret@.subrange(32, 64), msg.spec_bytes(), v@),
{
    match solana_sdk::signature::Keypair::try_from(secret.as_slice()) {
        Ok(kp) => Some(kp.sign_message(msg.as_bytes()).as_ref().to_vec()),
        Err(_) => None,
    }
}

/// Relies on `solana_sdk::signature::Signature::verify`: strict ed25519
/// verification, a function of the public key, message and signature bytes
/// alone.  The signature must be 64 bytes, the length `Signature` holds.
#[verifier::external_body]
pub(crate) fn verify_with_pubkey(pubkey: &Vec<u8>, msg: &str, sig: &Vec<u8>) -> (r: bool)
    requires
        sig@.len() == 64,
    ensures
        r == ed25519_verifies(pubkey@, msg.spec_bytes(), sig@),
{
    let signature = solana_sdk::signature::Signature::try_from(sig.as_slice()).unwrap();
    signature.verify(pubkey.as_slice(), msg.as_bytes())
}

/// Relies on `spl_token::instruction::initialize_mint`, called with the
/// token program's own id so that it cannot fail: the writable mint and the
/// read-only rent sysvar as accounts, and the packed `InitializeMint`
/// payload with no freeze authority.
#[verifier::external_body]
pub(crate) fn initialize_mint_instruction(
    mint: &Vec<u8>,
    mint_authority: &Vec<u8>,
    decimals: u8,
) -> (r: BuiltInstruction)
    requires
        mint@.len() == 32,
        mint_authority@.len() == 32,
    ensures
        r.program_id@ == token_program_id_bytes(),
        r.accounts@.len() == 2,
        r.accounts@[0].pubkey@ == mint@ && !r.accounts@[0].is_signer
            && r.accounts@[0].is_writable,
        r.accounts@[1].pubkey@ == rent_sysvar_id_bytes() && !r.accounts@[1].is_signer
            && !r.accounts@[1].is_writable,
        r.data@ == initialize_mint_data(mint_authority@, decimals),
{
    let ix = spl_token::instruction::initialize_mint(
        &spl_token::id(),
        &solana_sdk::pubkey::Pubkey::try_from(mint.as_slice()).unwrap(),
        &solana_sdk::pubkey::Pubkey::try_from(mint_authority.as_slice()).unwrap(),
        None,
        decimals,
    ).unwrap();
    BuiltInstruction {
        program_id: ix.program_id.to_bytes().to_vec(),
        accounts: ix.accounts.into_iter().map(|m| AccountRef {
            pubkey: m.pubkey.to_bytes().to_vec(), is_signer: m.is_signer, is_writable: m.is_writable,
        }).collect(),
        data: ix.data,
    }
}

/// Relies on `spl_token::instruction::mint_to`, called with the token
/// program's own id and no multisig signers so that it cannot fail: the
/// writable mint, the writable destination, and the read-only signing
/// authority as accounts, and the packed `MintTo` payload.
#[verifier::external_body]
pub(crate) fn mint_to_instruction(
    mint: &Vec<u8>,
    destination: &Vec<u8>,
    authority: &Vec<u8>,
    amount: u64,
) -> (r: BuiltInstruction)
    requires
        mint@.len() == 32,
        destination@.len() == 32,
        authority@.len() == 32,
    ensures
        r.program_id@ == token_program_id_bytes(),
        r.accounts@.len() == 3,
        r.accounts@[0].pubkey@ == mint@ && !r.accounts@[0].is_signer
            && r.accounts@[0].is_writable,
        r.accounts@[1].pubkey@ == destination@ && !r.accounts@[1].is_signer
            && r.accounts@[1].is_writable,
        r.accounts@[2].pubkey@ == authority@ && r.accounts@[2].is_signer
            && !r.accounts@[2].is_writable,
        r.data@ == mint_to_data(amount),
{
    let ix = spl_token::instruction::mint_to(
        &spl_token::id(),
        &solana_sdk::pubkey::Pubkey::try_from(mint.as_slice()).unwrap(),
        &solana_sdk::pubkey::Pubkey::try_from(destination.as_slice()).unwrap(),
        &solana_sdk::pubkey::Pubkey::try_from(authority.as_slice()).unwrap(),
        &[],
        amount,
    ).unwrap();
    BuiltInstruction {
        program_id: ix.program_id.to_bytes().to_vec(),
        accounts: ix.accounts.into_iter().map(|m| AccountRef {
            pubkey: m.pubkey.to_bytes().to_vec(), is_signer: m.is_signer, is_writable: m.is_writable,
        }).collect(),
        data: ix.data,
    }
}

/// Relies on `spl_token::instruction::transfer`, called with the token
/// program's own id and no multisig signers so that it cannot fail: the
/// writable source, the writable destination, and the read-only signing
/// owner as accounts, and the packed `Transfer` payload.
#[verifier::external_body]
pub(crate) fn token_transfer_instruction(
    source: &Vec<u8>,
    destination: &Vec<u8>,
    owner: &Vec<u8>,
    amount: u64,
) -> (r: BuiltInstruction)
    requires
        source@.len() == 32,
        destination@.len() == 32,
        owner@.len() == 32,
    ensures
        r.program_id@ == token_program_id_bytes(),
        r.accounts@.len() == 3,
        r.accounts@[0].pubkey@ == source@ && !r.accounts@[0].is_signer
            && r.accounts@[0].is_writable,
        r.accounts@[1].pubkey@ == destination@ && !r.accounts@[1].is_signer
            && r.accounts@[1].is_writable,
        r.accounts@[2].pubkey@ == owner@ && r.accounts@[2].is_signer
            && !r.accounts@[2].is_writable,
        r.data@ == token_transfer_data(amount),
{
    let ix = spl_token::instruction::transfer(
        &spl_token::id(),
        &solana_sdk::pubkey::Pubkey::try_from(source.as_slice()).unwrap(),
        &solana_sdk::pubkey::Pubkey::try_from(destination.as_slice()).unwrap(),
        &solana_sdk::pubkey::Pubkey::try_from(owner.as_slice()).unwrap(),
        &[],
        amount,
    ).unwrap();
    BuiltInstruction {
        program_id: ix.program_id.to_bytes().to_vec(),
        accounts: ix.accounts.into_iter().map(|m| AccountRef {
            pubkey: m.pubkey.to_bytes().to_vec(), is_signer: m.is_signer, is_writable: m.is_writable,
        }).collect(),
        data: ix.data,
    }
}

/// Relies on `solana_sdk::system_instruction::transfer`: the signing,
/// writable funding account and the writable recipient as accounts, and the
/// bincode form of the `Transfer` system instruction.
#[verifier::external_body]
pub(crate) fn system_transfer_instruction(
    from: &Vec<u8>,
    to: &Vec<u8>,
    lamports: u64,
) -> (r: BuiltInstruction)
    requires
        from@.len() == 32,
        to@.len() == 32,
    ensures
        r.program_id@ == system_program_id_bytes(),
        r.accounts@.len() == 2,
        r.accounts@[0].pubkey@ == from@ && r.accounts@[0].is_signer
            && r.accounts@[0].is_writable,
        r.accounts@[1].pubkey@ == to@ && !r.accounts@[1].is_signer
            && r.accounts@[1].is_writable,
        r.data@ == system_transfer_data(lamports),
{
    let ix = solana_sdk::system_instruction::transfer(
        &solana_sdk::pubkey::Pubkey::try_from(from.as_slice()).unwrap(),
        &solana_sdk::pubkey::Pubkey::try_from(to.as_slice()).unwrap(),
        lamports,
    );
    BuiltInstruction {
        program_id: ix.program_id.to_bytes().to_vec(),
        accounts: ix.accounts.into_iter().map(|m| AccountRef {
            pubkey: m.pubkey.to_bytes().to_vec(), is_signer: m.is_signer, is_writable: m.is_writable,
        }).collect(),
        data: ix.data,
    }
}

} // verus!
