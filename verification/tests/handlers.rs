use base64::Engine as _;
use sol_gateway::create_token::{try_create_token, CreateMintRequest};
use sol_gateway::generate_keypair::{generate_keypair, keypair_response_from_bytes};
use sol_gateway::mint_token::{try_mint_token, MintToRequest};
use sol_gateway::send_sol::{send_sol, SendSolRequest};
use sol_gateway::send_token::{send_token, SendTokenRequest};
use sol_gateway::sign_message::{sign_message, SignRequest};
use sol_gateway::verify_message::{verify_message, VerifyRequest};

const TOKEN_PROGRAM: &str = "TokenkegQfeZyiNwAJbNbGKPFXCWuBvf9Ss623VQ5DA";
const RENT_SYSVAR: &str = "SysvarRent111111111111111111111111111111111";
const SYSTEM_PROGRAM: &str = "11111111111111111111111111111111";
const MINT: &str = "So11111111111111111111111111111111111111112";
const OWNER: &str = "4Nd1mBQtrMJVYVfKf2PJy9NZUZdTAsp7D4xWLs4gDB4T";
const DEST: &str = "8opHzTAnfzRpPEx21XtnrVTX28YQuCpAjcn1PczScKh1";

fn b64(bytes: &[u8]) -> String {
    base64::engine::general_purpose::STANDARD.encode(bytes)
}

#[test]
fn create_token_builds_initialize_mint() {
    let req = CreateMintRequest {
        mint_authority: OWNER.to_string(),
        mint: MINT.to_string(),
        decimals: 9,
    };
    let resp = try_create_token(&req).expect("valid addresses");
    assert!(resp.success);
    assert_eq!(resp.data.program_id, TOKEN_PROGRAM);
    assert_eq!(resp.data.accounts.len(), 2);
    assert_eq!(resp.data.accounts[0].pubkey, MINT);
    assert!(!resp.data.accounts[0].is_signer);
    assert!(resp.data.accounts[0].is_writable);
    assert_eq!(resp.data.accounts[1].pubkey, RENT_SYSVAR);
    assert!(!resp.data.accounts[1].is_signer);
    assert!(!resp.data.accounts[1].is_writable);
    let mut expected = vec![0u8, 9u8];
    expected.extend(bs58::decode(OWNER).into_vec().unwrap());
    expected.push(0u8);
    assert_eq!(resp.data.instruction_data, b64(&expected));
}

#[test]
fn create_token_rejects_bad_address() {
    let req = CreateMintRequest {
        mint_authority: OWNER.to_string(),
        mint: "not a pubkey".to_string(),
        decimals: 0,
    };
    assert!(try_create_token(&req).is_none());
}

#[test]
fn mint_token_builds_mint_to() {
    let req = MintToRequest {
        mint: MINT.to_string(),
        destination: DEST.to_string(),
        authority: OWNER.to_string(),
        amount: 1_000_000,
    };
    let resp = try_mint_token(&req).expect("valid addresses");
    assert!(resp.success);
    assert_eq!(resp.data.program_id, TOKEN_PROGRAM);
    assert_eq!(resp.data.accounts.len(), 3);
    assert_eq!(resp.data.accounts[0].pubkey, MINT);
    assert!(!resp.data.accounts[0].is_signer);
    assert!(resp.data.accounts[0].is_writable);
    assert_eq!(resp.data.accounts[1].pubkey, DEST);
    assert!(!resp.data.accounts[1].is_signer);
    assert!(resp.data.accounts[1].is_writable);
    assert_eq!(resp.data.accounts[2].pubkey, OWNER);
    assert!(resp.data.accounts[2].is_signer);
    assert!(!resp.data.accounts[2].is_writable);
    let mut expected = vec![7u8];
    expected.extend(1_000_000u64.to_le_bytes());
    assert_eq!(resp.data.instruction_data, b64(&expected));
}

#[test]
fn mint_token_rejects_bad_address() {
    let req = MintToRequest {
        mint: MINT.to_string(),
        destination: "???".to_string(),
        authority: OWNER.to_string(),
        amount: 1,
    };
    assert!(try_mint_token(&req).is_none());
}

#[test]
fn send_sol_builds_transfer() {
    let req = SendSolRequest { from: OWNER.to_string(), to: DEST.to_string(), lamports: 42 };
    let resp = send_sol(&req);
    assert!(resp.success);
    assert_eq!(resp.data.program_id, SYSTEM_PROGRAM);
    assert_eq!(resp.data.accounts, vec![OWNER.to_string(), DEST.to_string()]);
    let mut expected = vec![2u8, 0u8, 0u8, 0u8];
    expected.extend(42u64.to_le_bytes());
    assert_eq!(resp.data.instruction_data, b64(&expected));
}

#[test]
fn send_sol_rejects_bad_from() {
    let req = SendSolRequest { from: "x".to_string(), to: DEST.to_string(), lamports: 1 };
    let resp = send_sol(&req);
    assert!(!resp.success);
    assert_eq!(resp.data.program_id, "");
    assert!(resp.data.accounts.is_empty());
    assert_eq!(resp.data.instruction_data, "Invalid 'from' address");
}

#[test]
fn send_sol_rejects_bad_to() {
    let req = SendSolRequest { from: OWNER.to_string(), to: "0Ol".to_string(), lamports: 1 };
    let resp = send_sol(&req);
    assert!(!resp.success);
    assert_eq!(resp.data.instruction_data, "Invalid 'to' address");
}

#[test]
fn send_sol_rejects_zero_lamports() {
    let req = SendSolRequest { from: OWNER.to_string(), to: DEST.to_string(), lamports: 0 };
    let resp = send_sol(&req);
    assert!(!resp.success);
    assert_eq!(resp.data.instruction_data, "Lamports must be > 0");
}

#[test]
fn send_sol_rejects_same_addresses() {
    let req = SendSolRequest { from: OWNER.to_string(), to: OWNER.to_string(), lamports: 5 };
    let resp = send_sol(&req);
    assert!(!resp.success);
    assert_eq!(resp.data.instruction_data, "'from' and 'to' cannot be the same");
}

#[test]
fn send_token_builds_transfer() {
    let req = SendTokenRequest {
        destination: DEST.to_string(),
        mint: MINT.to_string(),
        owner: OWNER.to_string(),
        amount: 77,
    };
    let resp = send_token(&req);
    assert!(resp.success);
    assert_eq!(resp.data.program_id, TOKEN_PROGRAM);
    assert_eq!(resp.data.accounts.len(), 3);
    assert_eq!(resp.data.accounts[0].pubkey, MINT);
    assert!(!resp.data.accounts[0].is_signer);
    assert_eq!(resp.data.accounts[1].pubkey, DEST);
    assert!(!resp.data.accounts[1].is_signer);
    assert_eq!(resp.data.accounts[2].pubkey, OWNER);
    assert!(resp.data.accounts[2].is_signer);
    let mut expected = vec![3u8];
    expected.extend(77u64.to_le_bytes());
    assert_eq!(resp.data.instruction_data, b64(&expected));
}

#[test]
fn send_token_rejects_bad_destination() {
    let req = SendTokenRequest {
        destination: "bad!".to_string(),
        mint: MINT.to_string(),
        owner: OWNER.to_string(),
        amount: 1,
    };
    let resp = send_token(&req);
    assert!(!resp.success);
    assert_eq!(resp.data.instruction_data, "Invalid destination address");
}

#[test]
fn send_token_rejects_bad_mint() {
    let req = SendTokenRequest {
        destination: DEST.to_string(),
        mint: "bad!".to_string(),
        owner: OWNER.to_string(),
        amount: 1,
    };
    let resp = send_token(&req);
    assert!(!resp.success);
    assert_eq!(resp.data.instruction_data, "Invalid mint address");
}

#[test]
fn send_token_rejects_bad_owner() {
    let req = SendTokenRequest {
        destination: DEST.to_string(),
        mint: MINT.to_string(),
        owner: "bad!".to_string(),
        amount: 1,
    };
    let resp = send_token(&req);
    assert!(!resp.success);
    assert_eq!(resp.data.instruction_data, "Invalid owner address");
}

#[test]
fn generate_keypair_encodes_both_halves() {
    let resp = generate_keypair();
    assert!(resp.success);
    let secret_bytes = bs58::decode(&resp.data.secret).into_vec().unwrap();
    assert_eq!(secret_bytes.len(), 64);
    let pubkey_bytes = bs58::decode(&resp.data.pubkey).into_vec().unwrap();
    assert_eq!(pubkey_bytes, secret_bytes[32..].to_vec());
}

#[test]
fn keypair_response_matches_manual_encoding() {
    let bytes: Vec<u8> = (0u8..64u8).collect();
    let resp = keypair_response_from_bytes(&bytes);
    assert_eq!(resp.secret, bs58::encode(&bytes).into_string());
    assert_eq!(resp.pubkey, bs58::encode(&bytes[32..]).into_string());
}

#[test]
fn sign_message_rejects_missing_fields() {
    let req = SignRequest { message: "".to_string(), secret: "abc".to_string() };
    let resp = sign_message(&req);
    assert!(!resp.success);
    assert!(resp.data.is_none());
    assert_eq!(resp.error.as_deref(), Some("Missing required fields"));
}

#[test]
fn sign_message_rejects_bad_base58() {
    let req = SignRequest { message: "hi".to_string(), secret: "0OIl".to_string() };
    let resp = sign_message(&req);
    assert!(!resp.success);
    assert_eq!(resp.error.as_deref(), Some("Invalid base58 secret key"));
}

#[test]
fn sign_message_rejects_short_secret() {
    let short = bs58::encode(&[1u8, 2, 3]).into_string();
    let req = SignRequest { message: "hi".to_string(), secret: short };
    let resp = sign_message(&req);
    assert!(!resp.success);
    assert_eq!(resp.error.as_deref(), Some("Invalid secret key format"));
}

#[test]
fn sign_then_verify_round_trips() {
    let generated = generate_keypair();
    let message = "Hello, Solana!".to_string();
    let signed = sign_message(&SignRequest {
        message: message.clone(),
        secret: generated.data.secret.clone(),
    });
    assert!(signed.success);
    let data = signed.data.expect("signature data");
    assert_eq!(data.message, message);
    assert_eq!(data.public_key, generated.data.pubkey);

    let (status, verified) = verify_message(&VerifyRequest {
        message: message.clone(),
        signature: data.signature.clone(),
        pubkey: data.public_key.clone(),
    });
    assert_eq!(status, 200);
    assert!(verified.success);
    let vdata = verified.data.expect("verification data");
    assert!(vdata.valid);
    assert_eq!(vdata.message, message);
    assert_eq!(vdata.pubkey, generated.data.pubkey);

    let (status2, tampered) = verify_message(&VerifyRequest {
        message: "Hello, Solana?".to_string(),
        signature: data.signature,
        pubkey: data.public_key,
    });
    assert_eq!(status2, 200);
    assert!(!tampered.data.expect("verification data").valid);
}

#[test]
fn verify_message_rejects_bad_pubkey() {
    let (status, resp) = verify_message(&VerifyRequest {
        message: "m".to_string(),
        signature: b64(&[0u8; 64]),
        pubkey: "not a key".to_string(),
    });
    assert_eq!(status, 400);
    assert!(!resp.success);
    assert_eq!(resp.error.as_deref(), Some("Invalid pubkey"));
}

#[test]
fn verify_message_rejects_bad_base64() {
    let (status, resp) = verify_message(&VerifyRequest {
        message: "m".to_string(),
        signature: "@@@".to_string(),
        pubkey: OWNER.to_string(),
    });
    assert_eq!(status, 400);
    assert_eq!(resp.error.as_deref(), Some("Invalid base64 signature"));
}

#[test]
fn verify_message_rejects_wrong_length() {
    let (status, resp) = verify_message(&VerifyRequest {
        message: "m".to_string(),
        signature: b64(&[0u8; 10]),
        pubkey: OWNER.to_string(),
    });
    assert_eq!(status, 400);
    assert_eq!(resp.error.as_deref(), Some("Signature must be 64 bytes"));
}

#[test]
fn verify_message_reports_invalid_signature() {
    let (status, resp) = verify_message(&VerifyRequest {
        message: "m".to_string(),
        signature: b64(&[0u8; 64]),
        pubkey: OWNER.to_string(),
    });
    assert_eq!(status, 200);
    assert!(resp.success);
    assert!(!resp.data.expect("verification data").valid);
}
