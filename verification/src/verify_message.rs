//! Signature verification: a message, a base64 signature and a base58
//! public key in, the verification outcome out.

use crate::sdk::{b64_decode_of, decode_base64, ed25519_verifies, parse_pubkey, pubkey_decode,
    verify_with_pubkey};
use crate::sign_message::{sign_accepted, sign_signed, SignRequest, SignResponse};
use vstd::prelude::*;
use vstd::utf8::encode_utf8;

verus! {

/// A request to verify a signature over a message under a public key.
pub struct VerifyRequest {
    pub message: String,
    pub signature: String,
    pub pubkey: String,
}

/// The response envelope for `verify_message`: on success `data` is
/// filled, on failure `error` is.
pub struct VerifyResponse {
    pub success: bool,
    pub data: Option<VerifyData>,
    pub error: Option<String>,
}

/// A verification outcome: whether the signature verifies, with the
/// message and public key echoed back.
pub struct VerifyData {
    pub valid: bool,
    pub message: String,
    pub pubkey: String,
}

/// Whether the request passes every check: the public key parses and the
/// signature is base64 for exactly 64 bytes.
pub open spec fn verify_accepted(req: VerifyRequest) -> bool {
    &&& pubkey_decode(req.pubkey@) is Some
    &&& b64_decode_of(req.signature@) is Some
    &&& b64_decode_of(req.signature@)->Some_0.len() == 64
}

/// The failure shape: a client-error status, no payload, and the error
/// message.
pub open spec fn verify_rejection(r: (u16, VerifyResponse), msg: Seq<char>) -> bool {
    &&& r.0 == 400
    &&& !r.1.success
    &&& r.1.data is None
    &&& r.1.error matches Some(e) && e@ == msg
}

/// The success shape: an OK status and a payload whose flag is the ed25519
/// verification outcome for the decoded key, the message's bytes and the
/// decoded signature, with the message and key echoed back.
pub open spec fn verify_reported(req: VerifyRequest, r: (u16, VerifyResponse)) -> bool {
    &&& r.0 == 200
    &&& r.1.success
    &&& r.1.error is None
    &&& r.1.data matches Some(d) && {
        &&& d.valid == ed25519_verifies(
            pubkey_decode(req.pubkey@)->Some_0,
            encode_utf8(req.message@),
            b64_decode_of(req.signature@)->Some_0,
        )
        &&& d.message@ == req.message@
        &&& d.pubkey@ == req.pubkey@
    }
}

fn verify_failure(msg: &str) -> (r: (u16, VerifyResponse))
    ensures
        verify_rejection(r, msg@),
{
    (400, VerifyResponse { success: false, data: None, error: Some(msg.to_owned()) })
}

/// Verifies a signature over a message under a public key.  The status is
/// OK exactly on accepted requests; each rejected request carries the
/// message of the first check it fails.
pub fn verify_message(req: &VerifyRequest) -> (r: (u16, VerifyResponse))
    ensures
        (r.0 == 200) == verify_accepted(*req),
        r.1.success == verify_accepted(*req),
        verify_accepted(*req) ==> verify_reported(*req, r),
        pubkey_decode(req.pubkey@) is None ==> verify_rejection(r, "Invalid pubkey"@),
        pubkey_decode(req.pubkey@) is Some && b64_decode_of(req.signature@) is None
            ==> verify_rejection(r, "Invalid base64 signature"@),
        pubkey_decode(req.pubkey@) is Some && b64_decode_of(req.signature@) is Some
            && b64_decode_of(req.signature@)->Some_0.len() != 64 ==> verify_rejection(
            r,
            "Signature must be 64 bytes"@,
        ),
{
    let pubkey_bytes = match parse_pubkey(req.pubkey.as_str()) {
        Some(b) => b,
        None => {
            return verify_failure("Invalid pubkey");
        },
    };
    let signature_bytes = match decode_base64(req.signature.as_str()) {
        Some(b) => b,
        None => {
            return verify_failure("Invalid base64 signature");
        },
    };
    if signature_bytes.len() != 64 {
        return verify_failure("Signature must be 64 bytes");
    }
    let valid = verify_with_pubkey(&pubkey_bytes, req.message.as_str(), &signature_bytes);
    (
        200,
        VerifyResponse {
            success: true,
            data: Some(
                VerifyData { valid, message: req.message.clone(), pubkey: req.pubkey.clone() },
            ),
            error: None,
        },
    )
}

/// A produced signature verifies: for an accepted sign request, the verify
/// request built from the echoed message, the produced signature and the
/// produced public key is accepted, and a response meeting
/// `verify_message`'s success shape reports the signature valid.
pub proof fn lemma_sign_then_verify(
    sreq: SignRequest,
    sresp: SignResponse,
    vreq: VerifyRequest,
    vresp: (u16, VerifyResponse),
)
    requires
        sign_accepted(sreq),
        sign_signed(sreq, sresp),
        sresp.data matches Some(d) && vreq.message@ == sreq.message@
            && vreq.signature@ == d.signature@ && vreq.pubkey@ == d.public_key@,
    ensures
        verify_accepted(vreq),
        verify_reported(vreq, vresp) ==> (vresp.1.data matches Some(vd) && vd.valid),
{
}

} // verus!
