//! Message signing: a base58 secret keypair and a message in, the base64
//! ed25519 signature and the base58 public key out.

use crate::bytes::bytes_range;
use crate::common::SuccessResponse;
use crate::generate_keypair::{keypair_generated, keypair_matches, KeypairResponse};
use crate::sdk::{b58_decode_of, b58_of, b64_decode_of, b64_of, decode_base58, ed25519_sig_of,
    ed25519_verifies, encode_base58, encode_base64, keypair_parses, pubkey_decode,
    sign_with_secret};
use vstd::prelude::*;
use vstd::utf8::encode_utf8;

verus! {

/// A request to sign a message with the given serialized keypair.
pub struct SignRequest {
    pub message: String,
    pub secret: String,
}

/// The response envelope for `sign_message`: on success `data` is filled,
/// on failure `error` is.
pub struct SignResponse {
    pub success: bool,
    pub data: Option<SignData>,
    pub error: Option<String>,
}

/// A produced signature: its base64 form, the base58 public key that
/// verifies it, and the signed message echoed back.
pub struct SignData {
    pub signature: String,
    pub public_key: String,
    pub message: String,
}

/// Whether the request leaves a required field empty.
pub open spec fn sign_missing_fields(req: SignRequest) -> bool {
    req.message@.len() == 0 || req.secret@.len() == 0
}

/// Whether the request passes every check: both fields are present, the
/// secret decodes from base58, and the decoded bytes form a keypair.
pub open spec fn sign_accepted(req: SignRequest) -> bool {
    &&& !sign_missing_fields(req)
    &&& b58_decode_of(req.secret@) is Some
    &&& keypair_parses(b58_decode_of(req.secret@)->Some_0)
}

/// The failure shape: no payload and the error message.
pub open spec fn sign_rejection(r: SignResponse, msg: Seq<char>) -> bool {
    &&& !r.success
    &&& r.data is None
    &&& r.error matches Some(e) && e@ == msg
}

/// The success shape: the base64 ed25519 signature of the message's bytes
/// under the decoded keypair, the base58 public half of those keypair
/// bytes, and the message echoed back.  Both encoded fields decode back,
/// and the 64-byte signature verifies under the public half.
pub open spec fn sign_signed(req: SignRequest, r: SignResponse) -> bool {
    &&& r.success
    &&& r.error is None
    &&& r.data matches Some(d) && {
        let kp = b58_decode_of(req.secret@)->Some_0;
        let sig = ed25519_sig_of(kp, encode_utf8(req.message@));
        &&& d.signature@ == b64_of(sig)
        &&& d.public_key@ == b58_of(kp.subrange(32, 64))
        &&& d.message@ == req.message@
        &&& b64_decode_of(d.signature@) == Some(sig)
        &&& sig.len() == 64
        &&& pubkey_decode(d.public_key@) == Some(kp.subrange(32, 64))
        &&& ed25519_verifies(kp.subrange(32, 64), encode_utf8(req.message@), sig)
    }
}

fn sign_failure(msg: &str) -> (r: SignResponse)
    ensures
        sign_rejection(r, msg@),
{
    SignResponse { success: false, data: None, error: Some(msg.to_owned()) }
}

/// Signs a message with the keypair serialized in the request's base58
/// secret.  The response succeeds exactly on accepted requests; each
/// rejected request carries the message of the first check it fails.
pub fn sign_message(req: &SignRequest) -> (r: SignResponse)
    ensures
        r.success == sign_accepted(*req),
        sign_accepted(*req) ==> sign_signed(*req, r),
        sign_missing_fields(*req) ==> sign_rejection(r, "Missing required fields"@),
        !sign_missing_fields(*req) && b58_decode_of(req.secret@) is None ==> sign_rejection(
            r,
            "Invalid base58 secret key"@,
        ),
        !sign_missing_fields(*req) && b58_decode_of(req.secret@) is Some && !keypair_parses(
            b58_decode_of(req.secret@)->Some_0,
        ) ==> sign_rejection(r, "Invalid secret key format"@),
{
    if req.message.as_str().is_empty() || req.secret.as_str().is_empty() {
        return sign_failure("Missing required fields");
    }
    let secret_bytes = match decode_base58(req.secret.as_str()) {
        Some(b) => b,
        None => {
            return sign_failure("Invalid base58 secret key");
        },
    };
    let signature = match sign_with_secret(&secret_bytes, req.message.as_str()) {
        Some(s) => s,
        None => {
            return sign_failure("Invalid secret key format");
        },
    };
    let public_half = bytes_range(&secret_bytes, 32, 64);
    SignResponse {
        success: true,
        data: Some(
            SignData {
                signature: encode_base64(&signature),
                public_key: encode_base58(&public_half),
                message: req.message.clone(),
            },
        ),
        error: None,
    }
}

/// A freshly generated keypair signs: a sign request whose secret is the
/// secret of a generated keypair and whose message is nonempty is
/// accepted, and a response meeting `sign_message`'s success shape reports
/// the generated public key.
pub proof fn lemma_generated_secret_signs(
    kr: SuccessResponse<KeypairResponse>,
    sreq: SignRequest,
    sresp: SignResponse,
)
    requires
        keypair_generated(kr),
        sreq.message@.len() > 0,
        sreq.secret@ == kr.data.secret@,
    ensures
        sign_accepted(sreq),
        sign_signed(sreq, sresp) ==> (sresp.data matches Some(d)
            && d.public_key@ == kr.data.pubkey@),
{
    let kp = choose|kp: Seq<u8>| #[trigger] keypair_matches(kp, kr.data);
    assert(b58_decode_of(sreq.secret@) == Some(kp));
}

} // verus!
