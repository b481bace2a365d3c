//! Fresh keypair generation: a new random keypair, both halves returned in
//! base58 form.

use crate::bytes::bytes_range;
use crate::common::SuccessResponse;
use crate::sdk::{
    b58_decode_of, b58_of, encode_base58, keypair_parses, pubkey_decode, random_keypair_bytes,
};
use vstd::prelude::*;

verus! {

/// A freshly generated keypair: the base58 public key and the base58 form
/// of the full 64 serialized keypair bytes.
pub struct KeypairResponse {
    pub pubkey: String,
    pub secret: String,
}

/// Whether `data` encodes the serialized keypair `kp`: 64 bytes that parse
/// back as a keypair, whose base58 form is the secret and whose public
/// half's base58 form is the pubkey, each field decoding back to its bytes.
pub open spec fn keypair_matches(kp: Seq<u8>, data: KeypairResponse) -> bool {
    &&& kp.len() == 64
    &&& keypair_parses(kp)
    &&& data.pubkey@ == b58_of(kp.subrange(32, 64))
    &&& data.secret@ == b58_of(kp)
    &&& pubkey_decode(data.pubkey@) == Some(kp.subrange(32, 64))
    &&& b58_decode_of(data.secret@) == Some(kp)
    &&& data.secret@.len() > 0
}

/// The generated response: a success envelope around the encodings of some
/// serialized keypair that parses back.
pub open spec fn keypair_generated(r: SuccessResponse<KeypairResponse>) -> bool {
    &&& r.success
    &&& exists|kp: Seq<u8>| #[trigger] keypair_matches(kp, r.data)
}

/// The response fields for a keypair serialized as 64 bytes: the public key
/// is the base58 form of the second half, the secret the base58 form of the
/// whole, and both decode back.
pub fn keypair_response_from_bytes(kp: &Vec<u8>) -> (r: KeypairResponse)
    requires
        kp@.len() == 64,
    ensures
        r.pubkey@ == b58_of(kp@.subrange(32, 64)),
        r.secret@ == b58_of(kp@),
        pubkey_decode(r.pubkey@) == Some(kp@.subrange(32, 64)),
        b58_decode_of(r.secret@) == Some(kp@),
        r.secret@.len() > 0,
{
    let public_half = bytes_range(kp, 32, 64);
    KeypairResponse { pubkey: encode_base58(&public_half), secret: encode_base58(kp) }
}

/// Generates a fresh random keypair and returns both halves encoded: some
/// 64 keypair bytes exist, accepted again as a keypair, of which the
/// response shows the base58 forms.
pub fn generate_keypair() -> (r: SuccessResponse<KeypairResponse>)
    ensures
        keypair_generated(r),
{
    let kp = random_keypair_bytes();
    let data = keypair_response_from_bytes(&kp);
    let r = SuccessResponse { success: true, data };
    proof {
        assert(keypair_matches(kp@, r.data));
    }
    r
}

} // verus!
