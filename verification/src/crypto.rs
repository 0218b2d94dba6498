//! The one outside call of the engine: signature verification.
use vstd::prelude::*;
use p256::ecdsa::signature::Verifier;
use p256::elliptic_curve::pkcs8::DecodePublicKey;

verus! {

/// Whether `sig` is a valid signature over `msg` under the public key
/// `spki`, as the verifier below judges it. Signature verification is a
/// pure function of these three byte strings; its definition is the
/// outside verifier's and is not restated here.
pub uninterp spec fn sig_verifies(spki: Seq<u8>, msg: Seq<u8>, sig: Seq<u8>) -> bool;

/// Relies on p256::ecdsa::VerifyingKey::verify (ECDSA P-256 with SHA-256):
/// deterministic in the key, message and signature. `spki` is a DER
/// subject-public-key-info, `sig` a DER ECDSA signature. A key or signature
/// that does not decode, or any other algorithm, verifies as false.
#[verifier::external_body]
pub(crate) fn verify_signature(spki: &Vec<u8>, msg: &Vec<u8>, sig: &Vec<u8>) -> (r: bool)
    ensures
        r == sig_verifies(spki@, msg@, sig@),
{
    match (
        p256::ecdsa::VerifyingKey::from_public_key_der(spki.as_slice()),
        p256::ecdsa::DerSignature::from_bytes(sig.as_slice()),
    ) {
        (Ok(key), Ok(der_sig)) => key.verify(msg.as_slice(), &der_sig).is_ok(),
        _ => false,
    }
}

} // verus!
