//! The signature check of an incoming webhook.

use crate::text::same_text;
use crate::Shopify;
use base64::prelude::BASE64_STANDARD;
use base64::Engine;
use hmac::{Hmac, Mac};
use sha2::Sha256;
use vstd::prelude::*;

verus! {

/// The HMAC-SHA256 tag of `data` under `key`.
pub uninterp spec fn hmac_sha256(key: Seq<u8>, data: Seq<u8>) -> Seq<u8>;

/// The base64 text of `bytes`, in the standard alphabet with padding.
pub uninterp spec fn base64_standard(bytes: Seq<u8>) -> Seq<char>;

/// `Hmac<Sha256>`: keyed with `new_from_slice`, fed with `update`, read with
/// `finalize`. The keying accepts a key of any length, so there is always a
/// tag; it is the one named by [`hmac_sha256`] and, as every SHA-256
/// output, 32 bytes long.
#[verifier::external_body]
fn hmac_sha256_tag(key: &[u8], data: &[u8]) -> (res: Option<Vec<u8>>)
    ensures
        res is Some,
        res->0@ == hmac_sha256(key@, data@),
        res->0@.len() == 32,
{
    let mut mac = Hmac::<Sha256>::new_from_slice(key).ok()?;
    mac.update(data);
    Some(mac.finalize().into_bytes().to_vec())
}

/// `encode` of base64's `STANDARD` engine: the text named by
/// [`base64_standard`]. The engine gives up on inputs whose encoded length
/// overflows, which the bound keeps out.
#[verifier::external_body]
fn base64_encode(bytes: &Vec<u8>) -> (res: String)
    requires
        bytes@.len() <= 0x3000_0000,
    ensures
        res@ == base64_standard(bytes@),
{
    BASE64_STANDARD.encode(bytes)
}

/// The signature that a webhook with this body must carry when it is signed
/// with `secret`.
pub open spec fn expected_signature(secret: Seq<char>, data: Seq<u8>) -> Seq<char> {
    base64_standard(hmac_sha256(vstd::utf8::encode_utf8(secret), data))
}

impl Shopify {
    /// Whether `hmac_header` is the signature of `data` under the client's
    /// shared secret. A client without a shared secret accepts nothing.
    pub fn verify_hmac(&self, data: &[u8], hmac_header: &str) -> (res: bool)
        ensures
            res == match self@.shared_secret {
                Some(secret) => expected_signature(secret, data@) == hmac_header@,
                None => false,
            },
    {
        match self.shared_secret() {
            Some(secret) => {
                match hmac_sha256_tag(secret.as_bytes(), data) {
                    Some(tag) => {
                        let calculated_hmac = base64_encode(&tag);
                        same_text(calculated_hmac.as_str(), hmac_header)
                    },
                    None => false,
                }
            },
            None => false,
        }
    }
}

} // verus!
