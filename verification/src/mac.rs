//! The two primitives a signature is made of: the HMAC-SHA256 tag of a
//! message and the Base64 text of a byte string. Both are computed by outside
//! crates; this module gives each a name that contracts can speak of.

use base64::Engine;
use hmac::Mac;
use vstd::prelude::*;

verus! {

/// The HMAC-SHA256 tag of `message` under `key` (RFC 2104 over SHA-256).
pub uninterp spec fn hmac_sha256_tag(key: Seq<u8>, message: Seq<u8>) -> Seq<u8>;

/// The Base64 text of `bytes`: standard alphabet, padded with `=`
/// (RFC 4648, section 4).
pub uninterp spec fn base64_text(bytes: Seq<u8>) -> Seq<char>;

/// A character of the standard Base64 alphabet, or the padding character.
pub open spec fn is_base64_char(c: char) -> bool {
    ||| 'A' <= c <= 'Z'
    ||| 'a' <= c <= 'z'
    ||| '0' <= c <= '9'
    ||| c == '+'
    ||| c == '/'
    ||| c == '='
}

/// Length of the padded Base64 text of `len` bytes.
pub open spec fn base64_len(len: nat) -> nat {
    4 * ((len + 2) / 3)
}

/// Trusted: `hmac::Hmac::<sha2::Sha256>`, keyed with `new_from_slice`, fed
/// with `update` and read with `finalize().into_bytes()`.
///
/// The contract names the tag and says that it is 32 bytes long, the output
/// size of SHA-256. `new_from_slice` returns `Ok` for a key of any length
/// (a longer key is hashed, a shorter one padded), so the call cannot fail.
#[verifier::external_body]
pub(crate) fn hmac_sha256(key: &[u8], message: &[u8]) -> (tag: Vec<u8>)
    ensures
        tag@ == hmac_sha256_tag(key@, message@),
        tag@.len() == 32,
{
    let mut mac = hmac::Hmac::<sha2::Sha256>::new_from_slice(key)
        .expect("HMAC accepts a key of any length");
    mac.update(message);
    mac.finalize().into_bytes().to_vec()
}

/// Trusted: `base64::engine::general_purpose::STANDARD.encode`.
///
/// The contract names the text and says that it is made of characters of the
/// standard alphabet and `=` only, four for every three bytes begun. The
/// outside function panics when that length does not fit in `usize`; such
/// inputs are left out.
#[verifier::external_body]
pub(crate) fn base64_encode(bytes: &[u8]) -> (text: String)
    requires
        base64_len(bytes@.len()) <= usize::MAX,
    ensures
        text@ == base64_text(bytes@),
        text@.len() == base64_len(bytes@.len()),
        forall|i: int| 0 <= i < text@.len() ==> is_base64_char(#[trigger] text@[i]),
{
    base64::engine::general_purpose::STANDARD.encode(bytes)
}

} // verus!
