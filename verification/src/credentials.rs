//! The three secrets of an API key, and the signature made with them.

use crate::mac::base64_encode;
use crate::mac::base64_text;
use crate::mac::hmac_sha256;
use crate::mac::hmac_sha256_tag;
use crate::mac::is_base64_char;
use crate::method::Method;
use crate::text::opt_text;
use crate::text::text_or_empty;
use vstd::prelude::*;
use vstd::string::StringExecFns;
use vstd::utf8::encode_utf8;

verus! {

/// The text that is signed: timestamp, method token, path with query, and
/// the JSON text of the body, with nothing between them. A request without
/// a body adds nothing.
pub open spec fn canonical_message(
    timestamp: Seq<char>,
    method: Method,
    path: Seq<char>,
    body: Option<Seq<char>>,
) -> Seq<char> {
    timestamp + method.token() + path + text_or_empty(body)
}

/// The signature of `message` under `secret_key`: the Base64 text of the
/// HMAC-SHA256 tag of the message's UTF-8 bytes, keyed with the secret's
/// UTF-8 bytes.
pub open spec fn signature_of(secret_key: Seq<char>, message: Seq<char>) -> Seq<char> {
    base64_text(hmac_sha256_tag(encode_utf8(secret_key), encode_utf8(message)))
}

/// A request without a body signs its timestamp, its method token and its
/// path, with nothing between them and nothing after them. For a `GET` the
/// token is `GET`.
pub proof fn lemma_message_without_body(timestamp: Seq<char>, method: Method, path: Seq<char>)
    ensures
        canonical_message(timestamp, method, path, None) == timestamp + method.token() + path,
        canonical_message(timestamp, method, path, None).len() == timestamp.len()
            + method.token().len() + path.len(),
        canonical_message(timestamp, Method::Get, path, None) == timestamp + seq!['G', 'E', 'T']
            + path,
{
    reveal_strlit("GET");
}

/// Signing has no state: the same secret key, method, timestamp, path and
/// body give the same signature, whenever and however often they are
/// signed.
pub proof fn lemma_signature_is_deterministic(
    secret_key: Seq<char>,
    method: Method,
    timestamp: Seq<char>,
    path: Seq<char>,
    body: Option<Seq<char>>,
    again_secret_key: Seq<char>,
    again_method: Method,
    again_timestamp: Seq<char>,
    again_path: Seq<char>,
    again_body: Option<Seq<char>>,
)
    requires
        secret_key == again_secret_key,
        method == again_method,
        timestamp == again_timestamp,
        path == again_path,
        body == again_body,
    ensures
        signature_of(secret_key, canonical_message(timestamp, method, path, body)) == signature_of(
            again_secret_key,
            canonical_message(again_timestamp, again_method, again_path, again_body),
        ),
{
}

/// Two texts that differ still differ when the same text is put before
/// both and the same text after both.
pub proof fn lemma_differs_in_the_middle(
    before: Seq<char>,
    one: Seq<char>,
    other: Seq<char>,
    after: Seq<char>,
)
    requires
        one != other,
    ensures
        before + one + after != before + other + after,
{
    let left = before + one + after;
    let right = before + other + after;
    if left == right {
        assert(left.len() == before.len() + one.len() + after.len());
        assert(right.len() == before.len() + other.len() + after.len());
        assert forall|i: int| 0 <= i < one.len() implies one[i] == other[i] by {
            assert(left[before.len() + i] == one[i]);
            assert(right[before.len() + i] == other[i]);
        }
        assert(one =~= other);
    }
}

/// A change of the timestamp, of the method, of the path or of the text of
/// the body alone changes the text that is signed.
pub proof fn lemma_message_changes_with_each_part(
    timestamp: Seq<char>,
    method: Method,
    path: Seq<char>,
    body: Option<Seq<char>>,
    other_timestamp: Seq<char>,
    other_method: Method,
    other_path: Seq<char>,
    other_body: Option<Seq<char>>,
)
    ensures
        timestamp != other_timestamp ==> canonical_message(timestamp, method, path, body)
            != canonical_message(other_timestamp, method, path, body),
        method != other_method ==> canonical_message(timestamp, method, path, body)
            != canonical_message(timestamp, other_method, path, body),
        path != other_path ==> canonical_message(timestamp, method, path, body)
            != canonical_message(timestamp, method, other_path, body),
        text_or_empty(body) != text_or_empty(other_body) ==> canonical_message(
            timestamp,
            method,
            path,
            body,
        ) != canonical_message(timestamp, method, path, other_body),
{
    let nothing = Seq::<char>::empty();
    let token = method.token();
    let text = text_or_empty(body);
    if timestamp != other_timestamp {
        lemma_differs_in_the_middle(nothing, timestamp, other_timestamp, token + path + text);
        assert(nothing + timestamp + (token + path + text) =~= timestamp + token + path + text);
        assert(nothing + other_timestamp + (token + path + text) =~= other_timestamp + token + path
            + text);
    }
    if method != other_method {
        reveal_strlit("GET");
        reveal_strlit("POST");
        lemma_differs_in_the_middle(timestamp, token, other_method.token(), path + text);
    }
    if path != other_path {
        lemma_differs_in_the_middle(timestamp + token, path, other_path, text);
    }
    if text != text_or_empty(other_body) {
        let other_text = text_or_empty(other_body);
        lemma_differs_in_the_middle(timestamp + token + path, text, other_text, nothing);
    }
}

/// The text to sign for one request.
pub fn canonical_request(
    timestamp: &str,
    method: Method,
    path: &str,
    body: Option<&str>,
) -> (message: String)
    ensures
        message@ == canonical_message(timestamp@, method, path@, opt_text(body)),
        body is None ==> message@ == timestamp@ + method.token() + path@,
{
    let mut message = String::from_str(timestamp);
    message.append(method.as_str());
    message.append(path);
    if let Some(json) = body {
        message.append(json);
    }
    message
}

/// API key, secret key and passphrase. They do not change once set.
pub struct Credentials {
    secret_key: String,
    api_key: String,
    password: String,
}

impl Credentials {
    /// The secret key, which keys the MAC.
    pub closed spec fn secret_key(&self) -> Seq<char> {
        self.secret_key@
    }

    /// The API key, which is sent with every request.
    pub closed spec fn api_key(&self) -> Seq<char> {
        self.api_key@
    }

    /// The passphrase, which is sent with every request.
    pub closed spec fn passphrase(&self) -> Seq<char> {
        self.password@
    }

    pub fn new(secret_key: String, api_key: String, password: String) -> (credentials: Self)
        ensures
            credentials.secret_key() == secret_key@,
            credentials.api_key() == api_key@,
            credentials.passphrase() == password@,
    {
        Self { secret_key, api_key, password }
    }

    /// The API key as text.
    pub(crate) fn api_key_str(&self) -> (key: &str)
        ensures
            key@ == self.api_key(),
    {
        self.api_key.as_str()
    }

    /// The passphrase as text.
    pub(crate) fn passphrase_str(&self) -> (passphrase: &str)
        ensures
            passphrase@ == self.passphrase(),
    {
        self.password.as_str()
    }

    /// Signs one request: the signature of its canonical message under the
    /// secret key, 44 characters of Base64. Equal arguments give equal
    /// signatures.
    pub fn get_signature(
        &self,
        method: Method,
        timestamp: &str,
        path: &str,
        body: Option<&str>,
    ) -> (signature: String)
        ensures
            signature@ == signature_of(
                self.secret_key(),
                canonical_message(timestamp@, method, path@, opt_text(body)),
            ),
            signature@.len() == 44,
            forall|i: int| 0 <= i < signature@.len() ==> is_base64_char(#[trigger] signature@[i]),
    {
        let message = canonical_request(timestamp, method, path, body);
        let tag = hmac_sha256(self.secret_key.as_str().as_bytes(), message.as_str().as_bytes());
        base64_encode(tag.as_slice())
    }
}

} // verus!
