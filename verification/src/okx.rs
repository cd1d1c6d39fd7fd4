//! The client: credentials, and the construction of signed requests.

use crate::clock::is_utc_timestamp;
use crate::clock::utc_timestamp;
use crate::constants::ACCESS_KEY_HEADER;
use crate::constants::ACCESS_PASSPHRASE_HEADER;
use crate::constants::ACCESS_SIGN_HEADER;
use crate::constants::ACCESS_TIMESTAMP_HEADER;
use crate::constants::CONTENT_TYPE_HEADER;
use crate::constants::JSON_CONTENT_TYPE;
use crate::constants::OKX_BASE_DOMAIN_URL;
use crate::credentials::canonical_message;
use crate::credentials::signature_of;
use crate::credentials::Credentials;
use crate::endpoints::ApiCall;
use crate::error::OkxError;
use crate::error::OkxErrorView;
use crate::headers::header_fields;
use crate::headers::header_map_insert;
use crate::headers::header_map_with_capacity;
use crate::headers::is_header_name;
use crate::headers::is_header_value;
use crate::headers::lower_case;
use crate::headers::HeaderFields;
use crate::method::Method;
use crate::text::opt_text;
use crate::text::text_pairs;
use crate::url::lemma_pairs_len_grows;
use crate::url::pairs_len;
use crate::url::path_and_query;
use crate::url::parse_url;
use crate::url::parse_url_with_params;
use crate::url::parsed_url;
use crate::url::parsed_url_with_params;
use crate::url::RequestUrl;
use crate::url::UrlParts;
use crate::url::MAX_URL_INPUT;
use vstd::prelude::*;
use vstd::string::StringExecFns;
use vstd::utf8::encode_utf8;

verus! {

/// The query parameters of a request as text, in their order.
pub open spec fn params_text(params: Option<Vec<(String, String)>>) -> Option<
    Seq<(Seq<char>, Seq<char>)>,
> {
    match params {
        Some(pairs) => Some(text_pairs(pairs@)),
        None => None,
    }
}

/// The bytes that the base URL, `path` and `params` come to.
pub open spec fn url_input_len(
    path: Seq<char>,
    params: Option<Seq<(Seq<char>, Seq<char>)>>,
) -> nat {
    encode_utf8(OKX_BASE_DOMAIN_URL@ + path).len() + match params {
        Some(pairs) => pairs_len(pairs),
        None => 0,
    }
}

/// The URL of the endpoint at `path` with `params` as its query: the base
/// URL followed by `path` is parsed, and the pairs are appended to the query
/// in their order. An error where base URL, path and pairs are longer than
/// `MAX_URL_INPUT`, and where base URL and path are not an absolute URL.
pub open spec fn endpoint_url(
    path: Seq<char>,
    params: Option<Seq<(Seq<char>, Seq<char>)>>,
) -> Result<UrlParts, OkxErrorView> {
    let parsed = match params {
        Some(pairs) => parsed_url_with_params(OKX_BASE_DOMAIN_URL@ + path, pairs),
        None => parsed_url(OKX_BASE_DOMAIN_URL@ + path),
    };
    if url_input_len(path, params) > MAX_URL_INPUT {
        Err(OkxErrorView::UrlTooLong)
    } else {
        match parsed {
            Some(url) => Ok(url),
            None => Err(OkxErrorView::InvalidUrl),
        }
    }
}

/// The four authentication headers of a request signed at `timestamp`: API
/// key, passphrase, signature of the canonical message, and the timestamp
/// that the signature was computed over.
pub open spec fn auth_fields(
    credentials: Credentials,
    method: Method,
    timestamp: Seq<char>,
    path: Seq<char>,
    body: Option<Seq<char>>,
) -> HeaderFields {
    HeaderFields::empty().insert(lower_case(ACCESS_KEY_HEADER@), credentials.api_key()).insert(
        lower_case(ACCESS_PASSPHRASE_HEADER@),
        credentials.passphrase(),
    ).insert(
        lower_case(ACCESS_SIGN_HEADER@),
        signature_of(credentials.secret_key(), canonical_message(timestamp, method, path, body)),
    ).insert(lower_case(ACCESS_TIMESTAMP_HEADER@), timestamp)
}

/// Whether API key and passphrase can be sent as header values.
pub open spec fn fit_headers(credentials: Credentials) -> bool {
    is_header_value(credentials.api_key()) && is_header_value(credentials.passphrase())
}

/// The names of the four authentication headers are header names.
pub proof fn lemma_auth_header_names()
    ensures
        is_header_name(ACCESS_KEY_HEADER@),
        is_header_name(ACCESS_PASSPHRASE_HEADER@),
        is_header_name(ACCESS_SIGN_HEADER@),
        is_header_name(ACCESS_TIMESTAMP_HEADER@),
{
    reveal_strlit("OK-ACCESS-KEY");
    reveal_strlit("OK-ACCESS-PASSPHRASE");
    reveal_strlit("OK-ACCESS-SIGN");
    reveal_strlit("OK-ACCESS-TIMESTAMP");
}

/// The names under which the headers of a request stand in a header map.
pub proof fn lemma_header_names_in_lower_case()
    ensures
        lower_case(CONTENT_TYPE_HEADER@) == CONTENT_TYPE_HEADER@,
        lower_case(ACCESS_KEY_HEADER@) == "ok-access-key"@,
        lower_case(ACCESS_PASSPHRASE_HEADER@) == "ok-access-passphrase"@,
        lower_case(ACCESS_SIGN_HEADER@) == "ok-access-sign"@,
        lower_case(ACCESS_TIMESTAMP_HEADER@) == "ok-access-timestamp"@,
{
    reveal_strlit("OK-ACCESS-KEY");
    reveal_strlit("OK-ACCESS-PASSPHRASE");
    reveal_strlit("OK-ACCESS-SIGN");
    reveal_strlit("OK-ACCESS-TIMESTAMP");
    reveal_strlit("ok-access-key");
    reveal_strlit("ok-access-passphrase");
    reveal_strlit("ok-access-sign");
    reveal_strlit("ok-access-timestamp");
    reveal_strlit("content-type");
}

/// A signed request carries exactly four authentication headers: the API
/// key, the passphrase, the signature, and the timestamp. The timestamp in
/// its header is the very text that stands in the signed message.
pub proof fn lemma_auth_fields(
    credentials: Credentials,
    method: Method,
    timestamp: Seq<char>,
    path: Seq<char>,
    body: Option<Seq<char>>,
)
    ensures
        ({
            let fields = auth_fields(credentials, method, timestamp, path, body);
            &&& fields.dom() =~= set![
                "ok-access-key"@,
                "ok-access-passphrase"@,
                "ok-access-sign"@,
                "ok-access-timestamp"@,
            ]
            &&& fields["ok-access-key"@] == credentials.api_key()
            &&& fields["ok-access-passphrase"@] == credentials.passphrase()
            &&& fields["ok-access-sign"@] == signature_of(
                credentials.secret_key(),
                canonical_message(fields["ok-access-timestamp"@], method, path, body),
            )
            &&& fields["ok-access-timestamp"@] == timestamp
        }),
{
    lemma_header_names_in_lower_case();
    reveal_strlit("ok-access-key");
    reveal_strlit("ok-access-passphrase");
    reveal_strlit("ok-access-sign");
    reveal_strlit("ok-access-timestamp");
    assert("ok-access-key"@[10] != "ok-access-passphrase"@[10]);
    assert("ok-access-key"@[10] != "ok-access-sign"@[10]);
    assert("ok-access-key"@[10] != "ok-access-timestamp"@[10]);
    assert("ok-access-passphrase"@[10] != "ok-access-sign"@[10]);
    assert("ok-access-passphrase"@[10] != "ok-access-timestamp"@[10]);
    assert("ok-access-sign"@[10] != "ok-access-timestamp"@[10]);
}

/// A timestamp in the shape the clock gives can be sent as a header value.
pub proof fn lemma_timestamp_fits_header(timestamp: Seq<char>)
    requires
        is_utc_timestamp(timestamp),
    ensures
        is_header_value(timestamp),
{
    let split = timestamp.len() - 20;
    let year = timestamp.subrange(0, split);
    assert forall|i: int| 0 <= i < timestamp.len() implies crate::headers::is_header_value_char(
        #[trigger] timestamp[i],
    ) by {
        if i < split {
            assert(timestamp[i] == year[i]);
        }
    }
}

/// The headers of a request signed at `timestamp`: the four authentication
/// headers, and the JSON content type where the request has a body.
pub open spec fn request_fields(
    credentials: Credentials,
    method: Method,
    timestamp: Seq<char>,
    path: Seq<char>,
    body: Option<Seq<char>>,
) -> HeaderFields {
    let auth = auth_fields(credentials, method, timestamp, path, body);
    if body is Some {
        auth.insert(lower_case(CONTENT_TYPE_HEADER@), JSON_CONTENT_TYPE@)
    } else {
        auth
    }
}

/// A request ready to be sent: everything the transport needs, and nothing
/// that it has to compute.
pub struct PreparedRequest {
    pub method: Method,
    pub url: RequestUrl,
    /// All headers of the request.
    pub headers: reqwest::header::HeaderMap<reqwest::header::HeaderValue>,
    /// The body as it was signed, to be sent as it stands.
    pub body: Option<String>,
}

/// Whether `request` is the call of `method` to `url` with `body`, signed
/// at `timestamp` with `credentials`: the signature covers the path and
/// query of that URL and that body, and the timestamp header holds the
/// timestamp that was signed.
pub open spec fn signed_at(
    request: PreparedRequest,
    credentials: Credentials,
    timestamp: Seq<char>,
    method: Method,
    url: UrlParts,
    body: Option<Seq<char>>,
) -> bool {
    &&& request.method == method
    &&& request.url@ == url
    &&& header_fields(request.headers) == request_fields(
        credentials,
        method,
        timestamp,
        path_and_query(url),
        body,
    )
    &&& match request.body {
        Some(json) => body == Some(json@),
        None => body is None,
    }
}

/// A client of the private API, holding the credentials of one API key.
pub struct Okx {
    credentials: Credentials,
}

impl Okx {
    /// The credentials requests are signed with.
    pub closed spec fn credentials(&self) -> Credentials {
        self.credentials
    }

    pub fn new(secret_key: String, api_key: String, password: String) -> (okx: Self)
        ensures
            okx.credentials().secret_key() == secret_key@,
            okx.credentials().api_key() == api_key@,
            okx.credentials().passphrase() == password@,
    {
        Self { credentials: Credentials::new(secret_key, api_key, password) }
    }

    /// Whether `input` and `params` together are short enough to be made
    /// into a URL.
    fn fits_url(input: &str, params: &Option<Vec<(String, String)>>) -> (fits: bool)
        ensures
            fits == (encode_utf8(input@).len() + match params_text(*params) {
                Some(pairs) => pairs_len(pairs),
                None => 0,
            } <= MAX_URL_INPUT),
    {
        let mut total: usize = input.as_bytes().len();
        if total > MAX_URL_INPUT {
            return false;
        }
        let list = match params {
            Some(list) => list,
            None => {
                return true;
            },
        };
        let ghost pairs = text_pairs(list@);
        let mut i: usize = 0;
        while i < list.len()
            invariant
                i <= list@.len(),
                pairs == text_pairs(list@),
                params_text(*params) == Some(pairs),
                total == encode_utf8(input@).len() + pairs_len(pairs.take(i as int)),
                total <= MAX_URL_INPUT,
            decreases list@.len() - i,
        {
            proof {
                assert(pairs.take(i + 1).drop_last() =~= pairs.take(i as int));
                lemma_pairs_len_grows(pairs, i + 1);
            }
            let name = list[i].0.as_str().as_bytes().len();
            let value = list[i].1.as_str().as_bytes().len();
            if name > MAX_URL_INPUT - total {
                return false;
            }
            total += name;
            if value > MAX_URL_INPUT - total {
                return false;
            }
            total += value;
            if 2 > MAX_URL_INPUT - total {
                return false;
            }
            total += 2;
            i += 1;
        }
        assert(pairs.take(i as int) =~= pairs);
        true
    }

    /// The URL of the endpoint at `path`, with `params` as its query where
    /// they are given. Fails where base URL, path and parameters are longer
    /// than `MAX_URL_INPUT`, and else where the base URL followed by `path`
    /// is not an absolute URL.
    pub fn build_url(
        path: &str,
        params: Option<Vec<(String, String)>>,
    ) -> (url: Result<RequestUrl, OkxError>)
        ensures
            match endpoint_url(path@, params_text(params)) {
                Ok(parts) => url matches Ok(u) && u@ == parts,
                Err(error) => url matches Err(e) && e@ == error,
            },
    {
        let mut base_url = String::from_str(OKX_BASE_DOMAIN_URL);
        base_url.append(path);
        if !Self::fits_url(base_url.as_str(), &params) {
            return Err(OkxError::UrlTooLong);
        }
        let parsed = match &params {
            Some(pairs) => parse_url_with_params(base_url.as_str(), pairs),
            None => parse_url(base_url.as_str()),
        };
        match parsed {
            Some(url) => Ok(url),
            None => Err(OkxError::InvalidUrl),
        }
    }

    /// The authentication headers of a request signed at `timestamp`. Fails
    /// exactly where the API key, the passphrase or the timestamp holds a
    /// control character other than the tab.
    pub fn auth_headers_at(
        &self,
        method: Method,
        timestamp: &str,
        path: &str,
        body: Option<&str>,
    ) -> (headers: Result<reqwest::header::HeaderMap<reqwest::header::HeaderValue>, OkxError>)
        ensures
            headers is Ok <==> fit_headers(self.credentials()) && is_header_value(timestamp@),
            match headers {
                Ok(h) => header_fields(h) == auth_fields(
                    self.credentials(),
                    method,
                    timestamp@,
                    path@,
                    opt_text(body),
                ),
                Err(e) => e is InvalidHeaderValue,
            },
    {
        let signature = self.credentials.get_signature(method, timestamp, path, body);
        proof {
            lemma_auth_header_names();
        }
        let mut headers = header_map_with_capacity(4);
        if !header_map_insert(&mut headers, ACCESS_KEY_HEADER, self.credentials.api_key_str()) {
            return Err(OkxError::InvalidHeaderValue);
        }
        let passphrase = self.credentials.passphrase_str();
        if !header_map_insert(&mut headers, ACCESS_PASSPHRASE_HEADER, passphrase) {
            return Err(OkxError::InvalidHeaderValue);
        }
        let signed = header_map_insert(&mut headers, ACCESS_SIGN_HEADER, signature.as_str());
        assert(signed);
        if !header_map_insert(&mut headers, ACCESS_TIMESTAMP_HEADER, timestamp) {
            return Err(OkxError::InvalidHeaderValue);
        }
        Ok(headers)
    }

    /// The authentication headers of a request signed now. The timestamp is
    /// read from the clock; it stands in the timestamp header and in the
    /// signed message alike. Fails exactly where the API key or the
    /// passphrase holds a control character other than the tab.
    pub fn get_auth_headers(
        &self,
        method: Method,
        path: &str,
        body: Option<&str>,
    ) -> (headers: Result<reqwest::header::HeaderMap<reqwest::header::HeaderValue>, OkxError>)
        ensures
            headers is Ok <==> fit_headers(self.credentials()),
            match headers {
                Ok(h) => exists|timestamp: Seq<char>|
                    is_utc_timestamp(timestamp) && header_fields(h) == #[trigger] auth_fields(
                        self.credentials(),
                        method,
                        timestamp,
                        path@,
                        opt_text(body),
                    ),
                Err(e) => e is InvalidHeaderValue,
            },
    {
        let timestamp = utc_timestamp();
        proof {
            lemma_timestamp_fits_header(timestamp@);
        }
        self.auth_headers_at(method, timestamp.as_str(), path, body)
    }

    /// The request for `call`, signed at `timestamp`. Fails where the URL
    /// cannot be built, and else where the API key, the passphrase or the
    /// timestamp holds a control character other than the tab.
    pub fn prepare_request_at(
        &self,
        timestamp: &str,
        call: ApiCall,
    ) -> (request: Result<PreparedRequest, OkxError>)
        ensures
            match endpoint_url(call@.path, call@.params) {
                Ok(url) => if fit_headers(self.credentials()) && is_header_value(timestamp@) {
                    request matches Ok(r) && signed_at(
                        r,
                        self.credentials(),
                        timestamp@,
                        call@.method,
                        url,
                        call@.body,
                    )
                } else {
                    request matches Err(e) && e is InvalidHeaderValue
                },
                Err(error) => request matches Err(e) && e@ == error,
            },
    {
        let ApiCall { path, params, method, body } = call;
        let url = match Self::build_url(path, params) {
            Ok(url) => url,
            Err(e) => {
                return Err(e);
            },
        };
        let path_and_params = Self::extract_path_and_params(&url);
        let signed_body = match &body {
            Some(json) => Some(json.as_str()),
            None => None,
        };
        let signed_path = path_and_params.as_str();
        let mut headers = match self.auth_headers_at(method, timestamp, signed_path, signed_body) {
            Ok(headers) => headers,
            Err(e) => {
                return Err(e);
            },
        };
        if body.is_some() {
            proof {
                reveal_strlit("content-type");
                reveal_strlit("application/json");
            }
            let accepted = header_map_insert(&mut headers, CONTENT_TYPE_HEADER, JSON_CONTENT_TYPE);
            assert(accepted);
        }
        Ok(PreparedRequest { method, url, headers, body })
    }

    /// The request for `call`, signed now. Fails where the URL cannot be
    /// built, and else where the API key or the passphrase holds a control
    /// character other than the tab.
    pub fn prepare_request(&self, call: ApiCall) -> (request: Result<PreparedRequest, OkxError>)
        ensures
            match endpoint_url(call@.path, call@.params) {
                Ok(url) => if fit_headers(self.credentials()) {
                    request matches Ok(r) && exists|timestamp: Seq<char>|
                        is_utc_timestamp(timestamp) && #[trigger] signed_at(
                            r,
                            self.credentials(),
                            timestamp,
                            call@.method,
                            url,
                            call@.body,
                        )
                } else {
                    request matches Err(e) && e is InvalidHeaderValue
                },
                Err(error) => request matches Err(e) && e@ == error,
            },
    {
        let timestamp = utc_timestamp();
        proof {
            lemma_timestamp_fits_header(timestamp@);
        }
        self.prepare_request_at(timestamp.as_str(), call)
    }

    /// The part of `url` that is signed: its path, and `?` with the query
    /// after it where there is one.
    pub fn extract_path_and_params(url: &RequestUrl) -> (text: String)
        ensures
            text@ == crate::url::path_and_query(url@),
    {
        url.path_and_query()
    }
}

} // verus!
