//! Bearer-token authentication: from an `Authorization` header to a verified
//! identity, or to one uniform rejection.
//!
//! It runs in two halves around the one network call it needs.
//! [`begin_verification`] reads the header and the token's unverified header
//! and says which document to fetch; [`complete_verification`] takes what the
//! fetch returned, resolves the key, checks the signature and the registered
//! claims, and projects the identity.

use vstd::prelude::*;
use crate::common::text::{concat, opt_str_view, opt_string_view, strings_view};
use crate::types::{ErrorMessage, ErrorMessageView};
use super::jwt::{
    claim_members, claim_of, decode_rs256, key_set_of, keys_view, parse_key_set, read_header,
    rsa_decoding_key, unverified_header, AlgorithmParameters, AlgorithmParametersView, ClaimValue,
    ClaimValueView, Jwk, JwkView,
};

verus! {

/// The HTTP status of every rejection.
pub const UNAUTHORIZED: u16 = 401;

/// Expected audience and the issuer's host, fixed at start-up.
#[derive(Debug, Clone)]
pub struct Auth0Config {
    audience: String,
    domain: String,
}

impl Auth0Config {
    /// The expected `aud` claim.
    pub closed spec fn audience_view(&self) -> Seq<char> {
        self.audience@
    }

    /// The issuer's host.
    pub closed spec fn domain_view(&self) -> Seq<char> {
        self.domain@
    }

    pub fn new(audience: String, domain: String) -> (config: Self)
        ensures
            config.audience_view() == audience@,
            config.domain_view() == domain@,
    {
        Auth0Config { audience, domain }
    }

    pub fn audience(&self) -> (audience: &str)
        ensures
            audience@ == self.audience_view(),
    {
        self.audience.as_str()
    }

    pub fn domain(&self) -> (domain: &str)
        ensures
            domain@ == self.domain_view(),
    {
        self.domain.as_str()
    }
}

/// Why a request was turned away.
#[derive(Debug, Clone)]
pub enum ClientError {
    /// No header, another scheme than `Bearer`, or an empty token.
    MissingCredentials,
    /// The token's header segment is not base64url JSON.
    MalformedToken,
    /// No key could be named or found; the text says which.
    UnknownKey(String),
    /// The resolved key is not an RSA key; the text describes it.
    UnsupportedAlgorithm(String),
    /// The signature or a registered claim did not validate.
    InvalidSignatureOrClaims,
    /// The issuer's key set could not be fetched or read.
    UpstreamUnavailable,
}

/// Mathematical content of a [`ClientError`].
pub ghost enum ClientErrorView {
    MissingCredentials,
    MalformedToken,
    UnknownKey(Seq<char>),
    UnsupportedAlgorithm(Seq<char>),
    InvalidSignatureOrClaims,
    UpstreamUnavailable,
}

impl View for ClientError {
    type V = ClientErrorView;

    open spec fn view(&self) -> ClientErrorView {
        match *self {
            ClientError::MissingCredentials => ClientErrorView::MissingCredentials,
            ClientError::MalformedToken => ClientErrorView::MalformedToken,
            ClientError::UnknownKey(text) => ClientErrorView::UnknownKey(text@),
            ClientError::UnsupportedAlgorithm(text) => ClientErrorView::UnsupportedAlgorithm(text@),
            ClientError::InvalidSignatureOrClaims => ClientErrorView::InvalidSignatureOrClaims,
            ClientError::UpstreamUnavailable => ClientErrorView::UpstreamUnavailable,
        }
    }
}

/// Description sent when the token's header names no key.
pub open spec fn kid_missing_text() -> Seq<char> {
    "kid not found in token header"@
}

/// Description sent when the key set holds no key of the token's `kid`.
pub open spec fn key_unknown_text() -> Seq<char> {
    "No JWK found for kid"@
}

/// Description sent for a token that cannot be decoded or does not validate.
pub open spec fn bad_format_text() -> Seq<char> {
    "Authorization header value must follow this format: Bearer access-token"@
}

/// Start of the description sent for a key of another family than RSA.
pub open spec fn unsupported_text() -> Seq<char> {
    "Unsupported encryption algortithm expected RSA got "@
}

/// Description sent when the issuer's key set could not be had.
pub open spec fn upstream_text() -> Seq<char> {
    "Unable to retrieve the signing keys of the issuer"@
}

/// The body sent for each rejection.
pub open spec fn wire_message(error: ClientErrorView) -> ErrorMessageView {
    match error {
        ClientErrorView::MissingCredentials => ErrorMessageView {
            error: None,
            error_description: None,
            message: "Requires authentication"@,
        },
        ClientErrorView::MalformedToken | ClientErrorView::InvalidSignatureOrClaims => ErrorMessageView {
            error: Some("invalid_token"@),
            error_description: Some(bad_format_text()),
            message: "Bad credentials"@,
        },
        ClientErrorView::UnknownKey(text) => ErrorMessageView {
            error: Some("invalid_token"@),
            error_description: Some(text),
            message: "Bad credentials"@,
        },
        ClientErrorView::UnsupportedAlgorithm(text) => ErrorMessageView {
            error: Some("invalid_token"@),
            error_description: Some(unsupported_text() + text),
            message: "Bad credentials"@,
        },
        ClientErrorView::UpstreamUnavailable => ErrorMessageView {
            error: Some("invalid_token"@),
            error_description: Some(upstream_text()),
            message: "Bad credentials"@,
        },
    }
}

impl ClientError {
    /// Every rejection is sent as 401.
    pub fn status_code(&self) -> (status: u16)
        ensures
            status == UNAUTHORIZED,
    {
        UNAUTHORIZED
    }

    /// The body of the rejection.
    pub fn error_response(&self) -> (body: ErrorMessage)
        ensures
            body@ == wire_message(self@),
    {
        match self {
            ClientError::MissingCredentials => ErrorMessage {
                error: None,
                error_description: None,
                message: "Requires authentication".to_string(),
            },
            ClientError::MalformedToken | ClientError::InvalidSignatureOrClaims => ErrorMessage {
                error: Some("invalid_token".to_string()),
                error_description: Some(
                    "Authorization header value must follow this format: Bearer access-token".to_string(),
                ),
                message: "Bad credentials".to_string(),
            },
            ClientError::UnknownKey(text) => ErrorMessage {
                error: Some("invalid_token".to_string()),
                error_description: Some(text.clone()),
                message: "Bad credentials".to_string(),
            },
            ClientError::UnsupportedAlgorithm(text) => ErrorMessage {
                error: Some("invalid_token".to_string()),
                error_description: Some(
                    concat("Unsupported encryption algortithm expected RSA got ", text.as_str()),
                ),
                message: "Bad credentials".to_string(),
            },
            ClientError::UpstreamUnavailable => ErrorMessage {
                error: Some("invalid_token".to_string()),
                error_description: Some(
                    "Unable to retrieve the signing keys of the issuer".to_string(),
                ),
                message: "Bad credentials".to_string(),
            },
        }
    }

    /// Status and body together, as a response is built from them.
    pub fn into_response(self) -> (response: (u16, ErrorMessage))
        ensures
            response.0 == UNAUTHORIZED,
            response.1@ == wire_message(self@),
    {
        let body = self.error_response();
        (UNAUTHORIZED, body)
    }
}

/// The scheme prefix a credential must carry, with its blank.
pub open spec fn bearer_prefix() -> Seq<char> {
    "Bearer "@
}

/// Whether a header value starts with the literal prefix `Bearer `.
pub open spec fn has_bearer_prefix(header: Seq<char>) -> bool {
    header.len() >= 7 && header.subrange(0, 7) == bearer_prefix()
}

/// The token a header carries: what follows `Bearer `, if anything does.
pub open spec fn bearer_token(header: Option<Seq<char>>) -> Option<Seq<char>> {
    match header {
        Some(value) => if has_bearer_prefix(value) && value.len() > 7 {
            Some(value.subrange(7, value.len() as int))
        } else {
            None
        },
        None => None,
    }
}

/// Pulls the bearer credential out of an `Authorization` header value.
pub fn extract_bearer_token(header: Option<&str>) -> (r: Result<String, ClientError>)
    ensures
        match bearer_token(opt_str_view(header)) {
            Some(token) => r matches Ok(t) && t@ == token,
            None => r matches Err(e) && e@ == ClientErrorView::MissingCredentials,
        },
{
    match header {
        None => Err(ClientError::MissingCredentials),
        Some(value) => {
            let n: usize = value.unicode_len();
            if n <= 7 {
                return Err(ClientError::MissingCredentials);
            }
            if !value.substring_char(0, 7).eq("Bearer ") {
                return Err(ClientError::MissingCredentials);
            }
            Ok(value.substring_char(7, n).to_string())
        },
    }
}

/// Algorithm and key identifier of a token, read before anything is verified.
#[derive(Debug, Clone)]
pub struct JwtHeader {
    pub algorithm: String,
    pub kid: String,
}

/// What [`decode_token_header`] makes of a token's header.
pub open spec fn header_outcome(parts: Option<(Seq<char>, Option<Seq<char>>)>) -> Result<
    (Seq<char>, Seq<char>),
    ClientErrorView,
> {
    match parts {
        None => Err(ClientErrorView::MalformedToken),
        Some((_, None)) => Err(ClientErrorView::UnknownKey(kid_missing_text())),
        Some((algorithm, Some(kid))) => Ok((algorithm, kid)),
    }
}

/// Whether `r` is the outcome `expected`, header for header and error for error.
pub open spec fn is_header_outcome(
    r: Result<JwtHeader, ClientError>,
    expected: Result<(Seq<char>, Seq<char>), ClientErrorView>,
) -> bool {
    match expected {
        Ok((algorithm, kid)) => r matches Ok(h) && h.algorithm@ == algorithm && h.kid@ == kid,
        Err(error) => r matches Err(e) && e@ == error,
    }
}

/// Turns the parts read from a token's header into a [`JwtHeader`]: no parts
/// is a malformed token, no `kid` an unknown key.
pub fn require_key_id(parts: Option<(String, Option<String>)>) -> (r: Result<JwtHeader, ClientError>)
    ensures
        is_header_outcome(
            r,
            header_outcome(
                match parts {
                    Some(p) => Some((p.0@, opt_string_view(p.1))),
                    None => None,
                },
            ),
        ),
{
    match parts {
        None => Err(ClientError::MalformedToken),
        Some((algorithm, kid)) => match kid {
            None => Err(ClientError::UnknownKey("kid not found in token header".to_string())),
            Some(kid) => Ok(JwtHeader { algorithm, kid }),
        },
    }
}

/// Parses the unverified header of a token.
pub fn decode_token_header(token: &str) -> (r: Result<JwtHeader, ClientError>)
    ensures
        is_header_outcome(r, header_outcome(unverified_header(token@))),
{
    match read_header(token) {
        Ok(parts) => require_key_id(Some(parts)),
        Err(_) => require_key_id(None),
    }
}

/// Where an issuer publishes its key set.
pub open spec fn jwks_url_of(domain: Seq<char>) -> Seq<char> {
    "https://"@ + domain + "/.well-known/jwks.json"@
}

/// The `iss` claim an issuer puts into its tokens.
pub open spec fn issuer_of(domain: Seq<char>) -> Seq<char> {
    "https://"@ + domain + "/"@
}

/// The address of the key set of the issuer at `domain`.
pub fn jwks_url(domain: &str) -> (url: String)
    ensures
        url@ == jwks_url_of(domain@),
{
    let start = concat("https://", domain);
    concat(start.as_str(), "/.well-known/jwks.json")
}

/// The issuer that tokens of the tenant at `domain` must name.
pub fn issuer_url(domain: &str) -> (url: String)
    ensures
        url@ == issuer_of(domain@),
{
    let start = concat("https://", domain);
    concat(start.as_str(), "/")
}

/// An issuer's keys, in the order it published them.
#[derive(Debug, Clone)]
pub struct JsonWebKeySet {
    pub keys: Vec<Jwk>,
}

impl View for JsonWebKeySet {
    type V = Seq<JwkView>;

    open spec fn view(&self) -> Seq<JwkView> {
        keys_view(self.keys@)
    }
}

/// Whether `keys[i]` is the first key that carries `kid`.
pub open spec fn is_first_match(keys: Seq<JwkView>, kid: Seq<char>, i: int) -> bool {
    &&& 0 <= i < keys.len()
    &&& keys[i].kid == Some(kid)
    &&& forall|j: int| 0 <= j < i ==> (#[trigger] keys[j]).kid != Some(kid)
}

/// Whether no key carries `kid`.
pub open spec fn no_match(keys: Seq<JwkView>, kid: Seq<char>) -> bool {
    forall|j: int| 0 <= j < keys.len() ==> (#[trigger] keys[j]).kid != Some(kid)
}

/// The key a linear search for `kid` ends on.
pub open spec fn first_match(keys: Seq<JwkView>, kid: Seq<char>) -> Option<JwkView>
    decreases keys.len(),
{
    if keys.len() == 0 {
        None
    } else if keys.first().kid == Some(kid) {
        Some(keys.first())
    } else {
        first_match(keys.drop_first(), kid)
    }
}

/// A search finds the first key that carries the identifier, and finds
/// nothing exactly when no key carries it.
pub proof fn first_match_is_first(keys: Seq<JwkView>, kid: Seq<char>)
    ensures
        match first_match(keys, kid) {
            Some(key) => exists|i: int| is_first_match(keys, kid, i) && key == #[trigger] keys[i],
            None => no_match(keys, kid),
        },
    decreases keys.len(),
{
    if keys.len() == 0 {
    } else if keys.first().kid == Some(kid) {
        assert(is_first_match(keys, kid, 0));
    } else {
        let rest = keys.drop_first();
        first_match_is_first(rest, kid);
        match first_match(rest, kid) {
            Some(key) => {
                let i = choose|i: int| is_first_match(rest, kid, i) && key == #[trigger] rest[i];
                assert forall|j: int| 0 <= j < i + 1 implies (#[trigger] keys[j]).kid != Some(kid) by {
                    if j > 0 {
                        assert(keys[j] == rest[j - 1]);
                    }
                }
                assert(keys[i + 1] == rest[i]);
                assert(is_first_match(keys, kid, i + 1));
            },
            None => {
                assert forall|j: int| 0 <= j < keys.len() implies (#[trigger] keys[j]).kid != Some(kid) by {
                    if j > 0 {
                        assert(keys[j] == rest[j - 1]);
                    }
                }
            },
        }
    }
}

impl JsonWebKeySet {
    /// The first key of the set that carries `kid`.
    pub fn find(&self, kid: &str) -> (r: Option<&Jwk>)
        ensures
            match r {
                Some(key) => first_match(self@, kid@) == Some(key@),
                None => first_match(self@, kid@) is None,
            },
    {
        let mut i: usize = 0;
        assert(self@.skip(0) == self@);
        while i < self.keys.len()
            invariant
                i <= self.keys.len(),
                first_match(self@, kid@) == first_match(self@.skip(i as int), kid@),
            decreases self.keys.len() - i,
        {
            let key = &self.keys[i];
            let hit = match &key.kid {
                Some(id) => id.as_str().eq(kid),
                None => false,
            };
            proof {
                let rest = self@.skip(i as int);
                assert(rest.first() == key@);
                assert(rest.drop_first() == self@.skip(i + 1));
            }
            if hit {
                return Some(key);
            }
            i = i + 1;
        }
        None
    }
}

/// Reads what the fetch of the key set returned: no answer, or bytes that are
/// no key set, is an unavailable issuer.
pub fn read_key_set(response: Option<&[u8]>) -> (r: Result<JsonWebKeySet, ClientError>)
    ensures
        match response {
            Some(body) => match key_set_of(body@) {
                Some(keys) => r matches Ok(set) && set@ == keys,
                None => r matches Err(e) && e@ == ClientErrorView::UpstreamUnavailable,
            },
            None => r matches Err(e) && e@ == ClientErrorView::UpstreamUnavailable,
        },
{
    match response {
        None => Err(ClientError::UpstreamUnavailable),
        Some(body) => match parse_key_set(body) {
            Ok(keys) => Ok(JsonWebKeySet { keys }),
            Err(_) => Err(ClientError::UpstreamUnavailable),
        },
    }
}

/// Locates the key a token names.
pub fn resolve_key<'a>(set: &'a JsonWebKeySet, kid: &str) -> (r: Result<&'a Jwk, ClientError>)
    ensures
        match first_match(set@, kid@) {
            Some(key) => r matches Ok(found) && found@ == key,
            None => r matches Err(e) && e@ == ClientErrorView::UnknownKey(key_unknown_text()),
        },
{
    match set.find(kid) {
        Some(key) => Ok(key),
        None => Err(ClientError::UnknownKey("No JWK found for kid".to_string())),
    }
}

/// The claims of a token whose signature and registered claims validated.
#[derive(Debug, Clone)]
pub struct VerifiedPayload {
    pub subject: String,
    pub permissions: Option<Vec<String>>,
}

/// Mathematical content of a [`VerifiedPayload`].
pub ghost struct VerifiedPayloadView {
    pub subject: Seq<char>,
    pub permissions: Option<Seq<Seq<char>>>,
}

impl View for VerifiedPayload {
    type V = VerifiedPayloadView;

    open spec fn view(&self) -> VerifiedPayloadView {
        VerifiedPayloadView {
            subject: self.subject@,
            permissions: match self.permissions {
                Some(list) => Some(strings_view(list@)),
                None => None,
            },
        }
    }
}

/// Whether every element of a claim list is a string.
pub open spec fn all_text(items: Seq<Option<Seq<char>>>) -> bool {
    forall|i: int| 0 <= i < items.len() ==> (#[trigger] items[i]) is Some
}

/// The strings of a claim list.
pub open spec fn texts_of(items: Seq<Option<Seq<char>>>) -> Seq<Seq<char>> {
    items.map_values(|item: Option<Seq<char>>| item->0)
}

/// The payload that the `sub` and permission claims of a validated token
/// make: the subject must be a string, and the permissions absent, `null` or
/// a list of strings.
pub open spec fn payload_of(subject: ClaimValueView, permissions: ClaimValueView) -> Option<
    VerifiedPayloadView,
> {
    match subject {
        ClaimValueView::Text(text) => match permissions {
            ClaimValueView::Absent | ClaimValueView::Null => Some(
                VerifiedPayloadView { subject: text, permissions: None },
            ),
            ClaimValueView::List(items) => if all_text(items) {
                Some(VerifiedPayloadView { subject: text, permissions: Some(texts_of(items)) })
            } else {
                None
            },
            _ => None,
        },
        _ => None,
    }
}

/// Whether `r` is the payload `expected`, or the rejection of a payload that
/// is none.
pub open spec fn is_payload_outcome(
    r: Result<VerifiedPayload, ClientError>,
    expected: Option<VerifiedPayloadView>,
) -> bool {
    match expected {
        Some(payload) => r matches Ok(p) && p@ == payload,
        None => r matches Err(e) && e@ == ClientErrorView::InvalidSignatureOrClaims,
    }
}

/// The strings of a claim list, if all its elements are strings.
fn collect_texts(items: Vec<Option<String>>) -> (r: Option<Vec<String>>)
    ensures
        match r {
            Some(list) => all_text(claim_list_view(items@)) && strings_view(list@) == texts_of(
                claim_list_view(items@),
            ),
            None => !all_text(claim_list_view(items@)),
        },
{
    let ghost source = claim_list_view(items@);
    let mut list: Vec<String> = Vec::new();
    let mut i: usize = 0;
    while i < items.len()
        invariant
            i <= items.len(),
            source == claim_list_view(items@),
            list@.len() == i,
            forall|j: int| 0 <= j < i ==> (#[trigger] source[j]) == Some(list@[j]@),
        decreases items.len() - i,
    {
        match &items[i] {
            Some(text) => {
                list.push(text.clone());
            },
            None => {
                assert(source[i as int] is None);
                return None;
            },
        }
        i = i + 1;
    }
    assert(strings_view(list@) =~= texts_of(source));
    Some(list)
}

/// Views of the elements of a claim list.
pub open spec fn claim_list_view(items: Seq<Option<String>>) -> Seq<Option<Seq<char>>> {
    items.map_values(|item: Option<String>| opt_string_view(item))
}

/// Reads the two claims that are kept from a validated token.
pub fn read_payload(subject: ClaimValue, permissions: ClaimValue) -> (r: Result<
    VerifiedPayload,
    ClientError,
>)
    ensures
        is_payload_outcome(r, payload_of(subject@, permissions@)),
{
    let subject = match subject {
        ClaimValue::Text(text) => text,
        _ => {
            return Err(ClientError::InvalidSignatureOrClaims);
        },
    };
    match permissions {
        ClaimValue::Absent => Ok(VerifiedPayload { subject, permissions: None }),
        ClaimValue::Null => Ok(VerifiedPayload { subject, permissions: None }),
        ClaimValue::List(items) => match collect_texts(items) {
            Some(list) => Ok(VerifiedPayload { subject, permissions: Some(list) }),
            None => Err(ClientError::InvalidSignatureOrClaims),
        },
        _ => Err(ClientError::InvalidSignatureOrClaims),
    }
}

/// The member of a decoded payload under `name`.
pub open spec fn member(payload: serde_json::Value, name: Seq<char>) -> ClaimValueView {
    if claim_members(payload).dom().contains(name) {
        claim_members(payload)[name]
    } else {
        ClaimValueView::Absent
    }
}

/// Takes the decoded payload of a validated token and keeps `sub` and
/// `_permissions`.
pub fn accept_payload(payload: &serde_json::Value) -> (r: Result<VerifiedPayload, ClientError>)
    ensures
        is_payload_outcome(
            r,
            payload_of(member(*payload, "sub"@), member(*payload, "_permissions"@)),
        ),
{
    let subject = claim_of(payload, "sub");
    let permissions = claim_of(payload, "_permissions");
    read_payload(subject, permissions)
}

/// Whether the unverified header of `token` names RS256.
pub open spec fn names_rs256(token: Seq<char>) -> bool {
    unverified_header(token) matches Some(header) && header.0 == "RS256"@
}

/// Checks a token against the key it names: the key must be an RSA key, the
/// signature an RS256 signature of that key, the audience the configured one,
/// the issuer `https://{domain}/`, and the token not expired.
///
/// Whether a signature validates is the outside verifier's word, and it
/// reads the clock; the contract says what holds whatever it answers.
pub fn validate_signature(token: &str, jwk: &Jwk, config: &Auth0Config) -> (r: Result<
    VerifiedPayload,
    ClientError,
>)
    ensures
        match jwk@.algorithm {
            AlgorithmParametersView::Other { description } => r matches Err(e) && e@
                == ClientErrorView::UnsupportedAlgorithm(description),
            AlgorithmParametersView::Rsa { .. } => r is Ok || (r matches Err(e) && e@
                == ClientErrorView::InvalidSignatureOrClaims),
        },
        r is Ok ==> names_rs256(token@),
{
    match &jwk.algorithm {
        AlgorithmParameters::Other { description } => Err(
            ClientError::UnsupportedAlgorithm(description.clone()),
        ),
        AlgorithmParameters::Rsa { modulus, exponent } => {
            let key = match rsa_decoding_key(modulus.as_str(), exponent.as_str()) {
                Ok(key) => key,
                Err(_) => {
                    return Err(ClientError::InvalidSignatureOrClaims);
                },
            };
            let issuer = issuer_url(config.domain());
            match decode_rs256(token, &key, config.audience(), issuer.as_str()) {
                Ok(payload) => accept_payload(&payload),
                Err(_) => Err(ClientError::InvalidSignatureOrClaims),
            }
        },
    }
}

/// The identity handed to the handlers of a request.
#[derive(Debug, Clone)]
pub struct Claims {
    pub sub: String,
    pub _permissions: Option<Vec<String>>,
}

/// Mathematical content of [`Claims`].
pub ghost struct ClaimsView {
    pub sub: Seq<char>,
    pub permissions: Option<Seq<Seq<char>>>,
}

impl View for Claims {
    type V = ClaimsView;

    open spec fn view(&self) -> ClaimsView {
        ClaimsView {
            sub: self.sub@,
            permissions: match self._permissions {
                Some(list) => Some(strings_view(list@)),
                None => None,
            },
        }
    }
}

impl Claims {
    /// The permissions form a set: none is listed twice.
    pub open spec fn wf(&self) -> bool {
        self@.permissions matches Some(list) ==> list.no_duplicates()
    }
}

/// `items` without repetitions, each kept where it first occurs.
pub open spec fn distinct(items: Seq<Seq<char>>) -> Seq<Seq<char>>
    decreases items.len(),
{
    if items.len() == 0 {
        Seq::empty()
    } else {
        let rest = distinct(items.drop_last());
        if rest.contains(items.last()) {
            rest
        } else {
            rest.push(items.last())
        }
    }
}

/// `distinct` keeps exactly the elements of its argument, each once.
pub proof fn distinct_is_a_set(items: Seq<Seq<char>>)
    ensures
        distinct(items).no_duplicates(),
        forall|text: Seq<char>| #[trigger] distinct(items).contains(text) <==> items.contains(text),
    decreases items.len(),
{
    if items.len() == 0 {
    } else {
        let front = items.drop_last();
        let last = items.last();
        let rest = distinct(front);
        let all = distinct(items);
        distinct_is_a_set(front);
        assert forall|text: Seq<char>| #[trigger] all.contains(text) <==> items.contains(text) by {
            assert(rest.contains(text) <==> front.contains(text));
            if front.contains(text) {
                let i = choose|i: int| 0 <= i < front.len() && front[i] == text;
                assert(items[i] == text);
            }
            if items.contains(text) && text != last {
                let i = choose|i: int| 0 <= i < items.len() && items[i] == text;
                assert(front[i] == text);
            }
            assert(items[items.len() - 1] == last);
            if rest.contains(last) {
                assert(all == rest);
            } else {
                assert(all == rest.push(last));
                if rest.contains(text) {
                    let k = choose|k: int| 0 <= k < rest.len() && rest[k] == text;
                    assert(all[k] == text);
                }
                assert(all[rest.len() as int] == last);
                if all.contains(text) {
                    let k = choose|k: int| 0 <= k < all.len() && all[k] == text;
                    if k < rest.len() {
                        assert(rest[k] == text);
                    }
                }
            }
        }
        if !rest.contains(last) {
            assert forall|i: int, j: int| 0 <= i < all.len() && 0 <= j < all.len() && i != j implies all[i] != all[j] by {
                if i < rest.len() && j < rest.len() {
                    assert(rest[i] != rest[j]);
                } else if i < rest.len() {
                    assert(rest[i] == all[i]);
                    assert(rest.contains(all[i]));
                } else {
                    assert(rest[j] == all[j]);
                    assert(rest.contains(all[j]));
                }
            }
        }
    }
}

/// Whether `list` holds `text`.
fn holds(list: &Vec<String>, text: &str) -> (found: bool)
    ensures
        found == strings_view(list@).contains(text@),
{
    let mut i: usize = 0;
    while i < list.len()
        invariant
            i <= list.len(),
            forall|j: int| 0 <= j < i ==> (#[trigger] strings_view(list@)[j]) != text@,
        decreases list.len() - i,
    {
        if list[i].as_str().eq(text) {
            assert(strings_view(list@)[i as int] == text@);
            return true;
        }
        i = i + 1;
    }
    false
}

/// The permission set of a list of permissions.
pub fn permission_set(items: &Vec<String>) -> (set: Vec<String>)
    ensures
        strings_view(set@) == distinct(strings_view(items@)),
        strings_view(set@).no_duplicates(),
{
    let mut set: Vec<String> = Vec::new();
    let mut i: usize = 0;
    assert(strings_view(items@).take(0) =~= Seq::<Seq<char>>::empty());
    while i < items.len()
        invariant
            i <= items.len(),
            strings_view(set@) == distinct(strings_view(items@).take(i as int)),
        decreases items.len() - i,
    {
        let ghost before = strings_view(set@);
        let ghost front = strings_view(items@).take(i as int);
        let ghost next = strings_view(items@).take(i + 1);
        assert(next.drop_last() =~= front);
        assert(next.last() == items@[i as int]@);
        if !holds(&set, items[i].as_str()) {
            set.push(items[i].clone());
            assert(strings_view(set@) =~= before.push(items@[i as int]@));
        }
        i = i + 1;
    }
    assert(strings_view(items@).take(items.len() as int) =~= strings_view(items@));
    proof {
        distinct_is_a_set(strings_view(items@));
    }
    set
}

/// The identity that a payload projects to.
pub open spec fn claims_of(payload: VerifiedPayloadView) -> ClaimsView {
    ClaimsView {
        sub: payload.subject,
        permissions: match payload.permissions {
            Some(list) => Some(distinct(list)),
            None => None,
        },
    }
}

/// Reduces a verified payload to the identity of the request. The subject is
/// taken as it stands; the permissions become a set.
pub fn project_claims(payload: VerifiedPayload) -> (claims: Claims)
    ensures
        claims@ == claims_of(payload@),
        claims.sub@ == payload.subject@,
        claims.wf(),
{
    let permissions = match &payload.permissions {
        Some(list) => Some(permission_set(list)),
        None => None,
    };
    Claims { sub: payload.subject, _permissions: permissions }
}

/// A verification that waits for the issuer's key set.
#[derive(Debug, Clone)]
pub struct KeyRequest {
    /// The token to verify.
    pub token: String,
    /// The key the token names.
    pub kid: String,
    /// The document to fetch.
    pub url: String,
}

/// What is decided before the issuer is asked: the token and the key it
/// names, or the rejection.
pub open spec fn precheck(header: Option<Seq<char>>) -> Result<(Seq<char>, Seq<char>), ClientErrorView> {
    match bearer_token(header) {
        None => Err(ClientErrorView::MissingCredentials),
        Some(token) => match header_outcome(unverified_header(token)) {
            Ok((_, kid)) => Ok((token, kid)),
            Err(error) => Err(error),
        },
    }
}

/// First half of a verification: reads the credential and the token's header,
/// and names the key set to fetch.
pub fn begin_verification(header: Option<&str>, config: &Auth0Config) -> (r: Result<
    KeyRequest,
    ClientError,
>)
    ensures
        match precheck(opt_str_view(header)) {
            Ok((token, kid)) => r matches Ok(request) && request.token@ == token && request.kid@
                == kid && request.url@ == jwks_url_of(config.domain_view()),
            Err(error) => r matches Err(e) && e@ == error,
        },
{
    let token = match extract_bearer_token(header) {
        Ok(token) => token,
        Err(error) => {
            return Err(error);
        },
    };
    let kid = match decode_token_header(token.as_str()) {
        Ok(header) => header.kid,
        Err(error) => {
            return Err(error);
        },
    };
    let url = jwks_url(config.domain());
    Ok(KeyRequest { token, kid, url })
}

/// The keys that a fetch returned, if it returned a key set.
pub open spec fn fetched_keys(response: Option<Seq<u8>>) -> Option<Seq<JwkView>> {
    match response {
        Some(body) => key_set_of(body),
        None => None,
    }
}

/// The rejection that is decided before any signature is looked at, if there
/// is one: the issuer is unavailable, no key carries the token's `kid`, or
/// the key that does is no RSA key.
pub open spec fn early_rejection(response: Option<Seq<u8>>, kid: Seq<char>) -> Option<
    ClientErrorView,
> {
    match fetched_keys(response) {
        None => Some(ClientErrorView::UpstreamUnavailable),
        Some(keys) => match first_match(keys, kid) {
            None => Some(ClientErrorView::UnknownKey(key_unknown_text())),
            Some(key) => match key.algorithm {
                AlgorithmParametersView::Other { description } => Some(
                    ClientErrorView::UnsupportedAlgorithm(description),
                ),
                AlgorithmParametersView::Rsa { .. } => None,
            },
        },
    }
}

/// Second half of a verification: `response` is the body that the fetch of
/// `request.url` returned, or `None` where the fetch failed.
///
/// The result is an identity or one rejection, never both and never less:
/// every rejection that is decided before the signature check is named by
/// [`early_rejection`]; after it, only an invalid signature or claim rejects.
/// An identity is produced only for a token whose header names RS256.
pub fn complete_verification(
    request: &KeyRequest,
    response: Option<&[u8]>,
    config: &Auth0Config,
) -> (r: Result<Claims, ClientError>)
    ensures
        match early_rejection(opt_bytes_view(response), request.kid@) {
            Some(error) => r matches Err(e) && e@ == error,
            None => r is Ok || (r matches Err(e) && e@ == ClientErrorView::InvalidSignatureOrClaims),
        },
        r matches Ok(claims) ==> claims.wf() && names_rs256(request.token@),
{
    let set = match read_key_set(response) {
        Ok(set) => set,
        Err(error) => {
            return Err(error);
        },
    };
    let key = match resolve_key(&set, request.kid.as_str()) {
        Ok(key) => key,
        Err(error) => {
            return Err(error);
        },
    };
    match validate_signature(request.token.as_str(), key, config) {
        Ok(payload) => Ok(project_claims(payload)),
        Err(error) => Err(error),
    }
}

/// The bytes of an optional body.
pub open spec fn opt_bytes_view(response: Option<&[u8]>) -> Option<Seq<u8>> {
    match response {
        Some(body) => Some(body@),
        None => None,
    }
}

/// The identity projected from a validated token carries the token's `sub`
/// claim exactly, whatever the permissions are.
pub proof fn subject_is_projected_exactly(subject: Seq<char>, permissions: ClaimValueView)
    requires
        payload_of(ClaimValueView::Text(subject), permissions) is Some,
    ensures
        claims_of(payload_of(ClaimValueView::Text(subject), permissions)->0).sub == subject,
{
}

/// A request without an `Authorization` header is answered with 401 and the
/// message "Requires authentication".
pub proof fn missing_header_requires_authentication()
    ensures
        precheck(None) == Err::<(Seq<char>, Seq<char>), ClientErrorView>(
            ClientErrorView::MissingCredentials,
        ),
        wire_message(ClientErrorView::MissingCredentials) == (ErrorMessageView {
            error: None,
            error_description: None,
            message: "Requires authentication"@,
        }),
{
}

/// A header that does not start with `Bearer ` is rejected as missing
/// credentials, whatever else it holds.
pub proof fn unprefixed_header_is_rejected(header: Seq<char>)
    requires
        !has_bearer_prefix(header),
    ensures
        precheck(Some(header)) == Err::<(Seq<char>, Seq<char>), ClientErrorView>(
            ClientErrorView::MissingCredentials,
        ),
{
}

/// A token whose `kid` no fetched key carries is rejected with the
/// description "No JWK found for kid".
pub proof fn unknown_kid_is_rejected(body: Seq<u8>, keys: Seq<JwkView>, kid: Seq<char>)
    requires
        key_set_of(body) == Some(keys),
        no_match(keys, kid),
    ensures
        early_rejection(Some(body), kid) == Some(ClientErrorView::UnknownKey(key_unknown_text())),
        wire_message(ClientErrorView::UnknownKey(key_unknown_text())).error_description == Some(
            key_unknown_text(),
        ),
{
    first_match_is_first(keys, kid);
    if first_match(keys, kid) is Some {
        let key = first_match(keys, kid)->0;
        let i = choose|i: int| is_first_match(keys, kid, i) && key == #[trigger] keys[i];
        assert(keys[i].kid == Some(kid));
    }
}

/// Failures of credential handling outside token verification.
#[derive(Debug, Clone, Copy, PartialEq, Eq, Structural)]
pub enum AuthError {
    WrongCredentials,
    MissingCredentials,
    TokenCreation,
    InvalidToken,
}

/// The status each [`AuthError`] is answered with.
pub open spec fn auth_status(error: AuthError) -> u16 {
    match error {
        AuthError::WrongCredentials => 401,
        AuthError::MissingCredentials => 400,
        AuthError::TokenCreation => 500,
        AuthError::InvalidToken => 400,
    }
}

/// The text each [`AuthError`] is answered with.
pub open spec fn auth_text(error: AuthError) -> Seq<char> {
    match error {
        AuthError::WrongCredentials => "Wrong credentials"@,
        AuthError::MissingCredentials => "Missing credentials"@,
        AuthError::TokenCreation => "Token creation error"@,
        AuthError::InvalidToken => "Invalid token"@,
    }
}

impl AuthError {
    /// Status and the text sent under `error`.
    pub fn into_response(self) -> (response: (u16, &'static str))
        ensures
            response.0 == auth_status(self),
            response.1@ == auth_text(self),
    {
        match self {
            AuthError::WrongCredentials => (401, "Wrong credentials"),
            AuthError::MissingCredentials => (400, "Missing credentials"),
            AuthError::TokenCreation => (500, "Token creation error"),
            AuthError::InvalidToken => (400, "Invalid token"),
        }
    }
}

} // verus!
