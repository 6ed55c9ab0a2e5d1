//! What the extractor takes from `jsonwebtoken` and `serde_json`: the data it
//! reads out of their values, held as plain values, and the calls themselves.
//! Nothing in this file is proved; every contract below is taken from the
//! documentation and source of the crate it names.

use vstd::prelude::*;
use crate::common::text::opt_string_view;

verus! {

/// Algorithm-specific part of a JSON Web Key. Only RSA keys are usable; any
/// other key keeps a printable description for diagnostics.
#[derive(Debug, Clone)]
pub enum AlgorithmParameters {
    /// An RSA public key: base64url modulus `n` and exponent `e`.
    Rsa { modulus: String, exponent: String },
    /// A key of any other family.
    Other { description: String },
}

/// Mathematical content of [`AlgorithmParameters`].
pub ghost enum AlgorithmParametersView {
    Rsa { modulus: Seq<char>, exponent: Seq<char> },
    Other { description: Seq<char> },
}

impl View for AlgorithmParameters {
    type V = AlgorithmParametersView;

    open spec fn view(&self) -> AlgorithmParametersView {
        match *self {
            AlgorithmParameters::Rsa { modulus, exponent } => AlgorithmParametersView::Rsa {
                modulus: modulus@,
                exponent: exponent@,
            },
            AlgorithmParameters::Other { description } => AlgorithmParametersView::Other {
                description: description@,
            },
        }
    }
}

/// One key of an issuer's key set.
#[derive(Debug, Clone)]
pub struct Jwk {
    pub kid: Option<String>,
    pub algorithm: AlgorithmParameters,
}

/// Mathematical content of a [`Jwk`].
pub ghost struct JwkView {
    pub kid: Option<Seq<char>>,
    pub algorithm: AlgorithmParametersView,
}

impl View for Jwk {
    type V = JwkView;

    open spec fn view(&self) -> JwkView {
        JwkView { kid: opt_string_view(self.kid), algorithm: self.algorithm@ }
    }
}

/// Views of a list of keys, in order.
pub open spec fn keys_view(keys: Seq<Jwk>) -> Seq<JwkView> {
    keys.map_values(|k: Jwk| k@)
}

/// What a token's payload holds under one claim name, as far as the extractor
/// reads it.
#[derive(Debug, Clone)]
pub enum ClaimValue {
    /// The payload has no member of that name.
    Absent,
    /// JSON `null`.
    Null,
    /// A JSON string.
    Text(String),
    /// A JSON array; each element is its text if it is a string.
    List(Vec<Option<String>>),
    /// Any other JSON value.
    Other,
}

/// Mathematical content of a [`ClaimValue`].
pub ghost enum ClaimValueView {
    Absent,
    Null,
    Text(Seq<char>),
    List(Seq<Option<Seq<char>>>),
    Other,
}

impl View for ClaimValue {
    type V = ClaimValueView;

    open spec fn view(&self) -> ClaimValueView {
        match *self {
            ClaimValue::Absent => ClaimValueView::Absent,
            ClaimValue::Null => ClaimValueView::Null,
            ClaimValue::Text(s) => ClaimValueView::Text(s@),
            ClaimValue::List(items) => ClaimValueView::List(
                items@.map_values(|item: Option<String>| opt_string_view(item)),
            ),
            ClaimValue::Other => ClaimValueView::Other,
        }
    }
}

/// `jsonwebtoken::errors::Error`, carried through without a look inside.
#[verifier::external_type_specification]
#[verifier::external_body]
pub struct ExJwtError(jsonwebtoken::errors::Error);

/// `jsonwebtoken::DecodingKey`, carried from where it is built to where a
/// token is decoded with it.
#[verifier::external_type_specification]
#[verifier::external_body]
pub struct ExDecodingKey(jsonwebtoken::DecodingKey);

/// `serde_json::Error`, carried through without a look inside.
#[verifier::external_type_specification]
#[verifier::external_body]
pub struct ExJsonError(serde_json::Error);

/// `serde_json::Value`: the decoded payload of a token. What it holds is
/// read through [`claim_of`] alone.
#[verifier::external_type_specification]
#[verifier::external_body]
pub struct ExJsonValue(serde_json::Value);

/// The header that `jsonwebtoken::decode_header` reads from a token without
/// checking anything: the algorithm's JOSE name and the key identifier if one
/// is present. `None` where the token has no readable header.
pub uninterp spec fn unverified_header(token: Seq<char>) -> Option<(Seq<char>, Option<Seq<char>>)>;

/// The keys that `serde_json` reads from the bytes of a JWKS document, in the
/// document's order. `None` where the bytes are no such document.
pub uninterp spec fn key_set_of(body: Seq<u8>) -> Option<Seq<JwkView>>;

/// The members of a decoded payload, by claim name.
pub uninterp spec fn claim_members(payload: serde_json::Value) -> Map<Seq<char>, ClaimValueView>;

/// Calls `jsonwebtoken::decode_header`, which base64url-decodes the first of
/// the token's three dot-separated segments and parses it as a JSON header,
/// verifying nothing. The contract claims only that the outcome is the one
/// named [`unverified_header`]; the algorithm is handed on by its name.
#[verifier::external_body]
pub(crate) fn read_header(token: &str) -> (r: Result<(String, Option<String>), jsonwebtoken::errors::Error>)
    ensures
        match r {
            Ok(parts) => unverified_header(token@) == Some((parts.0@, opt_string_view(parts.1))),
            Err(_) => unverified_header(token@) is None,
        },
{
    jsonwebtoken::decode_header(token).map(|header| (format!("{:?}", header.alg), header.kid))
}

/// Calls `serde_json::from_slice` for a `jsonwebtoken::jwk::JwkSet` and hands
/// each key out as a [`Jwk`]: its `kid`, and `n` and `e` for an RSA key or the
/// debug print of the parameters for any other. The contract claims only that
/// the outcome is the one named [`key_set_of`].
#[verifier::external_body]
pub(crate) fn parse_key_set(body: &[u8]) -> (r: Result<Vec<Jwk>, serde_json::Error>)
    ensures
        match r {
            Ok(keys) => key_set_of(body@) == Some(keys_view(keys@)),
            Err(_) => key_set_of(body@) is None,
        },
{
    let set = serde_json::from_slice::<jsonwebtoken::jwk::JwkSet>(body)?;
    Ok(set.keys.into_iter().map(|key| Jwk {
        kid: key.common.key_id,
        algorithm: match key.algorithm {
            jsonwebtoken::jwk::AlgorithmParameters::RSA(rsa) => AlgorithmParameters::Rsa { modulus: rsa.n, exponent: rsa.e },
            other => AlgorithmParameters::Other { description: format!("{:?}", other) },
        },
    }).collect())
}

/// Calls `jsonwebtoken::DecodingKey::from_rsa_components`, which
/// base64url-decodes the modulus and the exponent and fails where either is
/// not base64url. Nothing is claimed of the key.
#[verifier::external_body]
pub(crate) fn rsa_decoding_key(modulus: &str, exponent: &str) -> (r: Result<jsonwebtoken::DecodingKey, jsonwebtoken::errors::Error>)
{
    jsonwebtoken::DecodingKey::from_rsa_components(modulus, exponent)
}

/// Calls `jsonwebtoken::decode` with a validation that admits RS256 alone,
/// `audience` as the one accepted audience and `issuer` as the one accepted
/// issuer, and expiry checked against the system clock. Because of the clock
/// the outcome has no name. The contract claims what the source shows of
/// every success: the token's header was readable and named RS256.
#[verifier::external_body]
pub(crate) fn decode_rs256(
    token: &str,
    key: &jsonwebtoken::DecodingKey,
    audience: &str,
    issuer: &str,
) -> (r: Result<serde_json::Value, jsonwebtoken::errors::Error>)
    ensures
        r is Ok ==> (unverified_header(token@) matches Some(header) && header.0 == "RS256"@),
{
    let mut validation = jsonwebtoken::Validation::new(jsonwebtoken::Algorithm::RS256);
    validation.set_audience(&[audience]);
    validation.set_issuer(&[issuer]);
    jsonwebtoken::decode::<serde_json::Value>(token, key, &validation).map(|data| data.claims)
}

/// Calls `serde_json::Value::get` with a claim name and tells the variants of
/// the member apart. The contract claims that the result is the member that
/// [`claim_members`] holds under that name, and absent where it holds none.
#[verifier::external_body]
pub(crate) fn claim_of(payload: &serde_json::Value, name: &str) -> (r: ClaimValue)
    ensures
        r@ == (if claim_members(*payload).dom().contains(name@) {
            claim_members(*payload)[name@]
        } else {
            ClaimValueView::Absent
        }),
{
    match payload.get(name) {
        None => ClaimValue::Absent,
        Some(serde_json::Value::Null) => ClaimValue::Null,
        Some(serde_json::Value::String(text)) => ClaimValue::Text(text.clone()),
        Some(serde_json::Value::Array(items)) => ClaimValue::List(
            items.iter().map(|item| item.as_str().map(|text| text.to_owned())).collect(),
        ),
        Some(_) => ClaimValue::Other,
    }
}

} // verus!
