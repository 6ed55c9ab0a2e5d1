//! `GET /me`: who the caller is.

use vstd::prelude::*;
use crate::common::text::json_string;
use crate::common::text::json_text;
use crate::presentation::extractor::claims::Claims;

verus! {

/// Body of the answer to `GET /me`.
#[derive(Debug, Clone, PartialEq)]
pub struct MeResponse {
    /// The subject of the caller's token.
    pub id: String,
}

/// The JSON of a [`MeResponse`] of that identifier.
pub open spec fn me_json(id: Seq<char>) -> Seq<char> {
    "{\"id\":"@ + json_string(id) + "}"@
}

impl MeResponse {
    /// The body as JSON: one member, `id`.
    pub fn to_json(&self) -> (json: String)
        ensures
            json@ == me_json(self.id@),
    {
        let mut json = "{\"id\":".to_string();
        json.append(json_text(self.id.as_str()).as_str());
        json.append("}");
        json
    }
}

/// The answer for an authenticated caller: the subject, as it stands.
pub fn me_handler(claims: Claims) -> (response: MeResponse)
    ensures
        response.id == claims.sub,
{
    MeResponse { id: claims.sub }
}

} // verus!
