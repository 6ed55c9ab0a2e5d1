//! Process configuration and the wire shape of an error.

use vstd::prelude::*;
use crate::common::text::{json_string, json_text, opt_string_view, strings_view};

verus! {

/// Listener configuration of the service.
pub struct Config {
    pub host: String,
    pub port: u16,
    pub client_origin_url: String,
}

/// The host the service binds to when none is configured.
pub fn default_host() -> (host: String)
    ensures
        host@ == "127.0.0.1"@,
{
    "127.0.0.1".to_string()
}

/// The pieces of a text between its commas, in order. A text without a comma
/// is one piece, and so is the empty text.
pub open spec fn comma_pieces(text: Seq<char>) -> Seq<Seq<char>>
    decreases text.len(),
{
    if text.len() == 0 {
        seq![Seq::empty()]
    } else {
        let front = comma_pieces(text.drop_last());
        if text.last() == ',' {
            front.push(Seq::empty())
        } else {
            front.drop_last().push(front.last().push(text.last()))
        }
    }
}

/// The origins that a comma-separated list names, in order and as written.
pub fn split_origins(list: &str) -> (origins: Vec<String>)
    ensures
        strings_view(origins@) == comma_pieces(list@),
{
    let n: usize = list.unicode_len();
    let mut origins: Vec<String> = Vec::new();
    let mut start: usize = 0;
    let mut i: usize = 0;
    assert(list@.take(0) =~= Seq::<char>::empty());
    assert(list@.subrange(0, 0) =~= Seq::<char>::empty());
    assert(strings_view(origins@).push(list@.subrange(0, 0)) =~= seq![Seq::<char>::empty()]);
    while i < n
        invariant
            n == list@.len(),
            start <= i <= n,
            comma_pieces(list@.take(i as int)) == strings_view(origins@).push(
                list@.subrange(start as int, i as int),
            ),
        decreases n - i,
    {
        let ghost read = list@.take(i as int);
        let ghost next = list@.take(i + 1);
        let ghost done = strings_view(origins@);
        let ghost piece = list@.subrange(start as int, i as int);
        assert(next.drop_last() =~= read);
        assert(next.last() == list@[i as int]);
        assert(comma_pieces(read).last() == piece);
        assert(comma_pieces(read).drop_last() =~= done);
        if list.get_char(i) == ',' {
            origins.push(list.substring_char(start, i).to_string());
            start = i + 1;
            assert(strings_view(origins@) =~= done.push(piece));
            assert(list@.subrange(start as int, i + 1) =~= Seq::<char>::empty());
        } else {
            assert(list@.subrange(start as int, i + 1) =~= piece.push(list@[i as int]));
        }
        i = i + 1;
    }
    assert(list@.take(n as int) =~= list@);
    let ghost done = strings_view(origins@);
    origins.push(list.substring_char(start, n).to_string());
    assert(strings_view(origins@) =~= done.push(list@.subrange(start as int, n as int)));
    origins
}

/// Body of every rejection sent to a client. `error` and
/// `error_description` are left out of the JSON when absent.
#[derive(Debug, Clone)]
pub struct ErrorMessage {
    pub error: Option<String>,
    pub error_description: Option<String>,
    pub message: String,
}

/// Mathematical content of an [`ErrorMessage`].
pub ghost struct ErrorMessageView {
    pub error: Option<Seq<char>>,
    pub error_description: Option<Seq<char>>,
    pub message: Seq<char>,
}

impl View for ErrorMessage {
    type V = ErrorMessageView;

    open spec fn view(&self) -> ErrorMessageView {
        ErrorMessageView {
            error: opt_string_view(self.error),
            error_description: opt_string_view(self.error_description),
            message: self.message@,
        }
    }
}

/// One optional member of a JSON object, with the comma that follows it;
/// nothing where the member is absent.
pub open spec fn optional_member(name: Seq<char>, value: Option<Seq<char>>) -> Seq<char> {
    match value {
        Some(text) => name + json_string(text) + ","@,
        None => Seq::empty(),
    }
}

/// The JSON of an error body: `error` and `error_description` where they are
/// present, then `message`.
pub open spec fn error_json(body: ErrorMessageView) -> Seq<char> {
    "{"@ + optional_member("\"error\":"@, body.error) + optional_member(
        "\"error_description\":"@,
        body.error_description,
    ) + "\"message\":"@ + json_string(body.message) + "}"@
}

/// Appends one optional member to a JSON object under construction.
fn push_optional_member(json: &mut String, name: &str, value: &Option<String>)
    ensures
        final(json)@ == old(json)@ + optional_member(name@, opt_string_view(*value)),
{
    match value {
        Some(text) => {
            json.append(name);
            json.append(json_text(text.as_str()).as_str());
            json.append(",");
            assert(json@ =~= old(json)@ + (name@ + json_string(text@) + ","@));
        },
        None => {
            assert(json@ =~= old(json)@ + Seq::<char>::empty());
        },
    }
}

impl ErrorMessage {
    /// The body as JSON. Absent members are left out.
    pub fn to_json(&self) -> (json: String)
        ensures
            json@ == error_json(self@),
    {
        let mut json = "{".to_string();
        push_optional_member(&mut json, "\"error\":", &self.error);
        push_optional_member(&mut json, "\"error_description\":", &self.error_description);
        json.append("\"message\":");
        json.append(json_text(self.message.as_str()).as_str());
        json.append("}");
        json
    }
}

} // verus!
