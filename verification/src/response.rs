//! The reply of the API, and how it is read from the JSON body of an HTTP
//! response.

use crate::json::{
    as_array, as_string, as_u64, is_null, json_view, member, parse_json, parsed_json,
    shape_error, JsonView,
};
use crate::notification::NotificationError;
use vstd::prelude::*;

verus! {

/// The reply of the API to one message.
#[derive(Debug)]
pub struct Response {
    /// The status: 1 where the message was accepted, another value where
    /// it was not.
    pub status: u8,
    /// The token under which the API tracks the request.
    pub request: String,
    /// What the API found wrong with the message, where it found anything.
    pub errors: Option<Vec<String>>,
}

/// A reply as plain values.
pub struct ResponseView {
    /// The status.
    pub status: u8,
    /// The request token.
    pub request: Seq<char>,
    /// The error messages, in order.
    pub errors: Option<Seq<Seq<char>>>,
}

impl View for Response {
    type V = ResponseView;

    open spec fn view(&self) -> ResponseView {
        ResponseView {
            status: self.status,
            request: self.request@,
            errors: match self.errors {
                Some(list) => Some(list.deep_view()),
                None => None,
            },
        }
    }
}

/// What each of the given values holds.
pub open spec fn json_views(values: Seq<serde_json::Value>) -> Seq<JsonView> {
    Seq::new(values.len(), |i: int| json_view(values[i]))
}

/// The `status` member of a reply: an integer from 0 to 255.
pub open spec fn status_of(members: Map<Seq<char>, JsonView>) -> Option<u8> {
    if members.dom().contains("status"@) {
        match members["status"@] {
            JsonView::Number(Some(n)) => if n <= 255 {
                Some(n as u8)
            } else {
                None
            },
            _ => None,
        }
    } else {
        None
    }
}

/// The `request` member of a reply: a string.
pub open spec fn request_of(members: Map<Seq<char>, JsonView>) -> Option<Seq<char>> {
    if members.dom().contains("request"@) {
        match members["request"@] {
            JsonView::String(s) => Some(s),
            _ => None,
        }
    } else {
        None
    }
}

/// The texts of the items of an array, where every item is a string.
pub open spec fn strings_of(items: Seq<JsonView>) -> Option<Seq<Seq<char>>> {
    if forall|i: int| 0 <= i < items.len() ==> #[trigger] items[i] is String {
        Some(Seq::new(items.len(), |i: int| items[i]->String_0))
    } else {
        None
    }
}

/// The `errors` member of a reply: `Some(None)` where the member is absent
/// or `null`, `Some(Some(..))` where it is an array of strings, `None`
/// where it is anything else.
pub open spec fn errors_of(members: Map<Seq<char>, JsonView>) -> Option<Option<Seq<Seq<char>>>> {
    if members.dom().contains("errors"@) {
        match members["errors"@] {
            JsonView::Null => Some(None),
            JsonView::Array(items) => match strings_of(items) {
                Some(list) => Some(Some(list)),
                None => None,
            },
            _ => None,
        }
    } else {
        Some(None)
    }
}

/// The reply that a JSON value stands for: the value is an object with an
/// integer `status` from 0 to 255, a string `request` and, optionally, an
/// array of strings `errors`; other members are passed over. `None` for
/// every other value.
pub open spec fn response_of(json: JsonView) -> Option<ResponseView> {
    match json {
        JsonView::Object(members) => match (
            status_of(members),
            request_of(members),
            errors_of(members),
        ) {
            (Some(status), Some(request), Some(errors)) => Some(
                ResponseView { status, request, errors },
            ),
            _ => None,
        },
        _ => None,
    }
}

/// Copies out the texts of the items, where every item is a string.
fn strings(items: &Vec<serde_json::Value>) -> (out: Option<Vec<String>>)
    ensures
        match strings_of(json_views(items@)) {
            Some(list) => out matches Some(found) && found.deep_view() == list,
            None => out is None,
        },
{
    let ghost views = json_views(items@);
    let mut found: Vec<String> = Vec::new();
    let mut i: usize = 0;
    while i < items.len()
        invariant
            i <= items.len(),
            views == json_views(items@),
            found.len() == i,
            forall|j: int| 0 <= j < i ==> #[trigger] views[j] is String,
            forall|j: int| 0 <= j < i ==> (#[trigger] found@[j])@ == views[j]->String_0,
        decreases items.len() - i,
    {
        match as_string(&items[i]) {
            Some(s) => {
                found.push(s);
            },
            None => {
                assert(!(views[i as int] is String));
                return None;
            },
        }
        i = i + 1;
    }
    assert(found.deep_view() =~= strings_of(views)->0);
    Some(found)
}

impl Response {
    /// Reads a reply from a parsed JSON value.
    pub fn from_value(value: &serde_json::Value) -> (out: Result<Response, NotificationError>)
        ensures
            match response_of(json_view(*value)) {
                Some(reply) => out matches Ok(found) && found@ == reply,
                None => out matches Err(e) && e is Deserialize,
            },
    {
        let status: u8 = match member(value, "status") {
            Some(v) => match as_u64(v) {
                Some(n) => if n <= 255 {
                    n as u8
                } else {
                    return Err(
                        NotificationError::Deserialize(
                            shape_error("invalid value for `status`, expected u8"),
                        ),
                    );
                },
                None => {
                    return Err(
                        NotificationError::Deserialize(
                            shape_error("invalid type for `status`, expected u8"),
                        ),
                    );
                },
            },
            None => {
                return Err(NotificationError::Deserialize(shape_error("missing field `status`")));
            },
        };
        let request: String = match member(value, "request") {
            Some(v) => match as_string(v) {
                Some(s) => s,
                None => {
                    return Err(
                        NotificationError::Deserialize(
                            shape_error("invalid type for `request`, expected a string"),
                        ),
                    );
                },
            },
            None => {
                return Err(NotificationError::Deserialize(shape_error("missing field `request`")));
            },
        };
        let errors: Option<Vec<String>> = match member(value, "errors") {
            Some(v) => if is_null(v) {
                None
            } else {
                let list = match as_array(v) {
                    Some(items) => {
                        assert(json_views(items@) =~= json_view(*v)->Array_0);
                        strings(items)
                    },
                    None => None,
                };
                match list {
                    Some(found) => Some(found),
                    None => {
                        return Err(
                            NotificationError::Deserialize(
                                shape_error(
                                    "invalid type for `errors`, expected a sequence of strings",
                                ),
                            ),
                        );
                    },
                }
            },
            None => None,
        };
        Ok(Response { status, request, errors })
    }

    /// Reads a reply from what parsing a response body gave: the reply that
    /// the value stands for where the body parsed, the diagnostic handed on
    /// where it did not.
    pub fn from_parsed(parsed: Result<serde_json::Value, serde_json::Error>) -> (out: Result<
        Response,
        NotificationError,
    >)
        ensures
            match parsed {
                Ok(value) => match response_of(json_view(value)) {
                    Some(reply) => out matches Ok(found) && found@ == reply,
                    None => out matches Err(e) && e is Deserialize,
                },
                Err(e) => out matches Err(NotificationError::Deserialize(inner)) && inner == e,
            },
    {
        match parsed {
            Ok(value) => Self::from_value(&value),
            Err(e) => Err(NotificationError::Deserialize(e)),
        }
    }

    /// Reads a reply from the body of an HTTP response: parses the body as
    /// JSON and reads the reply from the value.
    pub fn from_json(body: &str) -> (out: Result<Response, NotificationError>)
        ensures
            match parsed_json(body@) {
                Ok(json) => match response_of(json) {
                    Some(reply) => out matches Ok(found) && found@ == reply,
                    None => out matches Err(e) && e is Deserialize,
                },
                Err(diagnostic) => out matches Err(NotificationError::Deserialize(inner)) && inner
                    == diagnostic,
            },
    {
        Self::from_parsed(parse_json(body))
    }
}

} // verus!
