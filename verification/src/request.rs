//! Requests, and the rules by which a text is taken for one.

use crate::json::{
    decode, decoded_view, json_decode, lemma_array_view, lemma_object_view, members_view,
    optional_values_view, optional_view, take_member, values_view, Json, JsonValue,
};
use crate::pairs::{
    entry, lemma_entry_without, lemma_occurrences_step, occurrences, repeated,
};
use crate::response::{
    failure, optional_response_view, Error, ErrorView, Response, ResponseView, INVALID_REQUEST,
    PARSE_ERROR, VERSION,
};
use vstd::prelude::*;

verus! {

/// A request: the protocol version it names, the method it calls, the
/// arguments in order, and the id under which an answer is expected. A
/// request without an id is a notification and is never answered; one whose
/// id is `null` has an id and is answered under it.
#[derive(Debug, PartialEq)]
pub struct Request {
    jsonrpc: String,
    method: String,
    params: Option<Vec<Json>>,
    id: Option<Json>,
}

/// The mathematical value of a [`Request`].
pub struct RequestView {
    pub jsonrpc: Seq<char>,
    pub method: Seq<char>,
    pub params: Option<Seq<JsonValue>>,
    pub id: Option<JsonValue>,
}

impl View for Request {
    type V = RequestView;

    closed spec fn view(&self) -> RequestView {
        RequestView {
            jsonrpc: self.jsonrpc@,
            method: self.method@,
            params: optional_values_view(self.params),
            id: optional_view(self.id),
        }
    }
}

impl RequestView {
    /// The arguments of the call: those given, or none.
    pub open spec fn args(self) -> Seq<JsonValue> {
        match self.params {
            Some(params) => params,
            None => Seq::empty(),
        }
    }
}

/// The first of the members of a request that the object holds more than
/// once, as a complaint; nothing where each is there once at most.
pub open spec fn repeated_member(members: Seq<(Seq<char>, JsonValue)>) -> Option<Seq<char>> {
    if repeated(members, "jsonrpc"@) {
        Some("duplicate field `jsonrpc`"@)
    } else if repeated(members, "method"@) {
        Some("duplicate field `method`"@)
    } else if repeated(members, "params"@) {
        Some("duplicate field `params`"@)
    } else if repeated(members, "id"@) {
        Some("duplicate field `id`"@)
    } else {
        None
    }
}

/// The protocol version that the object names: a string that must be there.
pub open spec fn version_member(members: Seq<(Seq<char>, JsonValue)>) -> Result<
    Seq<char>,
    Seq<char>,
> {
    match entry(members, "jsonrpc"@) {
        Some(JsonValue::String(jsonrpc)) => Ok(jsonrpc),
        Some(_) => Err("invalid type for `jsonrpc`: expected a string"@),
        None => Err("missing field `jsonrpc`"@),
    }
}

/// The name of the method that the object calls: a string that must be
/// there.
pub open spec fn method_member(members: Seq<(Seq<char>, JsonValue)>) -> Result<
    Seq<char>,
    Seq<char>,
> {
    match entry(members, "method"@) {
        Some(JsonValue::String(method)) => Ok(method),
        Some(_) => Err("invalid type for `method`: expected a string"@),
        None => Err("missing field `method`"@),
    }
}

/// The arguments that the object gives: an array, or none where the member
/// is missing or `null`.
pub open spec fn params_member(members: Seq<(Seq<char>, JsonValue)>) -> Result<
    Option<Seq<JsonValue>>,
    Seq<char>,
> {
    match entry(members, "params"@) {
        None => Ok(None),
        Some(JsonValue::Null) => Ok(None),
        Some(JsonValue::Array(params)) => Ok(Some(params)),
        Some(_) => Err("invalid type for `params`: expected an array"@),
    }
}

/// Whether a value can be the id of a request: it is a string, a number or
/// `null`.
pub open spec fn is_id(value: JsonValue) -> bool {
    value is String || value is Number || value is Null
}

/// The id that the object holds: a string, a number or `null` where the
/// member is there, and none where it is missing. An id of `null` is an id.
pub open spec fn id_member(members: Seq<(Seq<char>, JsonValue)>) -> Result<
    Option<JsonValue>,
    Seq<char>,
> {
    match entry(members, "id"@) {
        None => Ok(None),
        Some(id) => if is_id(id) {
            Ok(Some(id))
        } else {
            Err("invalid type for `id`: expected a string, a number or null"@)
        },
    }
}

/// Reads a JSON value as a request. The value is an object that holds none
/// of `jsonrpc`, `method`, `params` and `id` more than once; each of them
/// is as [`version_member`], [`method_member`], [`params_member`] and
/// [`id_member`] say. Other members are passed over. What does not fit is
/// told in a message: that of a repeated member first, then that of the
/// first member, in the order above, that does not fit.
pub open spec fn request_shape(value: JsonValue) -> Result<RequestView, Seq<char>> {
    match value {
        JsonValue::Object(members) => match repeated_member(members) {
            Some(complaint) => Err(complaint),
            None => match (
                version_member(members),
                method_member(members),
                params_member(members),
                id_member(members),
            ) {
                (Err(complaint), _, _, _) => Err(complaint),
                (Ok(_), Err(complaint), _, _) => Err(complaint),
                (Ok(_), Ok(_), Err(complaint), _) => Err(complaint),
                (Ok(_), Ok(_), Ok(_), Err(complaint)) => Err(complaint),
                (Ok(jsonrpc), Ok(method), Ok(params), Ok(id)) => Ok(
                    RequestView { jsonrpc, method, params, id },
                ),
            },
        },
        _ => Err("invalid type: expected a request object"@),
    }
}

/// The answer to a text that is no request: a parse error that carries the
/// complaint, under no id.
pub open spec fn parse_failure(message: Seq<char>) -> ResponseView {
    failure(
        ErrorView {
            code: PARSE_ERROR as int,
            message: "Parse error"@,
            data: Some(JsonValue::String(message)),
        },
        None,
    )
}

/// The answer to a call in another protocol version: an invalid-request
/// error that carries the version, under the call's id.
pub open spec fn version_failure(jsonrpc: Seq<char>, id: JsonValue) -> ResponseView {
    failure(
        ErrorView {
            code: INVALID_REQUEST as int,
            message: "Invalid Request"@,
            data: Some(JsonValue::String("wrong version "@ + jsonrpc)),
        },
        Some(id),
    )
}

/// What becomes of a decoded text. A request in version 2.0 is passed on.
/// One in another version is answered with [`version_failure`] if it has an
/// id, and dropped without an answer if it has none. Anything else is
/// answered with [`parse_failure`].
pub open spec fn parse_outcome(decoded: Result<JsonValue, Seq<char>>) -> Result<
    RequestView,
    Option<ResponseView>,
> {
    match decoded {
        Err(message) => Err(Some(parse_failure(message))),
        Ok(value) => match request_shape(value) {
            Err(message) => Err(Some(parse_failure(message))),
            Ok(request) => if request.jsonrpc == VERSION@ {
                Ok(request)
            } else {
                match request.id {
                    Some(id) => Err(Some(version_failure(request.jsonrpc, id))),
                    None => Err(None),
                }
            },
        },
    }
}

/// The value of a request read from JSON.
pub open spec fn shaped_view(shaped: Result<Request, String>) -> Result<RequestView, Seq<char>> {
    match shaped {
        Ok(request) => Ok(request@),
        Err(message) => Err(message@),
    }
}

/// The value of a parsing result.
pub open spec fn parsed_view(parsed: Result<Request, Option<Response>>) -> Result<
    RequestView,
    Option<ResponseView>,
> {
    match parsed {
        Ok(request) => Ok(request@),
        Err(response) => Err(optional_response_view(response)),
    }
}

proof fn lemma_keys_differ()
    ensures
        "jsonrpc"@ != "method"@,
        "jsonrpc"@ != "params"@,
        "jsonrpc"@ != "id"@,
        "method"@ != "params"@,
        "method"@ != "id"@,
        "params"@ != "id"@,
{
    reveal_strlit("jsonrpc");
    reveal_strlit("method");
    reveal_strlit("params");
    reveal_strlit("id");
    assert("jsonrpc"@.len() == 7);
    assert("id"@.len() == 2);
    assert("method"@[0] == 'm');
    assert("params"@[0] == 'p');
}

/// Whether more than one of the members has `key`.
pub fn occurs_twice(members: &Vec<(String, Json)>, key: &str) -> (twice: bool)
    ensures
        twice == repeated(members_view(members@), key@),
{
    let wanted = key.to_owned();
    let ghost all = members_view(members@);
    let mut count: usize = 0;
    let mut i: usize = 0;
    while i < members.len()
        invariant
            i <= members.len(),
            all == members_view(members@),
            wanted@ == key@,
            count == occurrences(all.take(i as int), key@),
            count <= i,
        decreases members.len() - i,
    {
        proof {
            lemma_occurrences_step(all, i as int, key@);
        }
        if members[i].0 == wanted {
            count = count + 1;
        }
        i = i + 1;
    }
    proof {
        assert(all.take(i as int) =~= all);
    }
    count > 1
}

impl Request {
    /// Parses a text into a request, or into what is to be done instead:
    /// an answer to send, or nothing.
    pub fn parse(data: &[u8]) -> (parsed: Result<Request, Option<Response>>)
        ensures
            parsed_view(parsed) == parse_outcome(json_decode(data@)),
    {
        Request::from_decoded(decode(data))
    }

    /// Decides what becomes of a decoded text.
    pub fn from_decoded(decoded: Result<Json, String>) -> (parsed: Result<
        Request,
        Option<Response>,
    >)
        ensures
            parsed_view(parsed) == parse_outcome(decoded_view(decoded)),
    {
        let shaped = match decoded {
            Ok(value) => Request::from_json(value),
            Err(message) => Err(message),
        };
        match shaped {
            Err(message) => {
                let error = Error::parse_error(Some(Json::String(message)));
                Err(Some(Response::error(error, None)))
            },
            Ok(request) => {
                let version = VERSION.to_owned();
                if request.jsonrpc == version {
                    Ok(request)
                } else {
                    let Request { jsonrpc, method: _, params: _, id } = request;
                    match id {
                        Some(id) => {
                            let mut text = "wrong version ".to_owned();
                            text.append(jsonrpc.as_str());
                            let error = Error::invalid_request(Some(Json::String(text)));
                            Err(Some(Response::error(error, Some(id))))
                        },
                        None => Err(None),
                    }
                }
            },
        }
    }

    /// Reads a JSON value as a request.
    pub fn from_json(value: Json) -> (shaped: Result<Request, String>)
        ensures
            shaped_view(shaped) == request_shape(value@),
    {
        let mut members = match value {
            Json::Object(members) => members,
            _ => {
                return Err("invalid type: expected a request object".to_owned());
            },
        };
        proof {
            lemma_object_view(members);
            lemma_keys_differ();
        }
        if occurs_twice(&members, "jsonrpc") {
            return Err("duplicate field `jsonrpc`".to_owned());
        }
        if occurs_twice(&members, "method") {
            return Err("duplicate field `method`".to_owned());
        }
        if occurs_twice(&members, "params") {
            return Err("duplicate field `params`".to_owned());
        }
        if occurs_twice(&members, "id") {
            return Err("duplicate field `id`".to_owned());
        }
        let ghost all = members_view(members@);
        let jsonrpc = match take_member(&mut members, "jsonrpc") {
            Some(Json::String(jsonrpc)) => jsonrpc,
            Some(_) => {
                return Err("invalid type for `jsonrpc`: expected a string".to_owned());
            },
            None => {
                return Err("missing field `jsonrpc`".to_owned());
            },
        };
        let ghost second = members_view(members@);
        proof {
            lemma_entry_without(all, "jsonrpc"@, "method"@);
            lemma_entry_without(all, "jsonrpc"@, "params"@);
            lemma_entry_without(all, "jsonrpc"@, "id"@);
        }
        let method = match take_member(&mut members, "method") {
            Some(Json::String(method)) => method,
            Some(_) => {
                return Err("invalid type for `method`: expected a string".to_owned());
            },
            None => {
                return Err("missing field `method`".to_owned());
            },
        };
        let ghost third = members_view(members@);
        proof {
            lemma_entry_without(second, "method"@, "params"@);
            lemma_entry_without(second, "method"@, "id"@);
        }
        let params = match take_member(&mut members, "params") {
            None => None,
            Some(Json::Null) => None,
            Some(Json::Array(items)) => {
                proof {
                    lemma_array_view(items);
                }
                Some(items)
            },
            Some(_) => {
                return Err("invalid type for `params`: expected an array".to_owned());
            },
        };
        proof {
            lemma_entry_without(third, "params"@, "id"@);
        }
        let id = match take_member(&mut members, "id") {
            None => None,
            Some(Json::String(id)) => Some(Json::String(id)),
            Some(Json::Number(id)) => Some(Json::Number(id)),
            Some(Json::Null) => Some(Json::Null),
            Some(_) => {
                return Err(
                    "invalid type for `id`: expected a string, a number or null".to_owned(),
                );
            },
        };
        Ok(Request { jsonrpc, method, params, id })
    }

    /// The protocol version that the request names.
    pub fn version(&self) -> (version: &str)
        ensures
            version@ == self@.jsonrpc,
    {
        self.jsonrpc.as_str()
    }

    /// The name of the method that the request calls.
    pub fn method(&self) -> (method: &str)
        ensures
            method@ == self@.method,
    {
        self.method.as_str()
    }

    /// The arguments, where the request gives any.
    pub fn params(&self) -> (params: &Option<Vec<Json>>)
        ensures
            optional_values_view(*params) == self@.params,
    {
        &self.params
    }

    /// The id, where the request has one.
    pub fn id(&self) -> (id: &Option<Json>)
        ensures
            optional_view(*id) == self@.id,
    {
        &self.id
    }

    /// Takes the request apart into the method's name, the arguments and
    /// the id.
    pub fn into_parts(self) -> (parts: (String, Vec<Json>, Option<Json>))
        ensures
            parts.0@ == self@.method,
            values_view(parts.1@) == self@.args(),
            optional_view(parts.2) == self@.id,
    {
        let Request { jsonrpc: _, method, params, id } = self;
        let args = match params {
            Some(params) => params,
            None => Vec::new(),
        };
        proof {
            assert(values_view(args@) =~= self@.args());
        }
        (method, args, id)
    }
}

/// A request keeps the id that its object holds, `null` like any other: it
/// has no id only where the object has no such member.
pub proof fn lemma_id_is_kept(members: Seq<(Seq<char>, JsonValue)>)
    requires
        request_shape(JsonValue::Object(members)) is Ok,
    ensures
        request_shape(JsonValue::Object(members))->Ok_0.id == entry(members, "id"@),
        entry(members, "id"@) == Some(JsonValue::Null) ==> request_shape(
            JsonValue::Object(members),
        )->Ok_0.id == Some(JsonValue::Null),
{
}

/// An object that reads as a request in another version than 2.0 is
/// answered under its id, also under the id `null`, and dropped only where
/// it has no id.
pub proof fn lemma_wrong_version_is_answered_under_its_id(value: JsonValue, request: RequestView)
    requires
        request_shape(value) == Ok::<RequestView, Seq<char>>(request),
        request.jsonrpc != VERSION@,
    ensures
        parse_outcome(Ok(value)) == Err::<RequestView, Option<ResponseView>>(
            match request.id {
                Some(id) => Some(version_failure(request.jsonrpc, id)),
                None => None,
            },
        ),
{
}

} // verus!
