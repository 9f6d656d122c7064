//! Responses and error objects, and their shape on the wire.

use crate::json::{
    encode, encoded_view, json_encode, lemma_object_view, members_view, optional_view, Json,
    JsonNumber, JsonValue,
};
use crate::pairs::{entry, lemma_entry_absent, lemma_entry_found};
use vstd::prelude::*;

verus! {

/// The protocol version that every response carries.
pub const VERSION: &'static str = "2.0";

/// The text was not a request at all.
pub const PARSE_ERROR: i32 = -32700;

/// The request names another protocol version.
pub const INVALID_REQUEST: i32 = -32600;

/// No method is registered under the requested name.
pub const METHOD_NOT_FOUND: i32 = -32601;

/// The arguments do not fit the method.
pub const INVALID_PARAMS: i32 = -32602;

/// The server failed while it handled the call.
pub const INTERNAL_ERROR: i32 = -32603;

/// The lowest code that an application may give to an error of its own.
pub const SERVER_ERROR_MIN: i32 = -32099;

/// The highest code that an application may give to an error of its own, and
/// the one it gets when it names none.
pub const SERVER_ERROR_MAX: i32 = -32000;

/// An error object: a code, a message and optional data.
#[derive(Debug, PartialEq)]
pub struct Error {
    code: i32,
    message: String,
    data: Option<Json>,
}

/// The mathematical value of an [`Error`].
pub struct ErrorView {
    pub code: int,
    pub message: Seq<char>,
    pub data: Option<JsonValue>,
}

impl View for Error {
    type V = ErrorView;

    closed spec fn view(&self) -> ErrorView {
        ErrorView { code: self.code as int, message: self.message@, data: optional_view(self.data) }
    }
}

/// Whether an application may give `code` to an error of its own.
pub open spec fn in_server_band(code: int) -> bool {
    SERVER_ERROR_MIN <= code <= SERVER_ERROR_MAX
}

/// The number that stands for an error code in JSON.
pub open spec fn code_number(code: int) -> JsonNumber {
    if code >= 0 {
        JsonNumber::Unsigned(code as u64)
    } else {
        JsonNumber::Signed(code as i64)
    }
}

/// An error object as a JSON object: its code, its message and its data, the
/// data being `null` where there is none.
pub open spec fn error_json(error: ErrorView) -> JsonValue {
    JsonValue::Object(
        seq![
            ("code"@, JsonValue::Number(code_number(error.code))),
            ("message"@, JsonValue::String(error.message)),
            (
                "data"@,
                match error.data {
                    Some(data) => data,
                    None => JsonValue::Null,
                },
            ),
        ],
    )
}

impl Error {
    /// An error object with the given code, message and data.
    pub fn new(code: i32, message: &str, data: Option<Json>) -> (error: Error)
        ensures
            error@ == (ErrorView {
                code: code as int,
                message: message@,
                data: optional_view(data),
            }),
    {
        Error { code, message: message.to_owned(), data }
    }

    /// The error for a text that is no request.
    pub fn parse_error(data: Option<Json>) -> (error: Error)
        ensures
            error@ == (ErrorView {
                code: PARSE_ERROR as int,
                message: "Parse error"@,
                data: optional_view(data),
            }),
    {
        Error::new(PARSE_ERROR, "Parse error", data)
    }

    /// The error for a request of another protocol version.
    pub fn invalid_request(data: Option<Json>) -> (error: Error)
        ensures
            error@ == (ErrorView {
                code: INVALID_REQUEST as int,
                message: "Invalid Request"@,
                data: optional_view(data),
            }),
    {
        Error::new(INVALID_REQUEST, "Invalid Request", data)
    }

    /// The error for a call of a method that is not registered.
    pub fn method_not_found(data: Option<Json>) -> (error: Error)
        ensures
            error@ == (ErrorView {
                code: METHOD_NOT_FOUND as int,
                message: "Method not found"@,
                data: optional_view(data),
            }),
    {
        Error::new(METHOD_NOT_FOUND, "Method not found", data)
    }

    /// The error for arguments that do not fit the method.
    pub fn invalid_params(data: Option<Json>) -> (error: Error)
        ensures
            error@ == (ErrorView {
                code: INVALID_PARAMS as int,
                message: "Invalid params"@,
                data: optional_view(data),
            }),
    {
        Error::new(INVALID_PARAMS, "Invalid params", data)
    }

    /// The error for a failure inside the server.
    pub fn internal_error(data: Option<Json>) -> (error: Error)
        ensures
            error@ == (ErrorView {
                code: INTERNAL_ERROR as int,
                message: "Internal error"@,
                data: optional_view(data),
            }),
    {
        Error::new(INTERNAL_ERROR, "Internal error", data)
    }

    /// An error of the application's own. Its code lies in the band from
    /// `SERVER_ERROR_MIN` to `SERVER_ERROR_MAX`; without a code it gets
    /// `SERVER_ERROR_MAX`.
    pub fn server_error(code: Option<i32>, message: &str, data: Option<Json>) -> (error: Error)
        requires
            code matches Some(c) ==> in_server_band(c as int),
        ensures
            in_server_band(error@.code),
            error@ == (ErrorView {
                code: match code {
                    Some(c) => c as int,
                    None => SERVER_ERROR_MAX as int,
                },
                message: message@,
                data: optional_view(data),
            }),
    {
        let code = match code {
            Some(c) => c,
            None => SERVER_ERROR_MAX,
        };
        Error::new(code, message, data)
    }

    /// Whether `code` lies in the band for errors of the application's own.
    pub fn is_server_code(code: i32) -> (inside: bool)
        ensures
            inside == in_server_band(code as int),
    {
        SERVER_ERROR_MIN <= code && code <= SERVER_ERROR_MAX
    }

    /// The error's code.
    pub fn code(&self) -> (code: i32)
        ensures
            code == self@.code,
    {
        self.code
    }

    /// The error's message.
    pub fn message(&self) -> (message: &str)
        ensures
            message@ == self@.message,
    {
        self.message.as_str()
    }

    /// The error's data.
    pub fn data(&self) -> (data: &Option<Json>)
        ensures
            optional_view(*data) == self@.data,
    {
        &self.data
    }

    /// The error as a JSON object.
    pub fn into_json(self) -> (json: Json)
        ensures
            json@ == error_json(self@),
    {
        let Error { code, message, data } = self;
        let number = if code >= 0 {
            JsonNumber::Unsigned(code as u64)
        } else {
            JsonNumber::Signed(code as i64)
        };
        let data = match data {
            Some(data) => data,
            None => Json::Null,
        };
        let mut members: Vec<(String, Json)> = Vec::new();
        members.push(("code".to_owned(), Json::Number(number)));
        members.push(("message".to_owned(), Json::String(message)));
        members.push(("data".to_owned(), data));
        proof {
            lemma_object_view(members);
            assert(members_view(members@) =~= error_json(self@)->Object_0);
        }
        Json::Object(members)
    }
}

/// A response: either a result or an error, and the id of the request that
/// it answers.
#[derive(Debug, PartialEq)]
pub struct Response {
    jsonrpc: &'static str,
    result: Option<Json>,
    error: Option<Error>,
    id: Option<Json>,
}

/// The mathematical value of a [`Response`].
pub struct ResponseView {
    pub jsonrpc: Seq<char>,
    pub result: Option<JsonValue>,
    pub error: Option<ErrorView>,
    pub id: Option<JsonValue>,
}

/// The value of an optional error object.
pub open spec fn optional_error_view(error: Option<Error>) -> Option<ErrorView> {
    match error {
        Some(e) => Some(e@),
        None => None,
    }
}

/// The value of an optional response.
pub open spec fn optional_response_view(response: Option<Response>) -> Option<ResponseView> {
    match response {
        Some(r) => Some(r@),
        None => None,
    }
}

impl View for Response {
    type V = ResponseView;

    closed spec fn view(&self) -> ResponseView {
        ResponseView {
            jsonrpc: self.jsonrpc@,
            result: optional_view(self.result),
            error: optional_error_view(self.error),
            id: optional_view(self.id),
        }
    }
}

impl ResponseView {
    /// A response names the protocol version and holds a result or an error,
    /// never both and never neither.
    pub open spec fn wf(self) -> bool {
        &&& self.jsonrpc == VERSION@
        &&& self.result is Some <==> self.error is None
    }
}

/// The response that reports `result` for the request with `id`.
pub open spec fn success(result: JsonValue, id: JsonValue) -> ResponseView {
    ResponseView { jsonrpc: VERSION@, result: Some(result), error: None, id: Some(id) }
}

/// The response that reports `error` for the request with `id`, or for a
/// request whose id is not known.
pub open spec fn failure(error: ErrorView, id: Option<JsonValue>) -> ResponseView {
    ResponseView { jsonrpc: VERSION@, result: None, error: Some(error), id }
}

/// A response as a JSON object: the version; the result or the error,
/// whichever there is; and the id, which is `null` where none is known.
pub open spec fn response_json(response: ResponseView) -> JsonValue {
    JsonValue::Object(
        seq![("jsonrpc"@, JsonValue::String(response.jsonrpc))] + (match response.result {
            Some(result) => seq![("result"@, result)],
            None => seq![],
        }) + (match response.error {
            Some(error) => seq![("error"@, error_json(error))],
            None => seq![],
        }) + seq![
            (
                "id"@,
                match response.id {
                    Some(id) => id,
                    None => JsonValue::Null,
                },
            ),
        ],
    )
}

impl Response {
    #[verifier::type_invariant]
    spec fn valid(self) -> bool {
        self@.wf()
    }

    /// The response that reports `result` for the request with `id`.
    pub fn ok(result: Json, id: Json) -> (response: Response)
        ensures
            response@ == success(result@, id@),
            response@.wf(),
    {
        Response { jsonrpc: VERSION, result: Some(result), error: None, id: Some(id) }
    }

    /// The response that reports `error` for the request with `id`, or for a
    /// request whose id is not known.
    pub fn error(error: Error, id: Option<Json>) -> (response: Response)
        ensures
            response@ == failure(error@, optional_view(id)),
            response@.wf(),
    {
        Response { jsonrpc: VERSION, result: None, error: Some(error), id }
    }

    /// The result, if the call succeeded.
    pub fn result(&self) -> (result: &Option<Json>)
        ensures
            optional_view(*result) == self@.result,
            self@.wf(),
    {
        proof {
            use_type_invariant(self);
        }
        &self.result
    }

    /// The error, if the call failed.
    pub fn failure(&self) -> (error: &Option<Error>)
        ensures
            optional_error_view(*error) == self@.error,
            self@.wf(),
    {
        proof {
            use_type_invariant(self);
        }
        &self.error
    }

    /// The id of the request that this response answers.
    pub fn id(&self) -> (id: &Option<Json>)
        ensures
            optional_view(*id) == self@.id,
    {
        &self.id
    }

    /// The protocol version.
    pub fn version(&self) -> (version: &'static str)
        ensures
            version@ == self@.jsonrpc,
    {
        self.jsonrpc
    }

    /// The response as a JSON object.
    pub fn into_json(self) -> (json: Json)
        ensures
            json@ == response_json(self@),
            self@.wf(),
    {
        proof {
            use_type_invariant(&self);
        }
        let Response { jsonrpc, result, error, id } = self;
        let mut members: Vec<(String, Json)> = Vec::new();
        members.push(("jsonrpc".to_owned(), Json::String(jsonrpc.to_owned())));
        match result {
            Some(result) => {
                members.push(("result".to_owned(), result));
            },
            None => {},
        }
        match error {
            Some(error) => {
                members.push(("error".to_owned(), error.into_json()));
            },
            None => {},
        }
        let id = match id {
            Some(id) => id,
            None => Json::Null,
        };
        members.push(("id".to_owned(), id));
        proof {
            lemma_object_view(members);
            assert(members_view(members@) =~= response_json(self@)->Object_0);
        }
        Json::Object(members)
    }

    /// The response as JSON text, or nothing where the encoder gives up.
    pub fn into_bytes(self) -> (text: Option<Vec<u8>>)
        ensures
            encoded_view(text) == json_encode(response_json(self@)),
            self@.wf(),
    {
        let json = self.into_json();
        encode(&json)
    }
}

/// What the JSON object of a response holds under the key of its error:
/// the error object, or nothing.
pub open spec fn error_member(response: ResponseView) -> Option<JsonValue> {
    match response.error {
        Some(error) => Some(error_json(error)),
        None => None,
    }
}

/// Read back key by key, the JSON object of a well-formed response names
/// version 2.0; it holds the result or the error, always one and never
/// both; and it holds the id, which is `null` where none is known.
pub proof fn lemma_response_json_shape(response: ResponseView)
    requires
        response.wf(),
    ensures
        response_json(response) matches JsonValue::Object(members) && {
            &&& entry(members, "jsonrpc"@) == Some(JsonValue::String("2.0"@))
            &&& entry(members, "result"@) == response.result
            &&& entry(members, "error"@) == error_member(response)
            &&& entry(members, "result"@) is Some <==> entry(members, "error"@) is None
            &&& entry(members, "id"@) == Some(
                match response.id {
                    Some(id) => id,
                    None => JsonValue::Null,
                },
            )
        },
{
    reveal_strlit("jsonrpc");
    reveal_strlit("result");
    reveal_strlit("error");
    reveal_strlit("id");
    reveal_strlit("2.0");
    let members = response_json(response)->Object_0;
    let n = members.len() as int;
    assert(members[0].0 == "jsonrpc"@);
    assert(members[n - 1].0 == "id"@);
    lemma_entry_found(members, "id"@, n - 1);
    lemma_entry_found(members, "jsonrpc"@, 0);
    if response.result is Some {
        assert(members[1].0 == "result"@);
        lemma_entry_found(members, "result"@, 1);
        lemma_entry_absent(members, "error"@);
    } else {
        assert(members[1].0 == "error"@);
        lemma_entry_found(members, "error"@, 1);
        lemma_entry_absent(members, "result"@);
    }
}

/// A failure that cannot happen has no value, so this conversion is never
/// run; it is here for methods that cannot fail.
impl From<core::convert::Infallible> for Error {
    fn from(never: core::convert::Infallible) -> (error: Error) {
        Error::internal_error(None)
    }
}

impl vstd::std_specs::convert::FromSpecImpl<core::convert::Infallible> for Error {
    open spec fn obeys_from_spec() -> bool {
        false
    }

    open spec fn from_spec(never: core::convert::Infallible) -> Error {
        arbitrary()
    }
}

} // verus!
