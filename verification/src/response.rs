use vstd::prelude::*;

verus! {

/// `serde_json::Error` is carried opaquely as the failure of a conversion.
#[verifier::external_type_specification]
#[verifier::external_body]
pub struct ExJsonError(serde_json::Error);

/// The body of an HTTP reply.
pub enum ReplyBody {
    /// No body.
    Empty,
    /// A JSON body, written as is.
    Json(serde_json::Value),
    /// A JSON error body, written as `{ "error": message }`.
    ErrorMessage(String),
}

/// An HTTP reply: the status code and the body.
pub struct HttpReply {
    pub status: u16,
    pub body: ReplyBody,
}

/// Whether `code` is a status code that HTTP accepts (100 to 999).
pub open spec fn valid_status(code: u16) -> bool {
    100 <= code <= 999
}

/// The status a reply carries for a requested `code`: the code itself when
/// it is valid, otherwise 500 Internal Server Error.
pub open spec fn effective_status(code: u16) -> u16 {
    if valid_status(code) {
        code
    } else {
        500
    }
}

/// A reply with an error message body.
pub open spec fn error_reply(r: HttpReply, status: u16, message: Seq<char>) -> bool {
    r.status == status && r.body is ErrorMessage && r.body->ErrorMessage_0@ == message
}

/// What a handler answers before its data is serialised: data of the
/// domain with the status to send it with, or a reply that is complete.
pub enum Answer<T> {
    Data { status: u16, data: T },
    Reply(HttpReply),
}

/// Convenience helpers for building HTTP replies.
pub struct Response;

impl Response {
    /// 200 OK with a JSON body.
    pub fn json(data: serde_json::Value) -> (r: HttpReply)
        ensures
            r.status == 200,
            r.body == ReplyBody::Json(data),
    {
        HttpReply { status: 200, body: ReplyBody::Json(data) }
    }

    /// 200 OK with an empty body.
    pub fn ok() -> (r: HttpReply)
        ensures
            r.status == 200,
            r.body is Empty,
    {
        HttpReply { status: 200, body: ReplyBody::Empty }
    }

    /// 201 Created with a JSON body.
    pub fn created(data: serde_json::Value) -> (r: HttpReply)
        ensures
            r.status == 201,
            r.body == ReplyBody::Json(data),
    {
        HttpReply { status: 201, body: ReplyBody::Json(data) }
    }

    /// 204 No Content with an empty body.
    pub fn no_content() -> (r: HttpReply)
        ensures
            r.status == 204,
            r.body is Empty,
    {
        HttpReply { status: 204, body: ReplyBody::Empty }
    }

    /// An arbitrary status code with an empty body; an invalid code becomes
    /// 500 Internal Server Error.
    pub fn status(code: u16) -> (r: HttpReply)
        ensures
            r.status == effective_status(code),
            r.body is Empty,
    {
        let status = if 100 <= code && code <= 999 {
            code
        } else {
            500
        };
        HttpReply { status, body: ReplyBody::Empty }
    }

    /// 404 Not Found with a JSON error message.
    pub fn not_found(message: &str) -> (r: HttpReply)
        ensures
            error_reply(r, 404, message@),
    {
        HttpReply { status: 404, body: ReplyBody::ErrorMessage(message.to_string()) }
    }

    /// 401 Unauthorized with a JSON error message.
    pub fn unauthorized(message: &str) -> (r: HttpReply)
        ensures
            error_reply(r, 401, message@),
    {
        HttpReply { status: 401, body: ReplyBody::ErrorMessage(message.to_string()) }
    }

    /// 400 Bad Request with a JSON error message.
    pub fn bad_request(message: &str) -> (r: HttpReply)
        ensures
            error_reply(r, 400, message@),
    {
        HttpReply { status: 400, body: ReplyBody::ErrorMessage(message.to_string()) }
    }

    /// 500 Internal Server Error with a JSON error message.
    pub fn internal_error(message: &str) -> (r: HttpReply)
        ensures
            error_reply(r, 500, message@),
    {
        HttpReply { status: 500, body: ReplyBody::ErrorMessage(message.to_string()) }
    }
}

/// An error body: either a simple message, written as `{ "error": message }`,
/// or a structured JSON object written as is.
pub enum ErrorResponse {
    Message(String),
    Object(serde_json::Value),
}

impl ErrorResponse {
    /// A simple message error.
    pub fn message(msg: &str) -> (r: Self)
        ensures
            r is Message && r->Message_0@ == msg@,
    {
        ErrorResponse::Message(msg.to_string())
    }

    /// A structured error from the JSON conversion of a value; when that
    /// conversion failed, the error reads "serialization failed".
    pub fn object(converted: Result<serde_json::Value, serde_json::Error>) -> (r: Self)
        ensures
            match converted {
                Ok(v) => r == ErrorResponse::Object(v),
                Err(_) => r is Message && r->Message_0@ == seq![
                    's', 'e', 'r', 'i', 'a', 'l', 'i', 'z', 'a', 't', 'i', 'o', 'n', ' ', 'f', 'a',
                    'i', 'l', 'e', 'd',
                ],
            },
    {
        match converted {
            Ok(v) => ErrorResponse::Object(v),
            Err(_) => {
                proof { reveal_strlit("serialization failed"); }
                ErrorResponse::Message("serialization failed".to_string())
            },
        }
    }

    /// The JSON body of the error.
    pub fn into_json(self) -> (r: ReplyBody)
        ensures
            match self {
                ErrorResponse::Message(m) => r == ReplyBody::ErrorMessage(m),
                ErrorResponse::Object(v) => r == ReplyBody::Json(v),
            },
    {
        match self {
            ErrorResponse::Message(m) => ReplyBody::ErrorMessage(m),
            ErrorResponse::Object(v) => ReplyBody::Json(v),
        }
    }
}

impl From<String> for ErrorResponse {
    /// A simple message error.
    fn from(msg: String) -> (r: Self) {
        ErrorResponse::Message(msg)
    }
}

impl vstd::std_specs::convert::FromSpecImpl<String> for ErrorResponse {
    open spec fn obeys_from_spec() -> bool {
        true
    }

    open spec fn from_spec(v: String) -> Self {
        ErrorResponse::Message(v)
    }
}

impl From<serde_json::Value> for ErrorResponse {
    /// A structured error object.
    fn from(obj: serde_json::Value) -> (r: Self) {
        ErrorResponse::Object(obj)
    }
}

impl vstd::std_specs::convert::FromSpecImpl<serde_json::Value> for ErrorResponse {
    open spec fn obeys_from_spec() -> bool {
        true
    }

    open spec fn from_spec(v: serde_json::Value) -> Self {
        ErrorResponse::Object(v)
    }
}

/// Errors of the dependency-injection layer.
pub enum DiError {
    InjectionError(String),
}

/// `"Dependency injection error: "`
pub open spec fn injection_prefix() -> Seq<char> {
    seq![
        'D', 'e', 'p', 'e', 'n', 'd', 'e', 'n', 'c', 'y', ' ', 'i', 'n', 'j', 'e', 'c', 't', 'i',
        'o', 'n', ' ', 'e', 'r', 'r', 'o', 'r', ':', ' ',
    ]
}

/// `"Routing error: "`
pub open spec fn routing_prefix() -> Seq<char> {
    seq!['R', 'o', 'u', 't', 'i', 'n', 'g', ' ', 'e', 'r', 'r', 'o', 'r', ':', ' ']
}

/// `"Middleware error: "`
pub open spec fn middleware_prefix() -> Seq<char> {
    seq!['M', 'i', 'd', 'd', 'l', 'e', 'w', 'a', 'r', 'e', ' ', 'e', 'r', 'r', 'o', 'r', ':', ' ']
}

impl DiError {
    /// The human-readable text of the error.
    pub open spec fn text(self) -> Seq<char> {
        match self {
            DiError::InjectionError(m) => injection_prefix() + m@,
        }
    }

    /// The human-readable text of the error.
    pub fn to_message(&self) -> (r: String)
        ensures
            r@ == self.text(),
    {
        match self {
            DiError::InjectionError(m) => {
                proof { reveal_strlit("Dependency injection error: "); }
                let mut s = "Dependency injection error: ".to_string();
                s.append(m.as_str());
                s
            },
        }
    }

    /// The reply for the error: 500 with the bare message.
    pub fn into_response(self) -> (r: HttpReply)
        ensures
            match self {
                DiError::InjectionError(m) => error_reply(r, 500, m@),
            },
    {
        match self {
            DiError::InjectionError(m) => HttpReply {
                status: 500,
                body: ReplyBody::ErrorMessage(m),
            },
        }
    }
}

/// Errors of the framework.
pub enum FrameworkError {
    InjectionError(String),
    RoutingError(String),
    MiddlewareError(String),
}

impl FrameworkError {
    /// The human-readable text of the error.
    pub open spec fn text(self) -> Seq<char> {
        match self {
            FrameworkError::InjectionError(m) => injection_prefix() + m@,
            FrameworkError::RoutingError(m) => routing_prefix() + m@,
            FrameworkError::MiddlewareError(m) => middleware_prefix() + m@,
        }
    }

    /// The human-readable text of the error.
    pub fn to_message(&self) -> (r: String)
        ensures
            r@ == self.text(),
    {
        proof {
            reveal_strlit("Dependency injection error: ");
            reveal_strlit("Routing error: ");
            reveal_strlit("Middleware error: ");
        }
        match self {
            FrameworkError::InjectionError(m) => {
                let mut s = "Dependency injection error: ".to_string();
                s.append(m.as_str());
                s
            },
            FrameworkError::RoutingError(m) => {
                let mut s = "Routing error: ".to_string();
                s.append(m.as_str());
                s
            },
            FrameworkError::MiddlewareError(m) => {
                let mut s = "Middleware error: ".to_string();
                s.append(m.as_str());
                s
            },
        }
    }

    /// The framework error for a dependency-injection error: an injection
    /// error carrying the text of `err`.
    pub fn from_di(err: DiError) -> (r: Self)
        ensures
            r is InjectionError && r->InjectionError_0@ == err.text(),
    {
        FrameworkError::InjectionError(err.to_message())
    }

    /// The status code the error is answered with.
    pub open spec fn status_of(self) -> u16 {
        match self {
            FrameworkError::InjectionError(_) => 500,
            FrameworkError::RoutingError(_) => 404,
            FrameworkError::MiddlewareError(_) => 500,
        }
    }

    /// The bare message the error carries.
    pub open spec fn message_of(self) -> Seq<char> {
        match self {
            FrameworkError::InjectionError(m) => m@,
            FrameworkError::RoutingError(m) => m@,
            FrameworkError::MiddlewareError(m) => m@,
        }
    }

    /// The reply for the error: injection and middleware errors are 500,
    /// routing errors 404, each with `{ "error": message }`.
    pub fn into_response(self) -> (r: HttpReply)
        ensures
            error_reply(r, self.status_of(), self.message_of()),
    {
        let (status, error_response) = match self {
            FrameworkError::InjectionError(m) => (500u16, ErrorResponse::Message(m)),
            FrameworkError::RoutingError(m) => (404u16, ErrorResponse::Message(m)),
            FrameworkError::MiddlewareError(m) => (500u16, ErrorResponse::Message(m)),
        };
        HttpReply { status, body: error_response.into_json() }
    }
}

} // verus!
