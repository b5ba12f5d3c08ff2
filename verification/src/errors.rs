//! What can go wrong with a request, and the problem document that each
//! failure is answered with.

use vstd::prelude::*;
use vstd::string::*;
use vstd::utf8::encode_utf8;

verus! {

/// The two query parameters of a request.
#[derive(Clone, Copy, Debug, PartialEq, Eq, Structural)]
pub enum Param {
    Width,
    Height,
}

impl Param {
    /// The parameter's name in the query string.
    pub open spec fn text(self) -> Seq<char> {
        match self {
            Param::Width => "width"@,
            Param::Height => "height"@,
        }
    }

    /// The parameter's name in the query string.
    pub fn name(self) -> (r: &'static str)
        ensures
            r@ == self.text(),
    {
        match self {
            Param::Width => "width",
            Param::Height => "height",
        }
    }
}

/// Why no output format could be chosen.
#[derive(Clone, Debug, PartialEq, Eq)]
pub enum NegotiationError {
    /// The `Accept` header does not follow the header's syntax. Holds what the
    /// parser said of it.
    Malformed(String),
    /// The header is well formed and accepts none of the supported formats.
    NoAcceptableFormat,
}

/// Why the requested size could not be read.
#[derive(Clone, Copy, Debug, PartialEq, Eq, Structural)]
pub enum ParamError {
    /// The query has no parameter of this name.
    Missing(Param),
    /// The parameter is no positive integer that fits in 32 bits.
    Invalid(Param),
}

/// Why the object store handed out no bytes.
#[derive(Clone, Copy, Debug, PartialEq, Eq, Structural)]
pub enum ObjectError {
    /// There is no object under the key.
    NotFound,
    /// The object could not be retrieved: a timeout, a lost connection, a
    /// denied permission.
    TransientFailure,
}

/// Every way a request can fail. A failure ends the request: nothing is
/// retried.
#[derive(Clone, Debug, PartialEq, Eq)]
pub enum Failure {
    Negotiation(NegotiationError),
    Param(ParamError),
    /// The object store failed on this key.
    Object(String, ObjectError),
    /// The stored bytes are no image that can be read. Holds the decoder's
    /// message.
    Decode(String),
    /// The image could not be written in the negotiated format. Holds the
    /// encoder's message.
    Encode(String),
    /// The response itself could not be put together.
    ResponseBuild(String),
}

/// The problem document that answers a failed request.
#[derive(Clone, Debug, PartialEq, Eq)]
pub struct ProblemDetails {
    /// The HTTP status code.
    pub status: u16,
    pub title: String,
    pub detail: Option<String>,
}

pub const BAD_REQUEST: u16 = 400;

pub const NOT_FOUND: u16 = 404;

pub const UNSUPPORTED_MEDIA_TYPE: u16 = 415;

pub const INTERNAL_SERVER_ERROR: u16 = 500;

/// The status code that a failure is answered with.
pub open spec fn status_of(failure: Failure) -> u16 {
    match failure {
        Failure::Negotiation(NegotiationError::Malformed(_)) => BAD_REQUEST,
        Failure::Negotiation(NegotiationError::NoAcceptableFormat) => UNSUPPORTED_MEDIA_TYPE,
        Failure::Param(_) => BAD_REQUEST,
        Failure::Object(_, ObjectError::NotFound) => NOT_FOUND,
        Failure::Object(_, ObjectError::TransientFailure) => INTERNAL_SERVER_ERROR,
        Failure::Decode(_) => INTERNAL_SERVER_ERROR,
        Failure::Encode(_) => INTERNAL_SERVER_ERROR,
        Failure::ResponseBuild(_) => INTERNAL_SERVER_ERROR,
    }
}

/// The title of a failure's problem document: one fixed text for each kind of
/// failure.
pub open spec fn title_of(failure: Failure) -> Seq<char> {
    match failure {
        Failure::Negotiation(NegotiationError::Malformed(_)) => "malformed Accept header"@,
        Failure::Negotiation(NegotiationError::NoAcceptableFormat) => "no acceptable format"@,
        Failure::Param(ParamError::Missing(_)) => "missing parameter"@,
        Failure::Param(ParamError::Invalid(_)) => "invalid parameter"@,
        Failure::Object(_, ObjectError::NotFound) => "object not found"@,
        Failure::Object(_, ObjectError::TransientFailure) => "could not retrieve object"@,
        Failure::Decode(_) => "could not decode image"@,
        Failure::Encode(_) => "could not encode image"@,
        Failure::ResponseBuild(_) => "could not build response"@,
    }
}

/// The detail of a failure's problem document. It names the parameter that
/// was refused and the key that was not found. A failure of the object store
/// other than a missing object shows nothing of what the store reported.
pub open spec fn detail_of(failure: Failure) -> Option<Seq<char>> {
    match failure {
        Failure::Negotiation(NegotiationError::Malformed(message)) => Some(message@),
        Failure::Negotiation(NegotiationError::NoAcceptableFormat) => None,
        Failure::Param(ParamError::Missing(param)) => Some(
            "you must provide a "@ + param.text() + " parameter"@,
        ),
        Failure::Param(ParamError::Invalid(param)) => Some(
            param.text() + " must be a positive integer"@,
        ),
        Failure::Object(key, ObjectError::NotFound) => Some("no object at "@ + key@),
        Failure::Object(_, ObjectError::TransientFailure) => None,
        Failure::Decode(message) => Some(message@),
        Failure::Encode(message) => Some(message@),
        Failure::ResponseBuild(message) => Some(message@),
    }
}

/// The problem document of a failure. Total: every failure has one.
pub fn map(failure: Failure) -> (problem: ProblemDetails)
    ensures
        problem.status == status_of(failure),
        problem.title@ == title_of(failure),
        problem.detail.deep_view() == detail_of(failure),
{
    match failure {
        Failure::Negotiation(NegotiationError::Malformed(message)) => ProblemDetails {
            status: BAD_REQUEST,
            title: String::from_str("malformed Accept header"),
            detail: Some(message),
        },
        Failure::Negotiation(NegotiationError::NoAcceptableFormat) => ProblemDetails {
            status: UNSUPPORTED_MEDIA_TYPE,
            title: String::from_str("no acceptable format"),
            detail: None,
        },
        Failure::Param(ParamError::Missing(param)) => {
            let mut detail = String::from_str("you must provide a ");
            detail.append(param.name());
            detail.append(" parameter");
            ProblemDetails {
                status: BAD_REQUEST,
                title: String::from_str("missing parameter"),
                detail: Some(detail),
            }
        },
        Failure::Param(ParamError::Invalid(param)) => {
            let mut detail = String::from_str(param.name());
            detail.append(" must be a positive integer");
            ProblemDetails {
                status: BAD_REQUEST,
                title: String::from_str("invalid parameter"),
                detail: Some(detail),
            }
        },
        Failure::Object(key, ObjectError::NotFound) => {
            let mut detail = String::from_str("no object at ");
            detail.append(key.as_str());
            ProblemDetails {
                status: NOT_FOUND,
                title: String::from_str("object not found"),
                detail: Some(detail),
            }
        },
        Failure::Object(_, ObjectError::TransientFailure) => ProblemDetails {
            status: INTERNAL_SERVER_ERROR,
            title: String::from_str("could not retrieve object"),
            detail: None,
        },
        Failure::Decode(message) => ProblemDetails {
            status: INTERNAL_SERVER_ERROR,
            title: String::from_str("could not decode image"),
            detail: Some(message),
        },
        Failure::Encode(message) => ProblemDetails {
            status: INTERNAL_SERVER_ERROR,
            title: String::from_str("could not encode image"),
            detail: Some(message),
        },
        Failure::ResponseBuild(message) => ProblemDetails {
            status: INTERNAL_SERVER_ERROR,
            title: String::from_str("could not build response"),
            detail: Some(message),
        },
    }
}

/// Whether a text holds another as one of its parts.
pub open spec fn mentions(text: Seq<char>, part: Seq<char>) -> bool {
    exists|before: Seq<char>, after: Seq<char>| text == #[trigger] (before + part + after)
}

/// A missing object is answered with the status 404, and the detail of its
/// problem document holds the key that was asked for.
pub proof fn missing_object_names_the_key(key: String)
    ensures
        status_of(Failure::Object(key, ObjectError::NotFound)) == NOT_FOUND,
        detail_of(Failure::Object(key, ObjectError::NotFound)) matches Some(detail) && mentions(
            detail,
            key@,
        ),
{
    let before = "no object at "@;
    assert(before + key@ =~= before + key@ + Seq::empty());
}

/// A parameter that is refused, missing or invalid, is answered with the
/// status 400, and the detail of its problem document holds the parameter's
/// name.
pub proof fn refused_parameter_is_named(param: Param)
    ensures
        status_of(Failure::Param(ParamError::Missing(param))) == BAD_REQUEST,
        status_of(Failure::Param(ParamError::Invalid(param))) == BAD_REQUEST,
        detail_of(Failure::Param(ParamError::Missing(param))) matches Some(detail) && mentions(
            detail,
            param.text(),
        ),
        detail_of(Failure::Param(ParamError::Invalid(param))) matches Some(detail) && mentions(
            detail,
            param.text(),
        ),
{
    let name = param.text();
    let after = " must be a positive integer"@;
    assert(name + after =~= Seq::empty() + name + after);
}

/// What the decoder or the encoder said of a failure never changes the
/// status that it is answered with: each is an internal error.
pub proof fn codec_failure_is_internal(message: String)
    ensures
        status_of(Failure::Decode(message)) == INTERNAL_SERVER_ERROR,
        status_of(Failure::Encode(message)) == INTERNAL_SERVER_ERROR,
        status_of(Failure::ResponseBuild(message)) == INTERNAL_SERVER_ERROR,
{
}

/// The text of the JSON object that has the given members, each a name and
/// a string value.
pub uninterp spec fn json_object(members: Seq<(Seq<char>, Seq<char>)>) -> Seq<char>;

/// Writes a JSON object of string members with `serde_json`: the members are
/// put into a `serde_json::Map`, and the object is written with the
/// `to_string` of `serde_json::Value`.
///
/// The contract names the text and claims no more than that the same members
/// always give the same text.
#[verifier::external_body]
fn write_json_object(members: &Vec<(String, String)>) -> (text: String)
    ensures
        text@ == json_object(members.deep_view()),
{
    let mut object = serde_json::Map::new();
    for (name, value) in members {
        object.insert(name.clone(), serde_json::Value::String(value.clone()));
    }
    serde_json::Value::Object(object).to_string()
}

/// The media type of a problem document.
pub open spec fn problem_content_type() -> Seq<char> {
    "application/problem+json"@
}

/// The status code of a successful response.
pub const OK: u16 = 200;

/// A response as it goes out: the status code, the `Content-Type` header and
/// the body.
#[derive(Clone, Debug, PartialEq, Eq)]
pub struct Response {
    pub status: u16,
    pub content_type: String,
    pub body: Vec<u8>,
}

impl ProblemDetails {
    /// The members of the document's JSON object: the title, and the detail
    /// where there is one.
    pub open spec fn members(self) -> Seq<(Seq<char>, Seq<char>)> {
        match self.detail {
            None => seq![("title"@, self.title@)],
            Some(detail) => seq![("title"@, self.title@), ("detail"@, detail@)],
        }
    }

    /// The document as JSON text.
    pub fn body(&self) -> (text: String)
        ensures
            text@ == json_object(self.members()),
    {
        let mut members: Vec<(String, String)> = Vec::new();
        members.push((String::from_str("title"), self.title.clone()));
        match &self.detail {
            None => {},
            Some(detail) => {
                members.push((String::from_str("detail"), detail.clone()));
            },
        }
        assert(members.deep_view() =~= self.members());
        write_json_object(&members)
    }

    /// The response that carries the document: its status code, the media
    /// type of problem documents, and the document as JSON text.
    pub fn into_response(self) -> (r: Response)
        ensures
            r.status == self.status,
            r.content_type@ == problem_content_type(),
            r.body@ == encode_utf8(json_object(self.members())),
    {
        let text = self.body();
        Response {
            status: self.status,
            content_type: String::from_str("application/problem+json"),
            body: text.as_str().as_bytes_vec(),
        }
    }
}

} // verus!
