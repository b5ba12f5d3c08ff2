//! One request from its first step to its response.
//!
//! A request passes through its steps in one fixed order and once: negotiate
//! the format, resolve the size, fetch the object, decode it, resize it,
//! encode it, respond. The first step that fails ends the request, and its
//! failure is answered with a problem document. Nothing is retried.
//!
//! Fetching is the caller's part. [`prepare`] takes the request as far as the
//! fetch and says which key to fetch; [`complete`] takes what the object
//! store answered and does the rest; [`handler`] turns the outcome into the
//! response.

use crate::errors::{
    detail_of, json_object, problem_content_type, status_of, title_of, Failure, NegotiationError,
    ObjectError, Response, INTERNAL_SERVER_ERROR, NOT_FOUND, OK,
};
use crate::negotiation::laws::{named_format_is_selected, wildcard_selects_first_listed};
use crate::negotiation::{
    anything, negotiate, rank, requested, selected, RangeModel, SupportedFormat,
};
use crate::params::{resolve, resolved, Dimensions};
use crate::pipeline::{decoded, extent_of, fitted, get_image, render, rendered, EncodedOutput};
use vstd::prelude::*;
use vstd::utf8::encode_utf8;

verus! {

/// What the pipeline reads of an HTTP request.
#[derive(Clone, Debug, PartialEq, Eq)]
pub struct Request {
    /// The value of the `Accept` header, where the request has one.
    pub accept: Option<String>,
    /// The pairs of the query string, in the order in which they were
    /// written.
    pub query: Vec<(String, String)>,
    /// The path of the request. It is the key of the stored object, used as
    /// it stands.
    pub path: String,
}

/// What a request came to before the fetch: the object to fetch, the size to
/// give the picture and the format to write it in.
#[derive(Clone, Debug, PartialEq, Eq)]
pub struct Plan {
    pub key: String,
    pub size: Dimensions,
    pub format: SupportedFormat,
}

/// The formats that the service offers where nothing else is configured:
/// JPEG before PNG.
pub fn default_formats() -> (formats: Vec<SupportedFormat>)
    ensures
        formats@ == seq![SupportedFormat::Jpeg, SupportedFormat::Png],
{
    let mut formats: Vec<SupportedFormat> = Vec::new();
    formats.push(SupportedFormat::Jpeg);
    formats.push(SupportedFormat::Png);
    assert(formats@ =~= seq![SupportedFormat::Jpeg, SupportedFormat::Png]);
    formats
}

/// Takes a request as far as the fetch: negotiates the format, then resolves
/// the size.
///
/// A failed negotiation is reported whatever the query holds; a query is
/// only looked at once a format is chosen. A request without an `Accept`
/// header is no error: it is planned in the format that is listed first. The
/// planned size has both sides positive.
pub fn prepare(request: &Request, supported: &Vec<SupportedFormat>) -> (r: Result<Plan, Failure>)
    ensures
        match requested(request.accept.deep_view()) {
            None => r matches Err(Failure::Negotiation(NegotiationError::Malformed(_))),
            Some(ranges) => match selected(ranges, supported@) {
                None => r == Err::<Plan, Failure>(
                    Failure::Negotiation(NegotiationError::NoAcceptableFormat),
                ),
                Some(format) => match resolved(request.query.deep_view()) {
                    Err(error) => r == Err::<Plan, Failure>(Failure::Param(error)),
                    Ok(size) => r matches Ok(plan) && plan.key@ == request.path@ && plan.size
                        == size && plan.format == format && size.wf(),
                },
            },
        },
        r matches Ok(plan) ==> plan.size.wf() && planned_format(
            request.accept.deep_view(),
            supported@,
        ) == Some(plan.format),
        request.accept is None && supported.len() > 0 ==> ((r is Ok) <==> (resolved(
            request.query.deep_view(),
        ) is Ok)) && (r matches Ok(plan) ==> plan.format == supported[0]),
{
    let accept: Option<&str> = match &request.accept {
        Some(header) => Some(header.as_str()),
        None => None,
    };
    let format = match negotiate(accept, supported) {
        Ok(format) => format,
        Err(error) => {
            return Err(Failure::Negotiation(error));
        },
    };
    let size = match resolve(&request.query) {
        Ok(size) => size,
        Err(error) => {
            return Err(Failure::Param(error));
        },
    };
    Ok(Plan { key: request.path.clone(), size, format })
}

/// Takes a request from the fetch to its output: decodes what the object
/// store handed out, resizes the picture to the planned size and encodes it
/// in the planned format.
///
/// Fails with `Object` and the planned key where the store handed out no
/// bytes, with `Decode` where the bytes are no picture, and with `Encode`
/// where no output can be made of the picture: a plan whose size has a side
/// of zero, which [`prepare`] never makes, has no output. The picture that
/// an output is the encoding of has exactly the planned width and height.
pub fn complete(plan: &Plan, fetched: Result<Vec<u8>, ObjectError>) -> (r: Result<
    EncodedOutput,
    Failure,
>)
    ensures
        match fetched {
            Err(error) => r matches Err(Failure::Object(key, e)) && key@ == plan.key@ && e
                == error,
            Ok(bytes) => match decoded(bytes@) {
                None => r matches Err(Failure::Decode(_)),
                Some(pixels) => match rendered(pixels, plan.size, plan.format) {
                    None => r matches Err(Failure::Encode(_)),
                    Some(output) => r matches Ok(out) && out.bytes@ == output
                        && out.content_type@ == plan.format.mime_text(),
                },
            },
        },
        r is Ok ==> plan.size.wf() && (fetched matches Ok(bytes) && decoded(bytes@) matches Some(
            pixels,
        ) && extent_of(fitted(pixels, plan.size)) == (plan.size.width, plan.size.height)),
{
    match get_image(plan.key.as_str(), fetched) {
        Err(failure) => Err(failure),
        Ok(image) => render(&image, plan.size, plan.format),
    }
}

/// Turns the outcome of a request into its response.
///
/// An output goes out with the status 200 under its own media type. A
/// failure goes out as its problem document, with the document's status.
pub fn handler(result: Result<EncodedOutput, Failure>) -> (r: Response)
    ensures
        match result {
            Ok(output) => r.status == OK && r.content_type@ == output.content_type@ && r.body@
                == output.bytes@,
            Err(failure) => {
                let problem = problem_of(failure);
                &&& r.status == status_of(failure)
                &&& r.content_type@ == problem_content_type()
                &&& r.body@ == encode_utf8(json_object(problem))
            },
        },
{
    match result {
        Ok(output) => Response {
            status: OK,
            content_type: output.content_type,
            body: output.bytes,
        },
        Err(failure) => crate::errors::map(failure).into_response(),
    }
}

/// Answers a request that was taken as far as the fetch: what [`handler`]
/// makes of what [`complete`] returns.
///
/// The status is 200 where an output was made, 404 where the object store
/// has no object under the key, and 500 where the store failed otherwise,
/// the bytes are no picture or no output can be made of the picture. Where
/// the store handed out nothing, the body is the problem document of the
/// store's failure on the planned key.
pub fn answer(plan: &Plan, fetched: Result<Vec<u8>, ObjectError>) -> (r: Response)
    ensures
        r.status == answer_status(*plan, fetched),
        r.content_type@ == answer_type(*plan, fetched),
        produced(*plan, fetched) matches Some(output) ==> r.body@ == output,
        fetched matches Err(error) ==> r.body@ == encode_utf8(
            json_object(problem_of(Failure::Object(plan.key, error))),
        ),
{
    handler(complete(plan, fetched))
}

/// The output that is made of what the object store answered, if any is.
pub open spec fn produced(plan: Plan, fetched: Result<Vec<u8>, ObjectError>) -> Option<Seq<u8>> {
    match fetched {
        Err(_) => None,
        Ok(bytes) => match decoded(bytes@) {
            None => None,
            Some(pixels) => rendered(pixels, plan.size, plan.format),
        },
    }
}

/// The status that a request is answered with once the object store has
/// answered.
pub open spec fn answer_status(plan: Plan, fetched: Result<Vec<u8>, ObjectError>) -> u16 {
    if produced(plan, fetched) is Some {
        OK
    } else if fetched == Err::<Vec<u8>, ObjectError>(ObjectError::NotFound) {
        NOT_FOUND
    } else {
        INTERNAL_SERVER_ERROR
    }
}

/// The media type that a request is answered in once the object store has
/// answered: that of the planned format where an output is made, that of
/// problem documents where none is.
pub open spec fn answer_type(plan: Plan, fetched: Result<Vec<u8>, ObjectError>) -> Seq<char> {
    if produced(plan, fetched) is Some {
        plan.format.mime_text()
    } else {
        problem_content_type()
    }
}

/// The format that a request is planned in: the one that its header, or the
/// absence of one, selects from the supported formats.
pub open spec fn planned_format(accept: Option<Seq<char>>, supported: Seq<SupportedFormat>)
    -> Option<SupportedFormat> {
    match requested(accept) {
        Some(ranges) => selected(ranges, supported),
        None => None,
    }
}

/// Where an output can be made, a request whose header holds one range, the
/// media type of a supported format with a weight above zero, is answered
/// with the status 200 in that media type, wherever the format stands in the
/// list.
pub proof fn named_type_is_answered_in_it(
    accept: Option<Seq<char>>,
    range: RangeModel,
    supported: Seq<SupportedFormat>,
    format: SupportedFormat,
    plan: Plan,
    fetched: Result<Vec<u8>, ObjectError>,
)
    requires
        requested(accept) == Some(seq![range]),
        supported.contains(format),
        range.kind == format.kind_text(),
        range.subtype == format.subtype_text(),
        range.suffix is None,
        rank(range.weight) > 0,
        planned_format(accept, supported) == Some(plan.format),
        produced(plan, fetched) is Some,
    ensures
        plan.format == format,
        answer_status(plan, fetched) == OK,
        answer_type(plan, fetched) == format.mime_text(),
{
    named_format_is_selected(range, supported, format);
}

/// Where an output can be made, a request without an `Accept` header, and
/// one whose header holds the range `*/*` alone with a weight above zero, is
/// answered with the status 200 in the media type of the format that is
/// listed first.
pub proof fn anything_is_answered_in_the_first_listed(
    accept: Option<Seq<char>>,
    supported: Seq<SupportedFormat>,
    plan: Plan,
    fetched: Result<Vec<u8>, ObjectError>,
)
    requires
        supported.len() > 0,
        requested(accept) matches Some(ranges) && ranges.len() == 1 && ranges[0].kind == "*"@
            && ranges[0].subtype == "*"@ && ranges[0].suffix is None && rank(ranges[0].weight)
            > 0,
        planned_format(accept, supported) == Some(plan.format),
        produced(plan, fetched) is Some,
    ensures
        accept is None ==> requested(accept) == Some(seq![anything()]),
        plan.format == supported[0],
        answer_status(plan, fetched) == OK,
        answer_type(plan, fetched) == supported[0].mime_text(),
{
    let ranges = requested(accept)->0;
    assert(ranges =~= seq![ranges[0]]);
    wildcard_selects_first_listed(ranges[0], supported);
}

/// The members of the problem document of a failure.
pub open spec fn problem_of(failure: Failure) -> Seq<(Seq<char>, Seq<char>)> {
    match detail_of(failure) {
        None => seq![("title"@, title_of(failure))],
        Some(detail) => seq![("title"@, title_of(failure)), ("detail"@, detail)],
    }
}

} // verus!
