//! The requested size: two required, positive query parameters.
//!
//! A query is the list of its name and value pairs in the order in which they
//! were written. Where a name occurs more than once its first value counts.
//! Nothing is defaulted: a request that leaves out or garbles either side is
//! refused.

use crate::errors::{Param, ParamError};
use crate::text::{decimal_u32, parse_u32, same_text};
use vstd::prelude::*;

verus! {

/// The size an image is wanted in. Both sides are positive.
#[derive(Clone, Copy, Debug, PartialEq, Eq, Structural)]
pub struct Dimensions {
    pub width: u32,
    pub height: u32,
}

impl Dimensions {
    /// Both sides are positive.
    pub open spec fn wf(self) -> bool {
        self.width > 0 && self.height > 0
    }

    /// The size `width` by `height`, where both are positive.
    pub fn new(width: u32, height: u32) -> (r: Option<Dimensions>)
        ensures
            r == if width > 0 && height > 0 {
                Some(Dimensions { width, height })
            } else {
                None
            },
    {
        if width > 0 && height > 0 {
            Some(Dimensions { width, height })
        } else {
            None
        }
    }
}

/// The value of the first pair that has the given name.
pub open spec fn first_value(query: Seq<(Seq<char>, Seq<char>)>, name: Seq<char>) -> Option<
    Seq<char>,
>
    decreases query.len(),
{
    if query.len() == 0 {
        None
    } else if query[0].0 == name {
        Some(query[0].1)
    } else {
        first_value(query.drop_first(), name)
    }
}

/// What a required parameter of a query is: the positive number that its
/// first value writes in decimal. A query that does not name the parameter
/// misses it; a first value that is no number, is zero or does not fit in 32
/// bits is invalid.
pub open spec fn required_param(query: Seq<(Seq<char>, Seq<char>)>, key: Param) -> Result<
    u32,
    ParamError,
> {
    match first_value(query, key.text()) {
        None => Err(ParamError::Missing(key)),
        Some(value) => match decimal_u32(value) {
            Some(n) if n > 0 => Ok(n),
            _ => Err(ParamError::Invalid(key)),
        },
    }
}

/// The size that a query asks for. The width is looked at first: where both
/// sides are wrong the error names the width.
pub open spec fn resolved(query: Seq<(Seq<char>, Seq<char>)>) -> Result<Dimensions, ParamError> {
    match required_param(query, Param::Width) {
        Err(e) => Err(e),
        Ok(width) => match required_param(query, Param::Height) {
            Err(e) => Err(e),
            Ok(height) => Ok(Dimensions { width, height }),
        },
    }
}

/// A required parameter is read exactly where the query names it and its
/// first value writes a number from one to `u32::MAX`; what is read is that
/// number.
pub proof fn required_param_is_positive(query: Seq<(Seq<char>, Seq<char>)>, key: Param)
    ensures
        required_param(query, key) matches Ok(n) ==> n > 0,
        required_param(query, key) is Ok <==> (first_value(query, key.text()) matches Some(value)
            && decimal_u32(value) matches Some(n) && n > 0),
        required_param(query, key) matches Ok(n) ==> (first_value(query, key.text()) matches Some(
            value,
        ) && decimal_u32(value) == Some(n)),
{
}

/// A parameter of zero, and one that is no number, is refused as invalid
/// whatever else the query holds.
pub proof fn bad_value_is_invalid(query: Seq<(Seq<char>, Seq<char>)>, key: Param)
    requires
        first_value(query, key.text()) matches Some(value) && (decimal_u32(value) is None
            || decimal_u32(value) == Some(0u32)),
    ensures
        required_param(query, key) == Err::<u32, ParamError>(ParamError::Invalid(key)),
        key == Param::Width ==> resolved(query) == Err::<Dimensions, ParamError>(
            ParamError::Invalid(Param::Width),
        ),
        resolved(query) is Err,
{
}

/// A query that leaves out either side is refused whatever the other side
/// holds: no side is ever defaulted.
pub proof fn missing_side_is_refused(query: Seq<(Seq<char>, Seq<char>)>)
    requires
        first_value(query, Param::Width.text()) is None || first_value(
            query,
            Param::Height.text(),
        ) is None,
    ensures
        resolved(query) is Err,
{
}

/// A size that a query resolves to has both sides positive.
pub proof fn resolved_size_is_positive(query: Seq<(Seq<char>, Seq<char>)>)
    ensures
        resolved(query) matches Ok(size) ==> size.wf(),
{
}

/// Looks up the first value that a query gives a name.
fn first<'a>(query: &'a Vec<(String, String)>, name: &str) -> (r: Option<&'a str>)
    ensures
        r.deep_view() == first_value(query.deep_view(), name@),
{
    let ghost pairs = query.deep_view();
    assert(pairs.skip(0) =~= pairs);
    let mut i: usize = 0;
    while i < query.len()
        invariant
            i <= query.len(),
            pairs == query.deep_view(),
            first_value(pairs, name@) == first_value(pairs.skip(i as int), name@),
        decreases query.len() - i,
    {
        let ghost rest = pairs.skip(i as int);
        assert(rest[0] == query@[i as int].deep_view());
        if same_text(query[i].0.as_str(), name) {
            return Some(query[i].1.as_str());
        }
        assert(rest.drop_first() =~= pairs.skip(i + 1));
        i += 1;
    }
    assert(pairs.skip(i as int).len() == 0);
    None
}

/// Reads a parameter that the request must have.
///
/// Fails with `Missing` where the query does not name the parameter, and with
/// `Invalid` where its first value is no positive decimal number that fits
/// in 32 bits. What is read is never zero.
pub fn get_required_query_param(query: &Vec<(String, String)>, key: Param) -> (r: Result<
    u32,
    ParamError,
>)
    ensures
        r == required_param(query.deep_view(), key),
        r matches Ok(n) ==> n > 0,
{
    match first(query, key.name()) {
        None => Err(ParamError::Missing(key)),
        Some(value) => match parse_u32(value) {
            None => Err(ParamError::Invalid(key)),
            Some(n) => if n == 0 {
                Err(ParamError::Invalid(key))
            } else {
                Ok(n)
            },
        },
    }
}

/// Resolves the size that a request asks for.
pub fn resolve(query: &Vec<(String, String)>) -> (r: Result<Dimensions, ParamError>)
    ensures
        r == resolved(query.deep_view()),
        r matches Ok(size) ==> size.wf(),
{
    let width: u32 = match get_required_query_param(query, Param::Width) {
        Err(e) => { return Err(e); },
        Ok(n) => n,
    };
    let height: u32 = match get_required_query_param(query, Param::Height) {
        Err(e) => { return Err(e); },
        Ok(n) => n,
    };
    Ok(Dimensions { width, height })
}

} // verus!
