//! What holds of every negotiation.

use crate::errors::{status_of, Failure, NegotiationError, UNSUPPORTED_MEDIA_TYPE};
use crate::negotiation::{
    acceptable, anything, best_fit, closer, fit_of, leads, no_fit,
    nothing_acceptable_nothing_selected, outcome, outranks, rank, requested, selected,
    specificity, winner_is_selected, wins, RangeModel, SupportedFormat,
};
use vstd::prelude::*;

verus! {

/// The best fit is the fit of one of the ranges, and none of the ranges that
/// cover the format is closer. Where the best fit covers nothing, no range
/// does.
pub proof fn best_fit_is_closest(ranges: Seq<RangeModel>, format: SupportedFormat)
    ensures
        best_fit(ranges, format).specificity >= 0,
        best_fit(ranges, format).specificity > 0 ==> exists|i: int|
            0 <= i < ranges.len() && #[trigger] fit_of(ranges[i], format) == best_fit(
                ranges,
                format,
            ),
        best_fit(ranges, format).specificity == 0 ==> best_fit(ranges, format) == no_fit(),
        forall|i: int|
            0 <= i < ranges.len() && specificity(#[trigger] ranges[i], format) > 0 ==> !closer(
                fit_of(ranges[i], format),
                best_fit(ranges, format),
            ),
    decreases ranges.len(),
{
    if ranges.len() > 0 {
        let shorter = ranges.drop_last();
        best_fit_is_closest(shorter, format);
        let best = best_fit(ranges, format);
        if best.specificity > 0 {
            if best == fit_of(ranges.last(), format) {
                assert(fit_of(ranges[ranges.len() - 1], format) == best);
            } else {
                let i = choose|i: int|
                    0 <= i < shorter.len() && #[trigger] fit_of(shorter[i], format) == best_fit(
                        shorter,
                        format,
                    );
                assert(fit_of(ranges[i], format) == best);
            }
        }
        assert forall|i: int|
            0 <= i < ranges.len() && specificity(#[trigger] ranges[i], format) > 0 implies !closer(
            fit_of(ranges[i], format),
            best,
        ) by {
            if i < shorter.len() {
                assert(ranges[i] == shorter[i]);
            }
        }
    }
}

/// Among the first `n` supported formats one leads as soon as one of them is
/// acceptable.
proof fn leader_exists(ranges: Seq<RangeModel>, supported: Seq<SupportedFormat>, n: int) -> (i: int)
    requires
        0 <= n <= supported.len(),
        exists|j: int| 0 <= j < n && acceptable(ranges, #[trigger] supported[j]),
    ensures
        leads(ranges, supported, n, i),
    decreases n,
{
    let last = n - 1;
    if exists|j: int| 0 <= j < last && acceptable(ranges, #[trigger] supported[j]) {
        let before = leader_exists(ranges, supported, last);
        if acceptable(ranges, supported[last]) && outranks(
            best_fit(ranges, supported[last]),
            best_fit(ranges, supported[before]),
        ) {
            last
        } else {
            before
        }
    } else {
        assert(acceptable(ranges, supported[last]));
        last
    }
}

/// A format is selected exactly where the header accepts one of the
/// supported formats, and the selected format is one that it accepts.
pub proof fn selection_is_owed(ranges: Seq<RangeModel>, supported: Seq<SupportedFormat>)
    ensures
        selected(ranges, supported) is Some <==> exists|j: int|
            0 <= j < supported.len() && acceptable(ranges, #[trigger] supported[j]),
        selected(ranges, supported) matches Some(format) ==> supported.contains(format)
            && acceptable(ranges, format),
{
    if exists|j: int| 0 <= j < supported.len() && acceptable(ranges, #[trigger] supported[j]) {
        let i = leader_exists(ranges, supported, supported.len() as int);
        winner_is_selected(ranges, supported, i);
    } else {
        nothing_acceptable_nothing_selected(ranges, supported);
    }
}

/// The first place at which a format stands in a list that holds it.
proof fn first_place(supported: Seq<SupportedFormat>, format: SupportedFormat) -> (k: int)
    requires
        supported.contains(format),
    ensures
        0 <= k < supported.len(),
        supported[k] == format,
        forall|j: int| 0 <= j < k ==> supported[j] != format,
    decreases supported.len(),
{
    if supported[0] == format {
        0
    } else {
        let rest = supported.drop_first();
        let at = choose|i: int| 0 <= i < supported.len() && supported[i] == format;
        assert(rest[at - 1] == format);
        let k = first_place(rest, format);
        assert forall|j: int| 0 <= j < k + 1 implies supported[j] != format by {
            if j > 0 {
                assert(rest[j - 1] == supported[j]);
            }
        }
        k + 1
    }
}

/// The names of the supported media types differ from one another and from
/// the wildcard.
proof fn names_differ()
    ensures
        "png"@ != "jpeg"@,
        "png"@ != "*"@,
        "jpeg"@ != "*"@,
        "image"@ != "*"@,
{
    reveal_strlit("png");
    reveal_strlit("jpeg");
    reveal_strlit("image");
    reveal_strlit("*");
    assert("png"@.len() == 3);
    assert("jpeg"@.len() == 4);
    assert("image"@.len() == 5);
    assert("*"@.len() == 1);
}

/// The best fit that a single range gives: its own, where it covers the
/// format.
proof fn best_fit_of_one(range: RangeModel, format: SupportedFormat)
    ensures
        best_fit(seq![range], format) == if specificity(range, format) > 0 {
            fit_of(range, format)
        } else {
            no_fit()
        },
{
    let ranges = seq![range];
    assert(ranges.drop_last() =~= Seq::empty());
    assert(ranges.last() == range);
    assert(best_fit(ranges.drop_last(), format) == no_fit());
}

/// A header that holds one range, the media type of a supported format with
/// a weight above zero, selects that format.
pub proof fn named_format_is_selected(
    range: RangeModel,
    supported: Seq<SupportedFormat>,
    format: SupportedFormat,
)
    requires
        supported.contains(format),
        range.kind == format.kind_text(),
        range.subtype == format.subtype_text(),
        range.suffix is None,
        rank(range.weight) > 0,
    ensures
        selected(seq![range], supported) == Some(format),
{
    names_differ();
    let ranges = seq![range];
    let k = first_place(supported, format);
    best_fit_of_one(range, format);
    assert forall|j: int| 0 <= j < supported.len() && acceptable(
        ranges,
        #[trigger] supported[j],
    ) implies supported[j] == format by {
        best_fit_of_one(range, supported[j]);
    }
    assert(wins(ranges, supported, k));
    winner_is_selected(ranges, supported, k);
}

/// A header that holds the range `*/*` alone, with a weight above zero,
/// selects the format that is listed first.
pub proof fn wildcard_selects_first_listed(range: RangeModel, supported: Seq<SupportedFormat>)
    requires
        supported.len() > 0,
        range.kind == "*"@,
        range.subtype == "*"@,
        range.suffix is None,
        rank(range.weight) > 0,
    ensures
        selected(seq![range], supported) == Some(supported[0]),
{
    names_differ();
    let ranges = seq![range];
    assert forall|j: int| 0 <= j < supported.len() implies best_fit(
        ranges,
        #[trigger] supported[j],
    ) == fit_of(range, supported[0]) by {
        best_fit_of_one(range, supported[j]);
    }
    assert(wins(ranges, supported, 0));
    winner_is_selected(ranges, supported, 0);
}

/// A request without an `Accept` header selects the format that is listed
/// first.
pub proof fn no_header_selects_first_listed(supported: Seq<SupportedFormat>)
    requires
        supported.len() > 0,
    ensures
        requested(None) == Some(seq![anything()]),
        selected(seq![anything()], supported) == Some(supported[0]),
{
    wildcard_selects_first_listed(anything(), supported);
}

/// A header of which no range covers any supported format selects nothing:
/// the negotiation fails with `NoAcceptableFormat`, which is answered with
/// the status 415.
pub proof fn unsupported_types_select_nothing(
    ranges: Seq<RangeModel>,
    supported: Seq<SupportedFormat>,
)
    requires
        forall|i: int, j: int|
            0 <= i < ranges.len() && 0 <= j < supported.len() ==> specificity(
                #[trigger] ranges[i],
                #[trigger] supported[j],
            ) == 0,
    ensures
        selected(ranges, supported) is None,
        outcome(selected(ranges, supported)) == Err::<SupportedFormat, NegotiationError>(
            NegotiationError::NoAcceptableFormat,
        ),
        status_of(Failure::Negotiation(NegotiationError::NoAcceptableFormat))
            == UNSUPPORTED_MEDIA_TYPE,
{
    assert forall|j: int| 0 <= j < supported.len() implies !acceptable(
        ranges,
        #[trigger] supported[j],
    ) by {
        best_fit_is_closest(ranges, supported[j]);
    }
    nothing_acceptable_nothing_selected(ranges, supported);
}

} // verus!
