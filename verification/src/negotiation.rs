//! Content negotiation: choosing the output format from an `Accept` header.
//!
//! The header lists media ranges, each with a quality weight. A supported
//! format is matched by the most specific range that covers it: its own media
//! type before `image/*`, and that before `*/*`; where several ranges are
//! equally specific, the one with the highest weight counts. A format whose
//! match has weight zero is not acceptable. Of the acceptable formats the one
//! with the highest weight is chosen; of two with the same weight the one
//! matched more specifically; and where that is equal too, the one listed
//! first among the supported formats.

use crate::errors::NegotiationError;
use crate::text::same_text;
use laws::no_header_selects_first_listed;
use vstd::prelude::*;
use vstd::string::*;

pub mod laws;

verus! {

/// An output format that the service can produce. A list of them is ordered
/// by the server's preference: the first listed wins a tie.
#[derive(Clone, Copy, Debug, PartialEq, Eq, Structural)]
pub enum SupportedFormat {
    Png,
    Jpeg,
}

impl SupportedFormat {
    /// The type half of the format's media type.
    pub open spec fn kind_text(self) -> Seq<char> {
        "image"@
    }

    /// The subtype half of the format's media type.
    pub open spec fn subtype_text(self) -> Seq<char> {
        match self {
            SupportedFormat::Png => "png"@,
            SupportedFormat::Jpeg => "jpeg"@,
        }
    }

    /// The format's media type, as it is written in a `Content-Type` header.
    pub open spec fn mime_text(self) -> Seq<char> {
        match self {
            SupportedFormat::Png => "image/png"@,
            SupportedFormat::Jpeg => "image/jpeg"@,
        }
    }

    /// The type half of the format's media type.
    pub fn kind(self) -> (r: &'static str)
        ensures
            r@ == self.kind_text(),
    {
        "image"
    }

    /// The subtype half of the format's media type.
    pub fn subtype(self) -> (r: &'static str)
        ensures
            r@ == self.subtype_text(),
    {
        match self {
            SupportedFormat::Png => "png",
            SupportedFormat::Jpeg => "jpeg",
        }
    }

    /// The format's media type. It never carries a parameter of the range
    /// that matched it.
    pub fn mime_type(self) -> (r: &'static str)
        ensures
            r@ == self.mime_text(),
    {
        match self {
            SupportedFormat::Png => "image/png",
            SupportedFormat::Jpeg => "image/jpeg",
        }
    }
}

/// One entry of an `Accept` header.
///
/// A type or subtype of `*` is a wildcard. The quality weight is kept as the
/// bit pattern of the single-precision number that the header gave: between
/// zero and one these patterns are ordered as the numbers are, so weights are
/// compared without any arithmetic on them. No weight means the weight one.
#[derive(Clone, Debug, PartialEq, Eq)]
pub struct MediaRange {
    pub kind: String,
    pub subtype: String,
    /// What follows a `+` in the subtype, as `xml` in `image/svg+xml`.
    pub suffix: Option<String>,
    /// The bit pattern of the weight, where the entry has one.
    pub weight: Option<u32>,
    /// The entry's other parameters, in the order in which they were written.
    pub parameters: Vec<(String, String)>,
}

/// What a media range holds, as plain values.
pub struct RangeModel {
    pub kind: Seq<char>,
    pub subtype: Seq<char>,
    pub suffix: Option<Seq<char>>,
    pub weight: Option<u32>,
    pub parameters: Seq<(Seq<char>, Seq<char>)>,
}

impl DeepView for MediaRange {
    type V = RangeModel;

    open spec fn deep_view(&self) -> RangeModel {
        RangeModel {
            kind: self.kind@,
            subtype: self.subtype@,
            suffix: self.suffix.deep_view(),
            weight: self.weight,
            parameters: self.parameters.deep_view(),
        }
    }
}

impl View for MediaRange {
    type V = RangeModel;

    open spec fn view(&self) -> RangeModel {
        self.deep_view()
    }
}

/// The bit pattern of the weight one.
pub const FULL_WEIGHT: u32 = 0x3f80_0000;

/// The least bit pattern that has the sign bit set. From here on a pattern
/// stands for zero, for a negative number or for no number.
pub const SIGN_BIT: u32 = 0x8000_0000;

/// The place of a weight in the order of the weights. Zero is the weight
/// zero. A pattern with the sign bit counts as zero: of those only the
/// negative zero lies between zero and one.
pub open spec fn rank(weight: Option<u32>) -> int {
    match weight {
        None => FULL_WEIGHT as int,
        Some(bits) => if bits >= SIGN_BIT {
            0
        } else {
            bits as int
        },
    }
}

/// The range that names a format's media type and nothing else.
pub const EXACT: u8 = 3;

/// A range that covers every subtype of the format's type.
pub const WHOLE_TYPE: u8 = 2;

/// The range `*/*`.
pub const ANYTHING: u8 = 1;

/// How closely a range matches a format: `EXACT`, `WHOLE_TYPE`, `ANYTHING`,
/// or zero where it does not cover the format at all.
pub open spec fn specificity(range: RangeModel, format: SupportedFormat) -> int {
    if range.suffix is Some {
        0
    } else if range.kind == format.kind_text() && range.subtype == format.subtype_text() {
        EXACT as int
    } else if range.kind == format.kind_text() && range.subtype == "*"@ {
        WHOLE_TYPE as int
    } else if range.kind == "*"@ && range.subtype == "*"@ {
        ANYTHING as int
    } else {
        0
    }
}

/// How a header matches a format: how specific the best range for it is, and
/// the weight that this range gives it.
pub struct Fit {
    pub specificity: int,
    pub quality: int,
}

/// No range covers the format.
pub open spec fn no_fit() -> Fit {
    Fit { specificity: 0, quality: 0 }
}

/// The fit that one range gives a format.
pub open spec fn fit_of(range: RangeModel, format: SupportedFormat) -> Fit {
    Fit { specificity: specificity(range, format), quality: rank(range.weight) }
}

/// Whether `a` is the better match of a format: more specific, or as specific
/// with a higher weight.
pub open spec fn closer(a: Fit, b: Fit) -> bool {
    a.specificity > b.specificity || (a.specificity == b.specificity && a.quality > b.quality)
}

/// The best fit that the ranges of a header give a format.
pub open spec fn best_fit(ranges: Seq<RangeModel>, format: SupportedFormat) -> Fit
    decreases ranges.len(),
{
    if ranges.len() == 0 {
        no_fit()
    } else {
        let before = best_fit(ranges.drop_last(), format);
        let here = fit_of(ranges.last(), format);
        if here.specificity > 0 && closer(here, before) {
            here
        } else {
            before
        }
    }
}

/// Whether a header accepts a format: a range covers it, and the best one
/// does so with a weight above zero.
pub open spec fn acceptable(ranges: Seq<RangeModel>, format: SupportedFormat) -> bool {
    best_fit(ranges, format).specificity > 0 && best_fit(ranges, format).quality > 0
}

/// Whether `a` is preferred to `b` among acceptable formats: the higher
/// weight, or the same weight from a more specific range.
pub open spec fn outranks(a: Fit, b: Fit) -> bool {
    a.quality > b.quality || (a.quality == b.quality && a.specificity > b.specificity)
}

/// Whether the format at `i` is the one to choose among the first `n`
/// supported formats: it is acceptable, none of them outranks it, and none
/// that ranks the same stands before it.
pub open spec fn leads(
    ranges: Seq<RangeModel>,
    supported: Seq<SupportedFormat>,
    n: int,
    i: int,
) -> bool {
    &&& 0 <= i < n <= supported.len()
    &&& acceptable(ranges, supported[i])
    &&& forall|j: int|
        0 <= j < n && acceptable(ranges, #[trigger] supported[j]) ==> {
            let mine = best_fit(ranges, supported[i]);
            let other = best_fit(ranges, supported[j]);
            !outranks(other, mine) && (outranks(mine, other) || i <= j)
        }
}

/// Whether the format at `i` is the one to choose among all the supported
/// formats.
pub open spec fn wins(ranges: Seq<RangeModel>, supported: Seq<SupportedFormat>, i: int) -> bool {
    leads(ranges, supported, supported.len() as int, i)
}

/// The format that a header selects from the supported ones, if it accepts
/// any.
pub open spec fn selected(ranges: Seq<RangeModel>, supported: Seq<SupportedFormat>) -> Option<
    SupportedFormat,
> {
    if exists|i: int| wins(ranges, supported, i) {
        Some(supported[choose|i: int| wins(ranges, supported, i)])
    } else {
        None
    }
}

/// The outcome of a negotiation that selected a format or none.
pub open spec fn outcome(choice: Option<SupportedFormat>) -> Result<
    SupportedFormat,
    NegotiationError,
> {
    match choice {
        Some(format) => Ok(format),
        None => Err(NegotiationError::NoAcceptableFormat),
    }
}

/// At most one supported format wins.
pub proof fn winner_is_unique(
    ranges: Seq<RangeModel>,
    supported: Seq<SupportedFormat>,
    i: int,
    j: int,
)
    requires
        wins(ranges, supported, i),
        wins(ranges, supported, j),
    ensures
        i == j,
{
    assert(acceptable(ranges, supported[i]));
    assert(acceptable(ranges, supported[j]));
}

/// The format at a winning index is the selected one.
pub proof fn winner_is_selected(ranges: Seq<RangeModel>, supported: Seq<SupportedFormat>, i: int)
    requires
        wins(ranges, supported, i),
    ensures
        selected(ranges, supported) == Some(supported[i]),
{
    let chosen = choose|k: int| wins(ranges, supported, k);
    winner_is_unique(ranges, supported, i, chosen);
}

/// Where no supported format is acceptable, none is selected.
pub proof fn nothing_acceptable_nothing_selected(
    ranges: Seq<RangeModel>,
    supported: Seq<SupportedFormat>,
)
    requires
        forall|j: int| 0 <= j < supported.len() ==> !acceptable(ranges, #[trigger] supported[j]),
    ensures
        selected(ranges, supported) is None,
{
}

/// What the range `*/*` with the weight one holds.
pub open spec fn anything() -> RangeModel {
    RangeModel {
        kind: "*"@,
        subtype: "*"@,
        suffix: None,
        weight: None,
        parameters: Seq::empty(),
    }
}

impl MediaRange {
    /// The range `*/*` with the weight one: what a request without an
    /// `Accept` header asks for.
    pub fn any() -> (r: MediaRange)
        ensures
            r@ == anything(),
    {
        let r = MediaRange {
            kind: String::from_str("*"),
            subtype: String::from_str("*"),
            suffix: None,
            weight: None,
            parameters: Vec::new(),
        };
        assert(r.parameters.deep_view() =~= Seq::empty());
        r
    }

    /// The place of the range's weight in the order of the weights.
    pub fn quality(&self) -> (r: u32)
        ensures
            r == rank(self.weight),
    {
        match self.weight {
            None => FULL_WEIGHT,
            Some(bits) => if bits >= SIGN_BIT {
                0
            } else {
                bits
            },
        }
    }

    /// How closely the range matches a format.
    pub fn specificity(&self, format: SupportedFormat) -> (r: u8)
        ensures
            r == specificity(self@, format),
    {
        if self.suffix.is_some() {
            return 0;
        }
        let same_kind = same_text(self.kind.as_str(), format.kind());
        let any_subtype = same_text(self.subtype.as_str(), "*");
        if same_kind && same_text(self.subtype.as_str(), format.subtype()) {
            EXACT
        } else if same_kind && any_subtype {
            WHOLE_TYPE
        } else if any_subtype && same_text(self.kind.as_str(), "*") {
            ANYTHING
        } else {
            0
        }
    }
}

/// Finds the best fit that the ranges give a format: its specificity, then
/// its weight.
fn find_best_fit(ranges: &Vec<MediaRange>, format: SupportedFormat) -> (r: (u8, u32))
    ensures
        r.0 == best_fit(ranges.deep_view(), format).specificity,
        r.1 == best_fit(ranges.deep_view(), format).quality,
{
    let ghost model = ranges.deep_view();
    let mut level: u8 = 0;
    let mut quality: u32 = 0;
    let mut i: usize = 0;
    while i < ranges.len()
        invariant
            i <= ranges.len(),
            model == ranges.deep_view(),
            level == best_fit(model.take(i as int), format).specificity,
            quality == best_fit(model.take(i as int), format).quality,
        decreases ranges.len() - i,
    {
        let here: u8 = ranges[i].specificity(format);
        let weight: u32 = ranges[i].quality();
        proof {
            let next = model.take(i + 1);
            assert(next.drop_last() =~= model.take(i as int));
            assert(next.last() == ranges@[i as int]@);
        }
        if here > 0 && (here > level || (here == level && weight > quality)) {
            level = here;
            quality = weight;
        }
        i += 1;
    }
    assert(model.take(i as int) =~= model);
    (level, quality)
}

/// Selects the supported format that the ranges of a header prefer.
///
/// Fails with `NoAcceptableFormat` where the ranges accept none of the
/// supported formats, and only there.
pub fn select(ranges: &Vec<MediaRange>, supported: &Vec<SupportedFormat>) -> (r: Result<
    SupportedFormat,
    NegotiationError,
>)
    ensures
        r == outcome(selected(ranges.deep_view(), supported@)),
        r is Ok <==> exists|j: int|
            0 <= j < supported.len() && acceptable(ranges.deep_view(), #[trigger] supported@[j]),
{
    let ghost model = ranges.deep_view();
    let mut best: Option<usize> = None;
    let mut best_level: u8 = 0;
    let mut best_quality: u32 = 0;
    let mut j: usize = 0;
    while j < supported.len()
        invariant
            j <= supported.len(),
            model == ranges.deep_view(),
            best is None ==> forall|t: int|
                0 <= t < j ==> !acceptable(model, #[trigger] supported@[t]),
            best matches Some(b) ==> {
                &&& leads(model, supported@, j as int, b as int)
                &&& best_level == best_fit(model, supported@[b as int]).specificity
                &&& best_quality == best_fit(model, supported@[b as int]).quality
            },
        decreases supported.len() - j,
    {
        let (level, quality) = find_best_fit(ranges, supported[j]);
        if level > 0 && quality > 0 {
            let better = match best {
                None => true,
                Some(_) => quality > best_quality || (quality == best_quality && level
                    > best_level),
            };
            if better {
                best = Some(j);
                best_level = level;
                best_quality = quality;
            }
        }
        j += 1;
    }
    match best {
        None => {
            proof {
                nothing_acceptable_nothing_selected(model, supported@);
            }
            Err(NegotiationError::NoAcceptableFormat)
        },
        Some(b) => {
            proof {
                winner_is_selected(model, supported@, b as int);
            }
            Ok(supported[b])
        },
    }
}

/// The error of the header parser.
#[verifier::external_type_specification]
#[verifier::external_body]
pub struct ExAcceptError(accept_header::error::Error);

/// What the header parser reads from a header: its entries, or nothing where
/// the header is malformed.
pub uninterp spec fn accept_ranges(header: Seq<char>) -> Option<Seq<RangeModel>>;

/// Parses an `Accept` header with `accept_header::Accept::from_str`.
///
/// The contract gives the parser's result a name and claims no more than
/// that the same header always reads the same. The entries come in the
/// parser's order: those with a type by falling weight, then the one that the
/// parser kept of those whose type is `*`, which is the last of them. The
/// parser reads a weight only where it is the first parameter after the
/// type: `image/png;level=1;q=0` has no weight.
#[verifier::external_body]
fn parse_accept(header: &str) -> (r: Result<Vec<MediaRange>, accept_header::error::Error>)
    ensures
        r matches Ok(ranges) ==> accept_ranges(header@) == Some(ranges.deep_view()),
        r is Err ==> accept_ranges(header@) is None,
{
    let accept: accept_header::Accept = header.parse()?;
    Ok(accept.types.iter().chain(accept.wildcard.iter()).map(|entry| MediaRange {
        kind: entry.mime.type_().as_str().to_string(),
        subtype: entry.mime.subtype().as_str().to_string(),
        suffix: entry.mime.suffix().map(|name| name.as_str().to_string()),
        weight: entry.weight.map(|w| w.to_bits()),
        parameters: entry.mime.params().map(|(name, value)| (
            name.as_str().to_string(),
            value.as_str().to_string(),
        )).collect(),
    }).collect())
}

/// The message of the header parser's error, from its `Display`. Nothing is
/// claimed of the text.
#[verifier::external_body]
fn accept_error_text(error: &accept_header::error::Error) -> String {
    error.to_string()
}

/// What a header, or its absence, asks for: the entries that the parser
/// reads, `*/*` where there is no header, nothing where the header is
/// malformed.
pub open spec fn requested(accept: Option<Seq<char>>) -> Option<Seq<RangeModel>> {
    match accept {
        None => Some(seq![anything()]),
        Some(header) => accept_ranges(header),
    }
}

/// Negotiates the output format of a request.
///
/// A request without an `Accept` header takes anything. Fails with
/// `Malformed` exactly where the parser rejects the header, and with
/// `NoAcceptableFormat` exactly where the header is well formed and accepts
/// none of the supported formats.
pub fn negotiate(accept: Option<&str>, supported: &Vec<SupportedFormat>) -> (r: Result<
    SupportedFormat,
    NegotiationError,
>)
    ensures
        match requested(accept.deep_view()) {
            Some(ranges) => r == outcome(selected(ranges, supported@)),
            None => r matches Err(NegotiationError::Malformed(_)),
        },
        accept is None && supported.len() > 0 ==> r == Ok::<SupportedFormat, NegotiationError>(
            supported[0],
        ),
{
    match accept {
        None => {
            let mut ranges: Vec<MediaRange> = Vec::new();
            ranges.push(MediaRange::any());
            assert(ranges.deep_view() =~= seq![anything()]);
            proof {
                if supported.len() > 0 {
                    no_header_selects_first_listed(supported@);
                }
            }
            select(&ranges, supported)
        },
        Some(header) => match parse_accept(header) {
            Ok(ranges) => select(&ranges, supported),
            Err(error) => Err(NegotiationError::Malformed(accept_error_text(&error))),
        },
    }
}

} // verus!
