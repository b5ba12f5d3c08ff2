use image_lambda::errors::{Failure, NegotiationError};
use image_lambda::negotiation::{negotiate, select, MediaRange, SupportedFormat};

fn range(kind: &str, subtype: &str, quality: Option<f32>) -> MediaRange {
    MediaRange {
        kind: kind.to_string(),
        subtype: subtype.to_string(),
        suffix: None,
        weight: quality.map(|q| q.to_bits()),
        parameters: Vec::new(),
    }
}

const PNG_FIRST: [SupportedFormat; 2] = [SupportedFormat::Png, SupportedFormat::Jpeg];
const JPEG_FIRST: [SupportedFormat; 2] = [SupportedFormat::Jpeg, SupportedFormat::Png];

#[test]
fn higher_quality_wins() {
    let chosen = negotiate(Some("image/jpeg;q=0.5, image/png;q=0.9"), &PNG_FIRST.to_vec());
    assert_eq!(chosen, Ok(SupportedFormat::Png));
    let chosen = negotiate(Some("image/jpeg;q=0.5, image/png;q=0.9"), &JPEG_FIRST.to_vec());
    assert_eq!(chosen, Ok(SupportedFormat::Png));
    let chosen = negotiate(Some("image/jpeg;q=0.9, image/png;q=0.5"), &PNG_FIRST.to_vec());
    assert_eq!(chosen, Ok(SupportedFormat::Jpeg));
}

#[test]
fn named_type_is_selected() {
    for supported in [PNG_FIRST.to_vec(), JPEG_FIRST.to_vec()] {
        assert_eq!(negotiate(Some("image/png"), &supported), Ok(SupportedFormat::Png));
        assert_eq!(negotiate(Some("image/jpeg"), &supported), Ok(SupportedFormat::Jpeg));
        assert_eq!(negotiate(Some("image/png;q=0.001"), &supported), Ok(SupportedFormat::Png));
        assert_eq!(negotiate(Some("image/jpeg;q=1"), &supported), Ok(SupportedFormat::Jpeg));
    }
}

#[test]
fn named_type_is_read_without_regard_to_case() {
    assert_eq!(negotiate(Some("IMAGE/PNG"), &JPEG_FIRST.to_vec()), Ok(SupportedFormat::Png));
}

#[test]
fn wildcard_selects_first_listed() {
    assert_eq!(negotiate(Some("*/*"), &PNG_FIRST.to_vec()), Ok(SupportedFormat::Png));
    assert_eq!(negotiate(Some("*/*"), &JPEG_FIRST.to_vec()), Ok(SupportedFormat::Jpeg));
    assert_eq!(negotiate(Some("*/*;q=0.2"), &JPEG_FIRST.to_vec()), Ok(SupportedFormat::Jpeg));
}

#[test]
fn absent_header_accepts_anything() {
    assert_eq!(negotiate(None, &PNG_FIRST.to_vec()), Ok(SupportedFormat::Png));
    assert_eq!(negotiate(None, &JPEG_FIRST.to_vec()), Ok(SupportedFormat::Jpeg));
    assert_eq!(negotiate(None, &vec![SupportedFormat::Png]), Ok(SupportedFormat::Png));
}

#[test]
fn absent_header_is_the_parsed_wildcard() {
    let parsed = negotiate(Some("*/*"), &JPEG_FIRST.to_vec());
    assert_eq!(negotiate(None, &JPEG_FIRST.to_vec()), parsed);
    assert_eq!(MediaRange::any(), range("*", "*", None));
}

#[test]
fn unsupported_types_are_refused() {
    let refused = negotiate(Some("text/html, application/json;q=0.8"), &PNG_FIRST.to_vec());
    assert_eq!(refused, Err(NegotiationError::NoAcceptableFormat));
    let refused = negotiate(Some("image/webp"), &PNG_FIRST.to_vec());
    assert_eq!(refused, Err(NegotiationError::NoAcceptableFormat));
    let problem = image_lambda::errors::map(Failure::Negotiation(refused.unwrap_err()));
    assert_eq!(problem.status, 415);
}

#[test]
fn nothing_supported_nothing_selected() {
    assert_eq!(negotiate(Some("*/*"), &Vec::new()), Err(NegotiationError::NoAcceptableFormat));
    assert_eq!(negotiate(None, &Vec::new()), Err(NegotiationError::NoAcceptableFormat));
}

#[test]
fn malformed_header_is_reported() {
    for header in ["image", "image/png;q=abc", "image/png;q=1.5", "image/png;q=-0.5", "", "image/png,"] {
        match negotiate(Some(header), &PNG_FIRST.to_vec()) {
            Err(NegotiationError::Malformed(message)) => assert!(!message.is_empty()),
            other => panic!("{header:?} gave {other:?}"),
        }
    }
}

#[test]
fn malformed_header_is_a_bad_request() {
    let error = negotiate(Some("image/png;q=abc"), &PNG_FIRST.to_vec()).unwrap_err();
    let problem = image_lambda::errors::map(Failure::Negotiation(error));
    assert_eq!(problem.status, 400);
    assert_eq!(problem.title, "malformed Accept header");
    assert_eq!(problem.detail, Some("Invalid weight: abc".to_string()));
}

#[test]
fn zero_quality_excludes() {
    let supported = PNG_FIRST.to_vec();
    assert_eq!(negotiate(Some("image/png;q=0"), &supported), Err(NegotiationError::NoAcceptableFormat));
    assert_eq!(negotiate(Some("image/png;q=0, */*"), &supported), Ok(SupportedFormat::Jpeg));
    assert_eq!(negotiate(Some("image/png;q=0, image/*;q=0.3"), &supported), Ok(SupportedFormat::Jpeg));
    assert_eq!(negotiate(Some("*/*;q=0"), &supported), Err(NegotiationError::NoAcceptableFormat));
    assert_eq!(negotiate(Some("*/*;q=0.0"), &supported), Err(NegotiationError::NoAcceptableFormat));
}

#[test]
fn negative_zero_is_zero() {
    let supported = PNG_FIRST.to_vec();
    assert_eq!(negotiate(Some("image/png;q=-0"), &supported), Err(NegotiationError::NoAcceptableFormat));
    assert_eq!(negotiate(Some("image/png;q=-0.0, image/jpeg;q=0.1"), &supported), Ok(SupportedFormat::Jpeg));
    let ranges = vec![range("image", "png", Some(-0.0))];
    assert_eq!(ranges[0].quality(), 0);
    assert_eq!(select(&ranges, &supported), Err(NegotiationError::NoAcceptableFormat));
}

#[test]
fn weight_below_the_least_number_is_zero() {
    // Single precision tells nothing below 1.4e-45 from zero.
    let supported = PNG_FIRST.to_vec();
    assert_eq!(negotiate(Some("image/png;q=1e-46"), &supported), Err(NegotiationError::NoAcceptableFormat));
    assert_eq!(negotiate(Some("image/png;q=1e-45"), &supported), Ok(SupportedFormat::Png));
    assert_eq!(negotiate(Some("image/png;q=1e-45, image/jpeg;q=3e-45"), &supported), Ok(SupportedFormat::Jpeg));
}

#[test]
fn weight_is_read_only_next_to_the_type() {
    // The parser takes a weight from the first parameter alone.
    let supported = PNG_FIRST.to_vec();
    assert_eq!(negotiate(Some("image/jpeg;q=0.5, image/png;level=1;q=0.1"), &supported), Ok(SupportedFormat::Png));
}

#[test]
fn most_specific_range_gives_the_quality() {
    let supported = PNG_FIRST.to_vec();
    // PNG is matched by its own range (0.4), JPEG by image/* (0.5).
    assert_eq!(negotiate(Some("image/*;q=0.5, image/png;q=0.4"), &supported), Ok(SupportedFormat::Jpeg));
    assert_eq!(negotiate(Some("*/*;q=0.9, image/*;q=0.5, image/png;q=0.6"), &supported), Ok(SupportedFormat::Png));
    assert_eq!(negotiate(Some("*/*;q=0.9, image/jpeg;q=0.5"), &supported), Ok(SupportedFormat::Png));
}

#[test]
fn type_wildcard_covers_both_formats() {
    assert_eq!(negotiate(Some("image/*"), &PNG_FIRST.to_vec()), Ok(SupportedFormat::Png));
    assert_eq!(negotiate(Some("image/*"), &JPEG_FIRST.to_vec()), Ok(SupportedFormat::Jpeg));
    assert_eq!(negotiate(Some("text/*"), &JPEG_FIRST.to_vec()), Err(NegotiationError::NoAcceptableFormat));
}

#[test]
fn equal_quality_prefers_the_more_specific_match() {
    assert_eq!(negotiate(Some("image/png, */*"), &JPEG_FIRST.to_vec()), Ok(SupportedFormat::Png));
    assert_eq!(negotiate(Some("image/*, image/png"), &JPEG_FIRST.to_vec()), Ok(SupportedFormat::Png));
}

#[test]
fn full_tie_goes_to_the_first_listed() {
    assert_eq!(negotiate(Some("image/png, image/jpeg"), &JPEG_FIRST.to_vec()), Ok(SupportedFormat::Jpeg));
    assert_eq!(negotiate(Some("image/png, image/jpeg"), &PNG_FIRST.to_vec()), Ok(SupportedFormat::Png));
    assert_eq!(negotiate(Some("image/jpeg;q=0.7, image/png;q=0.7"), &PNG_FIRST.to_vec()), Ok(SupportedFormat::Png));
}

#[test]
fn suffixed_subtype_is_another_type() {
    assert_eq!(negotiate(Some("image/png+xml"), &PNG_FIRST.to_vec()), Err(NegotiationError::NoAcceptableFormat));
    let mut suffixed = range("image", "png", None);
    suffixed.suffix = Some("xml".to_string());
    assert_eq!(suffixed.specificity(SupportedFormat::Png), 0);
}

#[test]
fn specificity_has_four_levels() {
    assert_eq!(range("image", "png", None).specificity(SupportedFormat::Png), 3);
    assert_eq!(range("image", "png", None).specificity(SupportedFormat::Jpeg), 0);
    assert_eq!(range("image", "*", None).specificity(SupportedFormat::Jpeg), 2);
    assert_eq!(range("*", "*", None).specificity(SupportedFormat::Jpeg), 1);
    assert_eq!(range("*", "png", None).specificity(SupportedFormat::Png), 0);
    assert_eq!(range("text", "*", None).specificity(SupportedFormat::Png), 0);
}

#[test]
fn quality_orders_as_the_weights_do() {
    assert_eq!(range("*", "*", None).quality(), 0x3f80_0000);
    assert_eq!(range("*", "*", Some(1.0)).quality(), 0x3f80_0000);
    assert_eq!(range("*", "*", Some(0.0)).quality(), 0);
    let weights = [0.0f32, 0.001, 0.01, 0.1, 0.25, 0.5, 0.75, 0.9, 0.999, 1.0];
    for pair in weights.windows(2) {
        let lower = range("*", "*", Some(pair[0])).quality();
        let higher = range("*", "*", Some(pair[1])).quality();
        assert!(lower < higher, "{} and {}", pair[0], pair[1]);
    }
}

#[test]
fn select_weighs_hand_built_ranges() {
    let ranges = vec![range("image", "jpeg", Some(0.5)), range("image", "png", Some(0.9))];
    assert_eq!(select(&ranges, &PNG_FIRST.to_vec()), Ok(SupportedFormat::Png));
    assert_eq!(select(&ranges, &vec![SupportedFormat::Jpeg]), Ok(SupportedFormat::Jpeg));
    assert_eq!(select(&Vec::new(), &PNG_FIRST.to_vec()), Err(NegotiationError::NoAcceptableFormat));
    // Two ranges of one type: the higher weight counts.
    let twice = vec![range("image", "png", Some(0.2)), range("image", "png", Some(0.8)), range("image", "jpeg", Some(0.5))];
    assert_eq!(select(&twice, &JPEG_FIRST.to_vec()), Ok(SupportedFormat::Png));
}

#[test]
fn media_type_carries_no_parameter() {
    assert_eq!(SupportedFormat::Png.mime_type(), "image/png");
    assert_eq!(SupportedFormat::Jpeg.mime_type(), "image/jpeg");
    assert_eq!(SupportedFormat::Png.kind(), "image");
    assert_eq!(SupportedFormat::Jpeg.subtype(), "jpeg");
}
