use image_lambda::errors::{Failure, Param, ParamError};
use image_lambda::params::{get_required_query_param, resolve, Dimensions};
use image_lambda::text::{parse_u32, same_text};

fn query(pairs: &[(&str, &str)]) -> Vec<(String, String)> {
    pairs.iter().map(|(name, value)| (name.to_string(), value.to_string())).collect()
}

#[test]
fn both_sides_given() {
    let size = resolve(&query(&[("width", "50"), ("height", "75")]));
    assert_eq!(size, Ok(Dimensions { width: 50, height: 75 }));
    let size = resolve(&query(&[("height", "1"), ("other", "x"), ("width", "4294967295")]));
    assert_eq!(size, Ok(Dimensions { width: 4294967295, height: 1 }));
}

#[test]
fn missing_side_is_not_defaulted() {
    assert_eq!(resolve(&query(&[])), Err(ParamError::Missing(Param::Width)));
    assert_eq!(resolve(&query(&[("height", "75")])), Err(ParamError::Missing(Param::Width)));
    assert_eq!(resolve(&query(&[("width", "50")])), Err(ParamError::Missing(Param::Height)));
    assert_eq!(resolve(&query(&[("Width", "50"), ("height", "5")])), Err(ParamError::Missing(Param::Width)));
}

#[test]
fn zero_is_invalid() {
    assert_eq!(resolve(&query(&[("width", "0"), ("height", "75")])), Err(ParamError::Invalid(Param::Width)));
    assert_eq!(resolve(&query(&[("width", "50"), ("height", "0")])), Err(ParamError::Invalid(Param::Height)));
    assert_eq!(resolve(&query(&[("width", "000"), ("height", "1")])), Err(ParamError::Invalid(Param::Width)));
}

#[test]
fn non_numeric_is_invalid() {
    for bad in ["abc", "", "-5", "5px", " 5", "5 ", "1.5", "+", "4294967296", "99999999999999999999", "\u{ff11}"] {
        assert_eq!(
            resolve(&query(&[("width", bad), ("height", "75")])),
            Err(ParamError::Invalid(Param::Width)),
            "{bad:?}"
        );
        assert_eq!(
            resolve(&query(&[("width", "50"), ("height", bad)])),
            Err(ParamError::Invalid(Param::Height)),
            "{bad:?}"
        );
    }
}

#[test]
fn width_is_looked_at_first() {
    assert_eq!(resolve(&query(&[("width", "x"), ("height", "y")])), Err(ParamError::Invalid(Param::Width)));
    assert_eq!(resolve(&query(&[("height", "y")])), Err(ParamError::Missing(Param::Width)));
    assert_eq!(resolve(&query(&[("width", "0")])), Err(ParamError::Invalid(Param::Width)));
}

#[test]
fn first_value_counts() {
    let size = resolve(&query(&[("width", "10"), ("width", "20"), ("height", "30"), ("height", "x")]));
    assert_eq!(size, Ok(Dimensions { width: 10, height: 30 }));
    let size = resolve(&query(&[("width", "x"), ("width", "20"), ("height", "30")]));
    assert_eq!(size, Err(ParamError::Invalid(Param::Width)));
}

#[test]
fn required_param_is_read_as_a_positive_number() {
    let q = query(&[("width", "50"), ("height", "+12")]);
    assert_eq!(get_required_query_param(&q, Param::Width), Ok(50));
    assert_eq!(get_required_query_param(&q, Param::Height), Ok(12));
    assert_eq!(get_required_query_param(&query(&[("width", "4294967295")]), Param::Width), Ok(u32::MAX));
    assert_eq!(get_required_query_param(&query(&[("width", "1")]), Param::Width), Ok(1));
    assert_eq!(get_required_query_param(&query(&[]), Param::Height), Err(ParamError::Missing(Param::Height)));
    assert_eq!(get_required_query_param(&query(&[("width", "w")]), Param::Width), Err(ParamError::Invalid(Param::Width)));
}

#[test]
fn required_param_of_zero_is_invalid() {
    let q = query(&[("width", "0"), ("height", "75")]);
    assert_eq!(get_required_query_param(&q, Param::Width), Err(ParamError::Invalid(Param::Width)));
    assert_eq!(get_required_query_param(&q, Param::Height), Ok(75));
    for zero in ["0", "+0", "000"] {
        let q = query(&[("height", zero), ("width", "3")]);
        assert_eq!(get_required_query_param(&q, Param::Height), Err(ParamError::Invalid(Param::Height)), "{zero:?}");
    }
    let error = get_required_query_param(&q, Param::Width).unwrap_err();
    let problem = image_lambda::errors::map(Failure::Param(error));
    assert_eq!(problem.status, 400);
    assert!(problem.detail.unwrap().contains("width"));
}

#[test]
fn parse_u32_reads_as_std_does() {
    let samples = [
        "", "0", "1", "9", "10", "007", "+0", "+7", "++7", "+", "-", "-0", "-1", "+-1", "12a", "a12", "1 2",
        " 12", "12 ", "1_000", "0x10", "4294967294", "4294967295", "4294967296", "4294967300", "42949672950",
        "+4294967295", "+4294967296", "00004294967295", "18446744073709551616", "١٢", "1\u{0}", "12\n", "é",
        "5é", "1e3", "٣",
    ];
    for text in samples {
        assert_eq!(parse_u32(text), text.parse::<u32>().ok(), "{text:?}");
    }
    for n in [0u32, 1, 9, 10, 99, 100, 65535, 65536, 1 << 31, u32::MAX - 1, u32::MAX] {
        assert_eq!(parse_u32(&n.to_string()), Some(n));
    }
}

#[test]
fn same_text_compares_characters() {
    assert!(same_text("", ""));
    assert!(same_text("width", "width"));
    assert!(!same_text("width", "Width"));
    assert!(!same_text("width", "widt"));
    assert!(!same_text("widt", "width"));
    assert!(same_text("é*", "é*"));
    assert!(!same_text("é", "e"));
}

#[test]
fn dimensions_are_positive() {
    assert_eq!(Dimensions::new(1, 1), Some(Dimensions { width: 1, height: 1 }));
    assert_eq!(Dimensions::new(0, 1), None);
    assert_eq!(Dimensions::new(1, 0), None);
}

#[test]
fn bad_width_is_a_bad_request_naming_width() {
    for bad in ["0", "abc"] {
        let error = resolve(&query(&[("width", bad), ("height", "75")])).unwrap_err();
        let problem = image_lambda::errors::map(Failure::Param(error));
        assert_eq!(problem.status, 400);
        assert_eq!(problem.detail, Some("width must be a positive integer".to_string()));
        assert!(problem.detail.unwrap().contains("width"));
    }
    let error = resolve(&query(&[("height", "75")])).unwrap_err();
    let problem = image_lambda::errors::map(Failure::Param(error));
    assert_eq!(problem.status, 400);
    assert_eq!(problem.detail, Some("you must provide a width parameter".to_string()));
}
