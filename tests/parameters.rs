use resonance::{
    get_body_radius, is_synchronous_lowered, radius_of_lowered, parse_two, resolve_body, same_text, split_segments, Altitude,
    BodyRadius, BuildParametersError, EmptyNumber, ParseAltitudeError, ParseRatioError,
    ParseTwoErr, Parameters, Ratio, EARTH_RADIUS, KERBIN_RADIUS,
};

fn ratio_err(s: &str) -> ParseTwoErr<std::num::ParseIntError> {
    match Ratio::parse(s) {
        Err(ParseRatioError(e)) => e,
        Ok(r) => panic!("{} read as {:?}", s, r),
    }
}

fn altitude_err(s: &str) -> ParseTwoErr<EmptyNumber> {
    match Altitude::parse(s, false) {
        Err(ParseAltitudeError(e)) => e,
        Ok(a) => panic!("{} read as {:?}", s, a),
    }
}

#[test]
fn split_gives_pieces_between_non_digits() {
    let parts = split_segments("12:3x:45");
    assert_eq!(parts, vec!["12", "3", "45"]);
    assert_eq!(split_segments("100000 x 90000"), vec!["100000", "90000"]);
    assert_eq!(split_segments("::5::"), vec!["", "5", ""]);
    assert_eq!(split_segments(""), vec![""]);
    assert_eq!(split_segments("7"), vec!["7"]);
    assert_eq!(split_segments(":"), vec!["", ""]);
}

#[test]
fn parse_two_reads_both_integers() {
    assert_eq!(parse_two("3:2").unwrap(), (3, 2));
    assert_eq!(parse_two("10x20").unwrap(), (10, 20));
    assert_eq!(parse_two("2147483647/0").unwrap(), (2147483647, 0));
    assert_eq!(parse_two("1::2").unwrap(), (1, 2));
    assert_eq!(parse_two("4 : 5").unwrap(), (4, 5));
}

#[test]
fn parse_two_failures() {
    assert!(matches!(parse_two("1:2:3"), Err(ParseTwoErr::TooManyParts)));
    assert!(matches!(parse_two("1::2:3"), Err(ParseTwoErr::TooManyParts)));
    assert!(matches!(parse_two("1:2:"), Err(ParseTwoErr::TooManyParts)));
    assert!(matches!(parse_two("1"), Err(ParseTwoErr::MissingSegment)));
    assert!(matches!(parse_two(""), Err(ParseTwoErr::Parse(_))));
    assert!(matches!(parse_two(":2"), Err(ParseTwoErr::Parse(_))));
    assert!(matches!(parse_two("1:"), Err(ParseTwoErr::Parse(_))));
    assert!(matches!(parse_two("2147483648:1"), Err(ParseTwoErr::Parse(_))));
    // The first piece is read before the second is looked for.
    assert!(matches!(parse_two("99999999999"), Err(ParseTwoErr::Parse(_))));
}

#[test]
fn ratio_reads_numerator_and_denominator() {
    let r = Ratio::parse("2:3").unwrap();
    assert_eq!(r, Ratio::new(2, 3));
    assert_eq!(r.numer, 2);
    assert_eq!(r.denom, 3);
    assert!(!r.is_greater_than_one());
    assert!(Ratio::parse("3:2").unwrap().is_greater_than_one());
    assert!(!Ratio::parse("1:1").unwrap().is_greater_than_one());
    assert!(!Ratio::parse("1:3").unwrap().is_greater_than_one());
}

#[test]
fn ratio_direction_follows_the_parts() {
    for a in 1..6 {
        for b in 1..6 {
            let r = Ratio::parse(&format!("{}:{}", a, b)).unwrap();
            assert_eq!(r.numer, a);
            assert_eq!(r.denom, b);
            assert_eq!(r.is_greater_than_one(), a > b);
        }
    }
}

#[test]
fn ratio_with_too_many_parts() {
    assert!(matches!(ratio_err("1:2:3"), ParseTwoErr::TooManyParts));
}

#[test]
fn ratio_with_one_part() {
    assert!(matches!(ratio_err("1"), ParseTwoErr::MissingSegment));
}

#[test]
fn ratio_with_bad_number() {
    assert!(matches!(ratio_err("a:b"), ParseTwoErr::Parse(_)));
    assert!(matches!(ratio_err("1:"), ParseTwoErr::Parse(_)));
    assert!(matches!(ratio_err("1:3000000000"), ParseTwoErr::Parse(_)));
}

#[test]
fn single_number_is_circular() {
    for s in ["1000", "2.5e5", "-3", "100000.75"] {
        let a = Altitude::parse(s, true).unwrap();
        assert_eq!(a.ap, s);
        assert_eq!(a.pe, s);
    }
}

#[test]
fn synchronous_names_in_any_case() {
    for s in ["keo", "KEO", "Keosynchronous", "geosynchronous", "GEOSTATIONARY"] {
        let a = Altitude::parse(s, false).unwrap();
        assert_eq!(a.ap, "2863330");
        assert_eq!(a.pe, "2863330");
    }
}

#[test]
fn pair_keeps_written_order() {
    let a = Altitude::parse("100000x80000", false).unwrap();
    assert_eq!(a.ap, "100000");
    assert_eq!(a.pe, "80000");
    let b = Altitude::parse("80000x100000", false).unwrap();
    assert_eq!(b.ap, "80000");
    assert_eq!(b.pe, "100000");
    let c = Altitude::parse("70000 90000", false).unwrap();
    assert_eq!(c.ap, "70000");
    assert_eq!(c.pe, "90000");
    let d = Altitude::parse("100000 x 90000", false).unwrap();
    assert_eq!(d.ap, "100000");
    assert_eq!(d.pe, "90000");
    let e = Altitude::parse("1::2", false).unwrap();
    assert_eq!(e.ap, "1");
    assert_eq!(e.pe, "2");
}

#[test]
fn altitude_failures() {
    assert!(matches!(altitude_err("5"), ParseTwoErr::MissingSegment));
    assert!(matches!(altitude_err("1x2x3"), ParseTwoErr::TooManyParts));
    assert!(matches!(altitude_err("x5"), ParseTwoErr::Parse(EmptyNumber)));
    assert!(matches!(altitude_err("5x"), ParseTwoErr::Parse(EmptyNumber)));
    assert!(matches!(altitude_err("keostationary"), ParseTwoErr::Parse(EmptyNumber)));
}

#[test]
fn body_defaults_to_earth() {
    assert!(matches!(resolve_body(None, false), Ok(BodyRadius::Meters(EARTH_RADIUS))));
    assert_eq!(EARTH_RADIUS, 6_378_137);
}

#[test]
fn body_by_name_in_any_case() {
    assert_eq!(get_body_radius("kerbin").unwrap(), KERBIN_RADIUS);
    assert_eq!(get_body_radius("KERBIN").unwrap(), 600_000);
    assert!(matches!(resolve_body(Some("Kerbin"), false), Ok(BodyRadius::Meters(600_000))));
}

#[test]
fn body_given_as_number() {
    match resolve_body(Some("700000"), true) {
        Ok(BodyRadius::Given(t)) => assert_eq!(t, "700000"),
        other => panic!("{:?}", other),
    }
}

#[test]
fn unknown_body_carries_its_name() {
    match resolve_body(Some("Mars"), false) {
        Err(BuildParametersError::Body(name)) => assert_eq!(name, "Mars"),
        other => panic!("{:?}", other),
    }
    match get_body_radius("Mars") {
        Err(BuildParametersError::Body(name)) => assert_eq!(name, "Mars"),
        other => panic!("{:?}", other),
    }
}

#[test]
fn build_reads_all_parameters() {
    let p = Parameters::build("100000x80000", false, "2:3", Some("kerbin"), false).unwrap();
    assert_eq!(p.altitude.ap, "100000");
    assert_eq!(p.altitude.pe, "80000");
    assert_eq!(p.ratio, Ratio::new(2, 3));
    assert!(matches!(p.body, BodyRadius::Meters(600_000)));
    let q = Parameters::build("keo", false, "1:3", None, false).unwrap();
    assert_eq!(q.altitude.ap, "2863330");
    assert!(matches!(q.body, BodyRadius::Meters(6_378_137)));
}

#[test]
fn build_stops_at_first_failure() {
    assert!(matches!(
        Parameters::build("1x2x3", false, "1", Some("Mars"), false),
        Err(BuildParametersError::Altitude(ParseAltitudeError(ParseTwoErr::TooManyParts)))
    ));
    assert!(matches!(
        Parameters::build("100", true, "1", Some("Mars"), false),
        Err(BuildParametersError::Ratio(ParseRatioError(ParseTwoErr::MissingSegment)))
    ));
    match Parameters::build("100", true, "1:2", Some("Mars"), false) {
        Err(BuildParametersError::Body(name)) => assert_eq!(name, "Mars"),
        other => panic!("{:?}", other),
    }
}

#[test]
fn errors_convert_into_build_error() {
    let e: BuildParametersError = ParseRatioError(ParseTwoErr::TooManyParts).into();
    assert!(matches!(e, BuildParametersError::Ratio(ParseRatioError(ParseTwoErr::TooManyParts))));
    let f: BuildParametersError = ParseAltitudeError(ParseTwoErr::MissingSegment).into();
    assert!(matches!(
        f,
        BuildParametersError::Altitude(ParseAltitudeError(ParseTwoErr::MissingSegment))
    ));
    let bad = "x".parse::<f64>().unwrap_err();
    let g: BuildParametersError = bad.into();
    assert!(matches!(g, BuildParametersError::Period(_)));
}

#[test]
fn same_text_compares_characters() {
    assert!(same_text("kerbin", "kerbin"));
    assert!(!same_text("kerbin", "Kerbin"));
    assert!(!same_text("keo", "keos"));
    assert!(same_text("", ""));
}

#[test]
fn parse_failure_wraps_its_cause() {
    let e: ParseTwoErr<u8> = 7u8.into();
    assert!(matches!(e, ParseTwoErr::Parse(7)));
    match parse_two("1:x") {
        Err(ParseTwoErr::Parse(inner)) => {
            assert_eq!(inner, "".parse::<i32>().unwrap_err());
        }
        other => panic!("{:?}", other),
    }
}

#[test]
fn lowered_names() {
    assert!(is_synchronous_lowered("keo"));
    assert!(is_synchronous_lowered("geostationary"));
    assert!(!is_synchronous_lowered("GeoStationary"));
    assert!(!is_synchronous_lowered("keos"));
    assert_eq!(radius_of_lowered("kerbin"), Some(600_000));
    assert_eq!(radius_of_lowered("Kerbin"), None);
    assert_eq!(radius_of_lowered("mars"), None);
}

#[test]
fn error_messages() {
    let body = BuildParametersError::Body("Mars".to_string());
    assert_eq!(body.message(), "Body not found: Mars");
    let many = BuildParametersError::Ratio(ParseRatioError(ParseTwoErr::TooManyParts));
    assert_eq!(many.message(), "Bad ratio: invalid format (too many segments)");
    let missing = BuildParametersError::Altitude(ParseAltitudeError(ParseTwoErr::MissingSegment));
    assert_eq!(missing.message(), "Bad altitude: invalid format (missing segment)");
    let empty = BuildParametersError::Altitude(ParseAltitudeError(ParseTwoErr::Parse(EmptyNumber)));
    assert_eq!(empty.message(), "Bad altitude: cannot parse float from empty string");
    let bad_int = "".parse::<i32>().unwrap_err();
    let int_text = bad_int.to_string();
    let ratio = BuildParametersError::Ratio(ParseRatioError(ParseTwoErr::Parse(bad_int)));
    assert_eq!(ratio.message(), format!("Bad ratio: {}", int_text));
    let bad_float = "x".parse::<f64>().unwrap_err();
    let float_text = bad_float.to_string();
    let period = BuildParametersError::Period(bad_float);
    assert_eq!(period.message(), format!("Bad orbital period: {}", float_text));
}
