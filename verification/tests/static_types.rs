use dynenum::Information;
use dynenum::ParseError;

#[test]
fn information_parse_exact() {
    assert_eq!(Information::from_str("email"), Ok(Information::Email));
    assert_eq!(Information::from_str("phone_number"), Ok(Information::PhoneNumber));
    assert_eq!(Information::from_str("credential"), Ok(Information::Credential));
    assert_eq!(Information::from_str("date"), Ok(Information::Date));
}

#[test]
fn information_parse_unrecognized() {
    assert_eq!(Information::from_str("fax"), Err(ParseError::Unrecognized));
    assert_eq!(Information::from_str(""), Err(ParseError::Unrecognized));
    assert_eq!(Information::from_str("Email"), Err(ParseError::Unrecognized));
    assert_eq!(ParseError::Unrecognized.message(), "unrecognized value");
}

#[test]
fn information_round_trip_all() {
    for s in Information::all_strings() {
        let i = Information::from_str(s).unwrap();
        assert_eq!(i.as_str(), s);
        assert_eq!(i.render(), s);
    }
    for i in Information::all() {
        assert_eq!(Information::from_str(i.as_str()), Ok(i));
    }
}

#[test]
fn information_listing_order() {
    assert_eq!(
        Information::all_strings(),
        vec!["email", "phone_number", "credential", "date"],
    );
}

#[test]
fn match_helper_over_static_tags() {
    let info = Information::from_str("email").unwrap();
    let cases = vec![("email".to_string(), 1), ("phone_number".to_string(), 2)];
    assert_eq!(dynenum::match_type(info.as_str(), cases, Some(0)), 1);
}
