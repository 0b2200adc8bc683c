//! Decoding the two response shapes, with the real JSON parser linked.

use solar_client::{decode_detail, decode_list, request_url, DecodeError, Mass};

const MARS_DETAIL: &str = r#"{"name":"Mars","id":"mars","englishName":"Mars","isPlanet":true,"mass":{"massValue":6.42,"massExponent":23}}"#;

#[test]
fn detail_decodes_required_and_optional_fields() {
    let body = decode_detail(MARS_DETAIL).unwrap();
    assert_eq!(body.name, "Mars");
    assert_eq!(body.id, "mars");
    assert_eq!(body.english_name.as_deref(), Some("Mars"));
    assert!(body.is_planet);
    assert_eq!(
        body.mass,
        Some(Mass {
            mass_value: Some("6.42".to_string()),
            mass_exponent: Some("23".to_string()),
        })
    );
    assert_eq!(body.density, None);
    assert_eq!(body.body_type, None);
}

#[test]
fn detail_keeps_numeric_text_verbatim() {
    let body = decode_detail(
        r#"{"name":"Earth","id":"terre","density":5.513,"gravity":9.8,"mean_radius":6371.0084,"avg_temp":288,"body_type":"Planet"}"#,
    )
    .unwrap();
    assert_eq!(body.density.as_deref(), Some("5.513"));
    assert_eq!(body.gravity.as_deref(), Some("9.8"));
    assert_eq!(body.mean_radius.as_deref(), Some("6371.0084"));
    assert_eq!(body.avg_temp.as_deref(), Some("288"));
    assert_eq!(body.body_type.as_deref(), Some("Planet"));
}

#[test]
fn detail_with_only_required_fields_decodes() {
    let body = decode_detail(r#"{"name":"X","id":"x"}"#).unwrap();
    assert_eq!(body.name, "X");
    assert_eq!(body.id, "x");
    assert_eq!(body.english_name, None);
    assert!(!body.is_planet);
    assert_eq!(body.mass, None);
    assert_eq!(body.density, None);
    assert_eq!(body.flattening, None);
}

#[test]
fn unexpected_field_shapes_read_as_absent() {
    let body = decode_detail(
        r#"{"name":"X","id":"x","density":"5.5","isPlanet":1,"mass":7,"englishName":3}"#,
    )
    .unwrap();
    assert_eq!(body.density, None);
    assert!(!body.is_planet);
    assert_eq!(body.mass, None);
    assert_eq!(body.english_name, None);
}

#[test]
fn partial_mass_objects_keep_what_is_present() {
    let value_only =
        decode_detail(r#"{"name":"X","id":"x","mass":{"massValue":1.5}}"#).unwrap();
    assert_eq!(
        value_only.mass,
        Some(Mass { mass_value: Some("1.5".to_string()), mass_exponent: None })
    );
    let exponent_only =
        decode_detail(r#"{"name":"X","id":"x","mass":{"massExponent":20}}"#).unwrap();
    assert_eq!(
        exponent_only.mass,
        Some(Mass { mass_value: None, mass_exponent: Some("20".to_string()) })
    );
    let empty = decode_detail(r#"{"name":"X","id":"x","mass":{}}"#).unwrap();
    assert_eq!(empty.mass, Some(Mass { mass_value: None, mass_exponent: None }));
}

#[test]
fn detail_errors_name_their_cause() {
    assert_eq!(decode_detail("not json"), Err(DecodeError::Syntax));
    assert_eq!(decode_detail(r#"{"name":"X","id":"x"} trailing"#), Err(DecodeError::Syntax));
    assert_eq!(decode_detail("[1,2]"), Err(DecodeError::NotAnObject));
    assert_eq!(decode_detail(r#""just a string""#), Err(DecodeError::NotAnObject));
    assert_eq!(decode_detail(r#"{"id":"x"}"#), Err(DecodeError::MissingName));
    assert_eq!(decode_detail(r#"{"name":5,"id":"x"}"#), Err(DecodeError::MissingName));
    assert_eq!(decode_detail(r#"{"name":"X"}"#), Err(DecodeError::MissingId));
}

#[test]
fn detail_allows_surrounding_whitespace() {
    let body = decode_detail("  {\"name\":\"X\",\"id\":\"x\"}\n").unwrap();
    assert_eq!(body.name, "X");
}

#[test]
fn list_decodes_one_body() {
    let bodies =
        decode_list(r#"{"bodies":[{"name":"Moon","id":"lune","isPlanet":false}]}"#).unwrap();
    assert_eq!(bodies.len(), 1);
    assert_eq!(bodies[0].name, "Moon");
    assert_eq!(bodies[0].id, "lune");
    assert!(!bodies[0].is_planet);
}

#[test]
fn list_keeps_catalog_order() {
    let bodies = decode_list(
        r#"{"bodies":[{"name":"Mercury","id":"mercure","isPlanet":true},{"name":"Moon","id":"lune"},{"name":"Ceres","id":"ceres","isPlanet":false}]}"#,
    )
    .unwrap();
    assert_eq!(bodies.len(), 3);
    assert_eq!(bodies[0].name, "Mercury");
    assert!(bodies[0].is_planet);
    assert_eq!(bodies[1].name, "Moon");
    assert!(!bodies[1].is_planet);
    assert_eq!(bodies[2].name, "Ceres");
}

#[test]
fn empty_list_decodes_to_no_bodies() {
    let bodies = decode_list(r#"{"bodies":[]}"#).unwrap();
    assert!(bodies.is_empty());
}

#[test]
fn list_errors_name_their_cause() {
    assert_eq!(decode_list("nope"), Err(DecodeError::Syntax));
    assert_eq!(decode_list("[1]"), Err(DecodeError::NotAnObject));
    assert_eq!(decode_list("{}"), Err(DecodeError::MissingBodies));
    assert_eq!(decode_list(r#"{"bodies":5}"#), Err(DecodeError::MissingBodies));
    assert_eq!(
        decode_list(r#"{"bodies":[{"name":"A","id":"a"},{"id":"b"}]}"#),
        Err(DecodeError::MissingName)
    );
    assert_eq!(decode_list(r#"{"bodies":[7]}"#), Err(DecodeError::NotAnObject));
}

#[test]
fn request_url_appends_the_identifier() {
    assert_eq!(request_url(None), "https://api.le-systeme-solaire.net/rest/bodies/");
    assert_eq!(
        request_url(Some("mars")),
        "https://api.le-systeme-solaire.net/rest/bodies/mars"
    );
}
