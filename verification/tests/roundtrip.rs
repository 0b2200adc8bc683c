//! Decoding a response and re-encoding the record reproduces its values.

use solar_client::{body_from_json, body_to_json, decode_detail, encode_body};

const MARS_DETAIL: &str = r#"{"name":"Mars","id":"mars","englishName":"Mars","isPlanet":true,"mass":{"massValue":6.42,"massExponent":23}}"#;

#[test]
fn encoded_text_decodes_back_to_the_same_record() {
    let body = decode_detail(MARS_DETAIL).unwrap();
    let text = encode_body(&body);
    let again = decode_detail(&text).unwrap();
    assert_eq!(again, body);
}

#[test]
fn encoded_tree_decodes_back_to_the_same_record() {
    let body = decode_detail(MARS_DETAIL).unwrap();
    let tree = body_to_json(&body);
    assert_eq!(body_from_json(&tree), Ok(body));
}

#[test]
fn minimal_record_encodes_the_canonical_field_set() {
    let body = decode_detail(r#"{"name":"X","id":"x"}"#).unwrap();
    assert_eq!(
        encode_body(&body),
        r#"{"name":"X","id":"x","englishName":null,"isPlanet":false,"mass":null,"density":null,"gravity":null,"escape":null,"mean_radius":null,"equa_radius":null,"polar_radius":null,"flattening":null,"sideral_orbit":null,"sideral_rotation":null,"axial_tilt":null,"avg_temp":null,"body_type":null}"#
    );
}

#[test]
fn mars_record_encodes_populated_fields_verbatim() {
    let body = decode_detail(MARS_DETAIL).unwrap();
    assert_eq!(
        encode_body(&body),
        r#"{"name":"Mars","id":"mars","englishName":"Mars","isPlanet":true,"mass":{"massValue":6.42,"massExponent":23},"density":null,"gravity":null,"escape":null,"mean_radius":null,"equa_radius":null,"polar_radius":null,"flattening":null,"sideral_orbit":null,"sideral_rotation":null,"axial_tilt":null,"avg_temp":null,"body_type":null}"#
    );
}

#[test]
fn escaped_names_survive_the_round_trip() {
    let source = r#"{"name":"a\"b\\c\nd\u0001e","id":"x\tq"}"#;
    let body = decode_detail(source).unwrap();
    assert_eq!(body.name, "a\"b\\c\nd\u{1}e");
    let text = encode_body(&body);
    assert!(text.starts_with(r#"{"name":"a\"b\\c\nd\u0001e","id":"x\tq","#));
    let again = decode_detail(&text).unwrap();
    assert_eq!(again, body);
}

#[test]
fn partial_mass_survives_the_round_trip() {
    let body = decode_detail(r#"{"name":"X","id":"x","mass":{"massValue":1.5}}"#).unwrap();
    let again = decode_detail(&encode_body(&body)).unwrap();
    assert_eq!(again, body);
    let tree = body_to_json(&body);
    assert_eq!(body_from_json(&tree), Ok(body));
}
