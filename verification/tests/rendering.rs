//! The console lines the presenter produces.

use solar_client::{
    decode_detail, decode_list, detail_error_line, detail_lines, list_error_line, list_lines,
    mass_line, CelestialBody, DecodeError, Mass,
};

fn bare_body(name: &str, id: &str) -> CelestialBody {
    CelestialBody {
        name: name.to_string(),
        id: id.to_string(),
        english_name: None,
        is_planet: false,
        mass: None,
        density: None,
        gravity: None,
        escape: None,
        mean_radius: None,
        equa_radius: None,
        polar_radius: None,
        flattening: None,
        sideral_orbit: None,
        sideral_rotation: None,
        axial_tilt: None,
        avg_temp: None,
        body_type: None,
    }
}

#[test]
fn mars_detail_prints_head_then_mass() {
    let body = decode_detail(
        r#"{"name":"Mars","id":"mars","englishName":"Mars","isPlanet":true,"mass":{"massValue":6.42,"massExponent":23}}"#,
    )
    .unwrap();
    let lines = detail_lines(&body);
    assert_eq!(lines[0], "Name: Mars, ID: mars, English Name: Mars, Is Planet: true");
    assert_eq!(lines[1], "Mass: 6.42e23");
}

#[test]
fn moon_list_prints_one_line() {
    let bodies =
        decode_list(r#"{"bodies":[{"name":"Moon","id":"lune","isPlanet":false}]}"#).unwrap();
    let lines = list_lines(&bodies);
    assert_eq!(lines, vec!["Name: Moon, ID: lune, Is Planet: false".to_string()]);
}

#[test]
fn list_mode_prints_one_line_per_body() {
    let bodies = decode_list(
        r#"{"bodies":[{"name":"Mercury","id":"mercure","isPlanet":true},{"name":"Moon","id":"lune"},{"name":"Ceres","id":"ceres","isPlanet":false}]}"#,
    )
    .unwrap();
    let lines = list_lines(&bodies);
    assert_eq!(lines.len(), 3);
    assert_eq!(lines[0], "Name: Mercury, ID: mercure, Is Planet: true");
    assert_eq!(lines[1], "Name: Moon, ID: lune, Is Planet: false");
    assert_eq!(lines[2], "Name: Ceres, ID: ceres, Is Planet: false");
}

#[test]
fn mass_line_renders_each_state() {
    let complete = Some(Mass {
        mass_value: Some("6.42".to_string()),
        mass_exponent: Some("23".to_string()),
    });
    assert_eq!(mass_line(&complete), "Mass: 6.42e23");
    let value_only = Some(Mass { mass_value: Some("6.42".to_string()), mass_exponent: None });
    assert_eq!(mass_line(&value_only), "Mass data is incomplete or not available.");
    let exponent_only = Some(Mass { mass_value: None, mass_exponent: Some("23".to_string()) });
    assert_eq!(mass_line(&exponent_only), "Mass data is incomplete or not available.");
    let empty = Some(Mass { mass_value: None, mass_exponent: None });
    assert_eq!(mass_line(&empty), "Mass data is incomplete or not available.");
    assert_eq!(mass_line(&None), "No mass data provided by the API.");
}

#[test]
fn absent_attributes_render_as_not_available() {
    let lines = detail_lines(&bare_body("X", "x"));
    assert_eq!(lines.len(), 14);
    assert_eq!(lines[0], "Name: X, ID: x, English Name: not available, Is Planet: false");
    assert_eq!(lines[1], "No mass data provided by the API.");
    assert_eq!(lines[2], "Density: not available");
    assert_eq!(lines[3], "Gravity: not available");
    assert_eq!(lines[4], "Escape Velocity: not available");
    assert_eq!(lines[5], "Mean Radius: not available");
    assert_eq!(lines[6], "Equatorial Radius: not available");
    assert_eq!(lines[7], "Polar Radius: not available");
    assert_eq!(lines[8], "Flattening: not available");
    assert_eq!(lines[9], "Orbital Period: not available");
    assert_eq!(lines[10], "Rotation Period: not available");
    assert_eq!(lines[11], "Axial Tilt: not available");
    assert_eq!(lines[12], "Average Temperature: not available");
    assert_eq!(lines[13], "Body Type: not available");
}

#[test]
fn populated_attributes_render_with_units() {
    let mut body = bare_body("Earth", "terre");
    body.density = Some("5.513".to_string());
    body.gravity = Some("9.8".to_string());
    body.escape = Some("11186".to_string());
    body.mean_radius = Some("6371.0084".to_string());
    body.flattening = Some("0.00335".to_string());
    body.sideral_orbit = Some("365.256".to_string());
    body.sideral_rotation = Some("23.9345".to_string());
    body.axial_tilt = Some("23.44".to_string());
    body.avg_temp = Some("288".to_string());
    body.body_type = Some("Planet".to_string());
    let lines = detail_lines(&body);
    assert_eq!(lines[2], "Density: 5.513 g/cm³");
    assert_eq!(lines[3], "Gravity: 9.8 m/s²");
    assert_eq!(lines[4], "Escape Velocity: 11186 m/s");
    assert_eq!(lines[5], "Mean Radius: 6371.0084 km");
    assert_eq!(lines[8], "Flattening: 0.00335");
    assert_eq!(lines[9], "Orbital Period: 365.256 days");
    assert_eq!(lines[10], "Rotation Period: 23.9345 hours");
    assert_eq!(lines[11], "Axial Tilt: 23.44 degrees");
    assert_eq!(lines[12], "Average Temperature: 288 K");
    assert_eq!(lines[13], "Body Type: Planet");
}

#[test]
fn error_lines_reference_the_fetch() {
    assert_eq!(
        detail_error_line("mars", "connection refused"),
        "Error fetching details for mars: connection refused"
    );
    assert_eq!(
        list_error_line("connection refused"),
        "Error fetching data: connection refused"
    );
    assert_eq!(
        list_error_line(DecodeError::Syntax.message()),
        "Error fetching data: response body is not valid JSON"
    );
}

#[test]
fn decode_error_messages_describe_each_failure() {
    assert_eq!(DecodeError::Syntax.message(), "response body is not valid JSON");
    assert_eq!(DecodeError::NotAnObject.message(), "response body is not a JSON object");
    assert_eq!(
        DecodeError::MissingName.message(),
        "required field `name` is missing or not a string"
    );
    assert_eq!(
        DecodeError::MissingId.message(),
        "required field `id` is missing or not a string"
    );
    assert_eq!(DecodeError::MissingBodies.message(), "response body has no `bodies` array");
}
