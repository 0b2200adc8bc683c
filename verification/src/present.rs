//! Rendering decoded bodies as console lines. Every optional attribute that
//! the response left out is rendered with one uniform, explicit absence
//! message rather than a placeholder number.

use vstd::prelude::*;
use vstd::string::*;
use crate::body::{
    list_decoded_pointwise, spec_body_from_json, spec_list_items, spec_list_shape_err,
    CelestialBody, Mass,
};

verus! {

/// How a boolean flag is printed.
pub open spec fn spec_bool_text(b: bool) -> Seq<char> {
    if b {
        "true"@
    } else {
        "false"@
    }
}

/// The uniform text standing in for an attribute the response left out.
pub open spec fn spec_absent_text() -> Seq<char> {
    "not available"@
}

/// The summary line of one body in list mode: its name, id and is-planet
/// flag.
pub open spec fn spec_list_line(b: CelestialBody) -> Seq<char> {
    "Name: "@ + b.name@ + ", ID: "@ + b.id@ + ", Is Planet: "@ + spec_bool_text(b.is_planet)
}

/// The head line of a detail view: the required fields, the english name
/// (or its absence), and the is-planet flag.
pub open spec fn spec_head_line(b: CelestialBody) -> Seq<char> {
    "Name: "@ + b.name@ + ", ID: "@ + b.id@ + ", English Name: "@ + (match b.english_name {
        Some(en) => en@,
        None => spec_absent_text(),
    }) + ", Is Planet: "@ + spec_bool_text(b.is_planet)
}

/// The mass line: `Mass: <value>e<exponent>` verbatim when both halves are
/// present, an incompleteness message when only one is, and an absence
/// message when the response carried no mass at all.
pub open spec fn spec_mass_line(m: Option<Mass>) -> Seq<char> {
    match m {
        None => "No mass data provided by the API."@,
        Some(mass) => match (mass.mass_value, mass.mass_exponent) {
            (Some(v), Some(e)) => "Mass: "@ + v@ + "e"@ + e@,
            _ => "Mass data is incomplete or not available."@,
        },
    }
}

/// One line of an optional attribute: the label, then the value followed by
/// its unit, or the absence text.
pub open spec fn spec_attr_line(label: Seq<char>, v: Option<String>, unit: Seq<char>) -> Seq<
    char,
> {
    match v {
        Some(t) => label + t@ + unit,
        None => label + spec_absent_text(),
    }
}

/// The full detail view of one body, line by line.
pub open spec fn spec_detail_lines(b: CelestialBody) -> Seq<Seq<char>> {
    seq![
        spec_head_line(b),
        spec_mass_line(b.mass),
        spec_attr_line("Density: "@, b.density, " g/cm³"@),
        spec_attr_line("Gravity: "@, b.gravity, " m/s²"@),
        spec_attr_line("Escape Velocity: "@, b.escape, " m/s"@),
        spec_attr_line("Mean Radius: "@, b.mean_radius, " km"@),
        spec_attr_line("Equatorial Radius: "@, b.equa_radius, " km"@),
        spec_attr_line("Polar Radius: "@, b.polar_radius, " km"@),
        spec_attr_line("Flattening: "@, b.flattening, ""@),
        spec_attr_line("Orbital Period: "@, b.sideral_orbit, " days"@),
        spec_attr_line("Rotation Period: "@, b.sideral_rotation, " hours"@),
        spec_attr_line("Axial Tilt: "@, b.axial_tilt, " degrees"@),
        spec_attr_line("Average Temperature: "@, b.avg_temp, " K"@),
        spec_attr_line("Body Type: "@, b.body_type, ""@),
    ]
}

fn bool_text(b: bool) -> (r: &'static str)
    ensures
        r@ == spec_bool_text(b),
{
    if b {
        "true"
    } else {
        "false"
    }
}

fn attr_line(label: &str, v: &Option<String>, unit: &str) -> (r: String)
    ensures
        r@ == spec_attr_line(label@, *v, unit@),
{
    let mut line = String::from_str(label);
    match v {
        Some(t) => {
            line.append(t.as_str());
            line.append(unit);
        },
        None => {
            line.append("not available");
        },
    }
    line
}

/// Renders the mass line of a detail view.
pub fn mass_line(m: &Option<Mass>) -> (r: String)
    ensures
        r@ == spec_mass_line(*m),
{
    match m {
        None => String::from_str("No mass data provided by the API."),
        Some(mass) => match (&mass.mass_value, &mass.mass_exponent) {
            (Some(v), Some(e)) => {
                let mut line = String::from_str("Mass: ");
                line.append(v.as_str());
                line.append("e");
                line.append(e.as_str());
                line
            },
            _ => String::from_str("Mass data is incomplete or not available."),
        },
    }
}

/// Renders the head line of a detail view.
pub fn head_line(b: &CelestialBody) -> (r: String)
    ensures
        r@ == spec_head_line(*b),
{
    let mut line = String::from_str("Name: ");
    line.append(b.name.as_str());
    line.append(", ID: ");
    line.append(b.id.as_str());
    line.append(", English Name: ");
    match &b.english_name {
        Some(en) => line.append(en.as_str()),
        None => line.append("not available"),
    }
    line.append(", Is Planet: ");
    line.append(bool_text(b.is_planet));
    line
}

/// Renders the summary line of one body in list mode.
pub fn list_line(b: &CelestialBody) -> (r: String)
    ensures
        r@ == spec_list_line(*b),
{
    let mut line = String::from_str("Name: ");
    line.append(b.name.as_str());
    line.append(", ID: ");
    line.append(b.id.as_str());
    line.append(", Is Planet: ");
    line.append(bool_text(b.is_planet));
    line
}

/// Renders the full detail view of one body: the head line, the mass line,
/// then one line per physical attribute of the canonical field set.
pub fn detail_lines(b: &CelestialBody) -> (r: Vec<String>)
    ensures
        r.deep_view() == spec_detail_lines(*b),
{
    let mut lines: Vec<String> = Vec::new();
    lines.push(head_line(b));
    lines.push(mass_line(&b.mass));
    lines.push(attr_line("Density: ", &b.density, " g/cm³"));
    lines.push(attr_line("Gravity: ", &b.gravity, " m/s²"));
    lines.push(attr_line("Escape Velocity: ", &b.escape, " m/s"));
    lines.push(attr_line("Mean Radius: ", &b.mean_radius, " km"));
    lines.push(attr_line("Equatorial Radius: ", &b.equa_radius, " km"));
    lines.push(attr_line("Polar Radius: ", &b.polar_radius, " km"));
    lines.push(attr_line("Flattening: ", &b.flattening, ""));
    lines.push(attr_line("Orbital Period: ", &b.sideral_orbit, " days"));
    lines.push(attr_line("Rotation Period: ", &b.sideral_rotation, " hours"));
    lines.push(attr_line("Axial Tilt: ", &b.axial_tilt, " degrees"));
    lines.push(attr_line("Average Temperature: ", &b.avg_temp, " K"));
    lines.push(attr_line("Body Type: ", &b.body_type, ""));
    proof {
        assert(lines.deep_view() =~~= spec_detail_lines(*b));
    }
    lines
}

/// Renders list mode: one summary line per body, in catalog order.
pub fn list_lines(bodies: &Vec<CelestialBody>) -> (r: Vec<String>)
    ensures
        r@.len() == bodies@.len(),
        forall|k: int| 0 <= k < bodies@.len() ==> r.deep_view()[k] == spec_list_line(bodies@[k]),
{
    let mut lines: Vec<String> = Vec::new();
    let mut i: usize = 0;
    while i < bodies.len()
        invariant
            i <= bodies@.len(),
            lines@.len() == i,
            forall|k: int| 0 <= k < i ==> lines@[k]@ == spec_list_line(bodies@[k]),
        decreases bodies@.len() - i,
    {
        lines.push(list_line(&bodies[i]));
        i += 1;
    }
    proof {
        assert forall|k: int| 0 <= k < bodies@.len() implies lines.deep_view()[k] == spec_list_line(
            bodies@[k],
        ) by {
            assert(lines.deep_view()[k] == lines@[k]@);
        }
    }
    lines
}

/// List-mode output as a whole: a list response whose body objects all
/// decode yields exactly one line per object, and the k-th line is the
/// summary line of the k-th decoded body — its name, id and is-planet flag.
pub proof fn lemma_list_mode_output(
    s: Seq<char>,
    bodies: Seq<CelestialBody>,
    lines: Seq<Seq<char>>,
)
    requires
        spec_list_shape_err(s) is None,
        list_decoded_pointwise(spec_list_items(s).unwrap()@, bodies),
        lines.len() == bodies.len(),
        forall|k: int| 0 <= k < bodies.len() ==> lines[k] == #[trigger] spec_list_line(bodies[k]),
    ensures
        lines.len() == spec_list_items(s).unwrap()@.len(),
        forall|k: int|
            0 <= k < lines.len() ==> #[trigger] lines[k] == spec_list_line(
                spec_body_from_json(spec_list_items(s).unwrap()@[k])->Ok_0,
            ),
{
    let items = spec_list_items(s).unwrap()@;
    assert forall|k: int| 0 <= k < lines.len() implies #[trigger] lines[k] == spec_list_line(
        spec_body_from_json(items[k])->Ok_0,
    ) by {
        assert(spec_body_from_json(items[k]) == Ok::<CelestialBody, crate::body::DecodeError>(
            bodies[k],
        ));
        assert(lines[k] == spec_list_line(bodies[k]));
    }
}

/// A body whose optional attributes are absent still renders every detail
/// line, each showing the explicit absence message in place of a value.
pub proof fn lemma_absent_attrs_render(b: CelestialBody)
    ensures
        b.mass is None ==> spec_detail_lines(b)[1] == "No mass data provided by the API."@,
        b.mass matches Some(m) && (m.mass_value is None || m.mass_exponent is None)
            ==> spec_detail_lines(b)[1] == "Mass data is incomplete or not available."@,
        b.density is None ==> spec_detail_lines(b)[2] == "Density: "@ + spec_absent_text(),
        b.gravity is None ==> spec_detail_lines(b)[3] == "Gravity: "@ + spec_absent_text(),
        b.escape is None ==> spec_detail_lines(b)[4] == "Escape Velocity: "@ + spec_absent_text(),
        b.mean_radius is None ==> spec_detail_lines(b)[5] == "Mean Radius: "@
            + spec_absent_text(),
        b.equa_radius is None ==> spec_detail_lines(b)[6] == "Equatorial Radius: "@
            + spec_absent_text(),
        b.polar_radius is None ==> spec_detail_lines(b)[7] == "Polar Radius: "@
            + spec_absent_text(),
        b.flattening is None ==> spec_detail_lines(b)[8] == "Flattening: "@ + spec_absent_text(),
        b.sideral_orbit is None ==> spec_detail_lines(b)[9] == "Orbital Period: "@
            + spec_absent_text(),
        b.sideral_rotation is None ==> spec_detail_lines(b)[10] == "Rotation Period: "@
            + spec_absent_text(),
        b.axial_tilt is None ==> spec_detail_lines(b)[11] == "Axial Tilt: "@
            + spec_absent_text(),
        b.avg_temp is None ==> spec_detail_lines(b)[12] == "Average Temperature: "@
            + spec_absent_text(),
        b.body_type is None ==> spec_detail_lines(b)[13] == "Body Type: "@ + spec_absent_text(),
{
}

/// The single error line of a failed detail request, naming the body and
/// the underlying cause.
pub open spec fn spec_detail_error_line(name: Seq<char>, cause: Seq<char>) -> Seq<char> {
    "Error fetching details for "@ + name + ": "@ + cause
}

/// Renders the error line of a failed detail request.
pub fn detail_error_line(name: &str, cause: &str) -> (r: String)
    ensures
        r@ == spec_detail_error_line(name@, cause@),
{
    let mut line = String::from_str("Error fetching details for ");
    line.append(name);
    line.append(": ");
    line.append(cause);
    line
}

/// The single error line of a failed list request, naming the underlying
/// cause.
pub open spec fn spec_list_error_line(cause: Seq<char>) -> Seq<char> {
    "Error fetching data: "@ + cause
}

/// Renders the error line of a failed list request.
pub fn list_error_line(cause: &str) -> (r: String)
    ensures
        r@ == spec_list_error_line(cause@),
{
    let mut line = String::from_str("Error fetching data: ");
    line.append(cause);
    line
}

} // verus!
