//! The celestial-body record and the decoding of the two response shapes:
//! a bare body object (detail mode) and a `bodies` wrapper (list mode).

use vstd::prelude::*;
use crate::json::{
    get_arr, get_bool, get_num, get_obj, get_str, spec_get_arr, spec_get_bool, spec_get_num,
    spec_get_obj, spec_get_str, spec_lookup, Json,
};
use crate::parse::{json_text, parse_json};

verus! {

/// Mass in scientific notation: value × 10^exponent kilograms, either half
/// possibly absent. Both halves keep the decimal text they were read with,
/// so that they are rendered verbatim.
#[derive(Clone, Debug, PartialEq, Eq)]
pub struct Mass {
    pub mass_value: Option<String>,
    pub mass_exponent: Option<String>,
}

/// One celestial body as the API reports it. `name` and `id` are required;
/// every other attribute is optional, and absence is a valid state, never a
/// decode failure. Numeric attributes keep their decimal text.
#[derive(Clone, Debug, PartialEq, Eq)]
pub struct CelestialBody {
    pub name: String,
    pub id: String,
    pub english_name: Option<String>,
    /// Defaults to `false` when the response leaves it out.
    pub is_planet: bool,
    pub mass: Option<Mass>,
    pub density: Option<String>,
    pub gravity: Option<String>,
    pub escape: Option<String>,
    pub mean_radius: Option<String>,
    pub equa_radius: Option<String>,
    pub polar_radius: Option<String>,
    pub flattening: Option<String>,
    pub sideral_orbit: Option<String>,
    pub sideral_rotation: Option<String>,
    pub axial_tilt: Option<String>,
    pub avg_temp: Option<String>,
    pub body_type: Option<String>,
}

/// Why a response body failed to decode.
#[derive(Clone, Copy, Debug, PartialEq, Eq, Structural)]
pub enum DecodeError {
    /// The response text is not a JSON document.
    Syntax,
    /// The document (or a list element) is not a JSON object.
    NotAnObject,
    /// A body object lacks a string field `name`.
    MissingName,
    /// A body object lacks a string field `id`.
    MissingId,
    /// A list response lacks an array field `bodies`.
    MissingBodies,
}

/// What each decode failure reads as when printed.
pub open spec fn spec_error_message(e: DecodeError) -> Seq<char> {
    match e {
        DecodeError::Syntax => "response body is not valid JSON"@,
        DecodeError::NotAnObject => "response body is not a JSON object"@,
        DecodeError::MissingName => "required field `name` is missing or not a string"@,
        DecodeError::MissingId => "required field `id` is missing or not a string"@,
        DecodeError::MissingBodies => "response body has no `bodies` array"@,
    }
}

impl DecodeError {
    /// A human-readable description of the failure, for the error line.
    pub fn message(&self) -> (r: &'static str)
        ensures
            r@ == spec_error_message(*self),
    {
        match self {
            DecodeError::Syntax => "response body is not valid JSON",
            DecodeError::NotAnObject => "response body is not a JSON object",
            DecodeError::MissingName => "required field `name` is missing or not a string",
            DecodeError::MissingId => "required field `id` is missing or not a string",
            DecodeError::MissingBodies => "response body has no `bodies` array",
        }
    }
}

/// The mass record held in the fields of a `mass` object: each half is
/// present exactly when its key holds a number.
pub open spec fn spec_mass_from_fields(mf: Seq<(String, Json)>) -> Mass {
    Mass {
        mass_value: spec_get_num(mf, "massValue"@),
        mass_exponent: spec_get_num(mf, "massExponent"@),
    }
}

/// The body record a JSON document decodes to. The document must be an
/// object with string fields `name` and `id`; each optional attribute is
/// read when its key holds a value of the expected shape and is absent
/// otherwise; `isPlanet` defaults to false when absent.
pub open spec fn spec_body_from_json(j: Json) -> Result<CelestialBody, DecodeError> {
    match j {
        Json::Obj(fields) => match spec_get_str(fields@, "name"@) {
            None => Err(DecodeError::MissingName),
            Some(name) => match spec_get_str(fields@, "id"@) {
                None => Err(DecodeError::MissingId),
                Some(id) => Ok(
                    CelestialBody {
                        name,
                        id,
                        english_name: spec_get_str(fields@, "englishName"@),
                        is_planet: match spec_get_bool(fields@, "isPlanet"@) {
                            Some(b) => b,
                            None => false,
                        },
                        mass: match spec_get_obj(fields@, "mass"@) {
                            Some(mf) => Some(spec_mass_from_fields(mf@)),
                            None => None,
                        },
                        density: spec_get_num(fields@, "density"@),
                        gravity: spec_get_num(fields@, "gravity"@),
                        escape: spec_get_num(fields@, "escape"@),
                        mean_radius: spec_get_num(fields@, "mean_radius"@),
                        equa_radius: spec_get_num(fields@, "equa_radius"@),
                        polar_radius: spec_get_num(fields@, "polar_radius"@),
                        flattening: spec_get_num(fields@, "flattening"@),
                        sideral_orbit: spec_get_num(fields@, "sideral_orbit"@),
                        sideral_rotation: spec_get_num(fields@, "sideral_rotation"@),
                        axial_tilt: spec_get_num(fields@, "axial_tilt"@),
                        avg_temp: spec_get_num(fields@, "avg_temp"@),
                        body_type: spec_get_str(fields@, "body_type"@),
                    },
                ),
            },
        },
        _ => Err(DecodeError::NotAnObject),
    }
}

/// Decodes one body object from the crate's JSON tree.
pub fn body_from_json(j: &Json) -> (r: Result<CelestialBody, DecodeError>)
    ensures
        r == spec_body_from_json(*j),
{
    let fields = match j {
        Json::Obj(fields) => fields,
        _ => { return Err(DecodeError::NotAnObject); },
    };
    let name = match get_str(fields, "name") {
        Some(name) => name,
        None => { return Err(DecodeError::MissingName); },
    };
    let id = match get_str(fields, "id") {
        Some(id) => id,
        None => { return Err(DecodeError::MissingId); },
    };
    Ok(
        CelestialBody {
            name,
            id,
            english_name: get_str(fields, "englishName"),
            is_planet: match get_bool(fields, "isPlanet") {
                Some(b) => b,
                None => false,
            },
            mass: match get_obj(fields, "mass") {
                Some(mf) => Some(
                    Mass {
                        mass_value: get_num(mf, "massValue"),
                        mass_exponent: get_num(mf, "massExponent"),
                    },
                ),
                None => None,
            },
            density: get_num(fields, "density"),
            gravity: get_num(fields, "gravity"),
            escape: get_num(fields, "escape"),
            mean_radius: get_num(fields, "mean_radius"),
            equa_radius: get_num(fields, "equa_radius"),
            polar_radius: get_num(fields, "polar_radius"),
            flattening: get_num(fields, "flattening"),
            sideral_orbit: get_num(fields, "sideral_orbit"),
            sideral_rotation: get_num(fields, "sideral_rotation"),
            axial_tilt: get_num(fields, "axial_tilt"),
            avg_temp: get_num(fields, "avg_temp"),
            body_type: get_str(fields, "body_type"),
        },
    )
}

/// The record a detail response decodes to: the text must be one JSON
/// document holding a body object.
pub open spec fn spec_decode_detail(s: Seq<char>) -> Result<CelestialBody, DecodeError> {
    match json_text(s) {
        None => Err(DecodeError::Syntax),
        Some(j) => spec_body_from_json(j),
    }
}

/// Decodes a detail response body.
pub fn decode_detail(s: &str) -> (r: Result<CelestialBody, DecodeError>)
    ensures
        r == spec_decode_detail(s@),
{
    match parse_json(s) {
        None => Err(DecodeError::Syntax),
        Some(j) => body_from_json(&j),
    }
}

/// An optional attribute absent from a body object never fails the decode:
/// once `name` and `id` read as strings the decode succeeds, and each
/// attribute whose key is missing decodes to its absent state (`isPlanet`
/// to false).
pub proof fn lemma_absent_optionals_decode(j: Json)
    requires
        j is Obj,
        spec_get_str(j->Obj_0@, "name"@) is Some,
        spec_get_str(j->Obj_0@, "id"@) is Some,
    ensures
        spec_body_from_json(j) is Ok,
        spec_lookup(j->Obj_0@, "englishName"@) is None ==> spec_body_from_json(
            j,
        )->Ok_0.english_name is None,
        spec_lookup(j->Obj_0@, "isPlanet"@) is None ==> spec_body_from_json(j)->Ok_0.is_planet
            == false,
        spec_lookup(j->Obj_0@, "mass"@) is None ==> spec_body_from_json(j)->Ok_0.mass is None,
        spec_lookup(j->Obj_0@, "density"@) is None ==> spec_body_from_json(j)->Ok_0.density
            is None,
        spec_lookup(j->Obj_0@, "gravity"@) is None ==> spec_body_from_json(j)->Ok_0.gravity
            is None,
        spec_lookup(j->Obj_0@, "escape"@) is None ==> spec_body_from_json(j)->Ok_0.escape is None,
        spec_lookup(j->Obj_0@, "mean_radius"@) is None ==> spec_body_from_json(
            j,
        )->Ok_0.mean_radius is None,
        spec_lookup(j->Obj_0@, "equa_radius"@) is None ==> spec_body_from_json(
            j,
        )->Ok_0.equa_radius is None,
        spec_lookup(j->Obj_0@, "polar_radius"@) is None ==> spec_body_from_json(
            j,
        )->Ok_0.polar_radius is None,
        spec_lookup(j->Obj_0@, "flattening"@) is None ==> spec_body_from_json(
            j,
        )->Ok_0.flattening is None,
        spec_lookup(j->Obj_0@, "sideral_orbit"@) is None ==> spec_body_from_json(
            j,
        )->Ok_0.sideral_orbit is None,
        spec_lookup(j->Obj_0@, "sideral_rotation"@) is None ==> spec_body_from_json(
            j,
        )->Ok_0.sideral_rotation is None,
        spec_lookup(j->Obj_0@, "axial_tilt"@) is None ==> spec_body_from_json(
            j,
        )->Ok_0.axial_tilt is None,
        spec_lookup(j->Obj_0@, "avg_temp"@) is None ==> spec_body_from_json(j)->Ok_0.avg_temp
            is None,
        spec_lookup(j->Obj_0@, "body_type"@) is None ==> spec_body_from_json(j)->Ok_0.body_type
            is None,
{
}

/// The element list of a list response: present when the text is a JSON
/// object whose `bodies` field is an array.
pub open spec fn spec_list_items(s: Seq<char>) -> Option<Vec<Json>> {
    match json_text(s) {
        Some(Json::Obj(fields)) => spec_get_arr(fields@, "bodies"@),
        _ => None,
    }
}

/// The error a list response fails with before its elements are reached,
/// if any: invalid JSON, a non-object document, or no `bodies` array.
pub open spec fn spec_list_shape_err(s: Seq<char>) -> Option<DecodeError> {
    match json_text(s) {
        None => Some(DecodeError::Syntax),
        Some(Json::Obj(fields)) => if spec_get_arr(fields@, "bodies"@) is Some {
            None
        } else {
            Some(DecodeError::MissingBodies)
        },
        Some(_) => Some(DecodeError::NotAnObject),
    }
}

/// Every element of a list decodes to a body.
pub open spec fn list_items_decode_ok(items: Seq<Json>) -> bool {
    forall|k: int| 0 <= k < items.len() ==> spec_body_from_json(items[k]) is Ok
}

/// `bodies` decodes `items` element for element, in order.
pub open spec fn list_decoded_pointwise(items: Seq<Json>, bodies: Seq<CelestialBody>) -> bool {
    &&& bodies.len() == items.len()
    &&& forall|k: int|
        0 <= k < items.len() ==> spec_body_from_json(items[k]) == Ok::<
            CelestialBody,
            DecodeError,
        >(bodies[k])
}

/// `e` is the error of the first element of `items` that fails to decode.
pub open spec fn first_list_error(items: Seq<Json>, e: DecodeError) -> bool {
    exists|k: int|
        0 <= k < items.len() && spec_body_from_json(items[k]) == Err::<CelestialBody, DecodeError>(
            e,
        ) && (forall|m: int| 0 <= m < k ==> spec_body_from_json(items[m]) is Ok)
}

/// Decodes a list response body into its body records, in response order.
/// Succeeds exactly when the text is a JSON object whose `bodies` field is
/// an array and every element decodes; fails with the shape error or with
/// the first element's error otherwise.
pub fn decode_list(s: &str) -> (r: Result<Vec<CelestialBody>, DecodeError>)
    ensures
        spec_list_shape_err(s@) matches Some(e) ==> r == Err::<Vec<CelestialBody>, DecodeError>(e),
        spec_list_shape_err(s@) is None ==> (r is Ok <==> list_items_decode_ok(
            spec_list_items(s@).unwrap()@,
        )),
        r matches Ok(bodies) ==> (spec_list_shape_err(s@) is None ==> list_decoded_pointwise(
            spec_list_items(s@).unwrap()@,
            bodies@,
        )),
        r matches Err(e) ==> (spec_list_shape_err(s@) is None ==> first_list_error(
            spec_list_items(s@).unwrap()@,
            e,
        )),
{
    let parsed = match parse_json(s) {
        None => { return Err(DecodeError::Syntax); },
        Some(j) => j,
    };
    let fields = match &parsed {
        Json::Obj(fields) => fields,
        _ => { return Err(DecodeError::NotAnObject); },
    };
    let items = match get_arr(fields, "bodies") {
        Some(items) => items,
        None => { return Err(DecodeError::MissingBodies); },
    };
    let mut bodies: Vec<CelestialBody> = Vec::new();
    let mut i: usize = 0;
    while i < items.len()
        invariant
            spec_list_shape_err(s@) is None,
            spec_list_items(s@) == Some(*items),
            i <= items@.len(),
            bodies@.len() == i,
            forall|k: int|
                0 <= k < i ==> spec_body_from_json(items@[k]) == Ok::<
                    CelestialBody,
                    DecodeError,
                >(bodies@[k]),
        decreases items@.len() - i,
    {
        match body_from_json(&items[i]) {
            Ok(b) => bodies.push(b),
            Err(e) => {
                proof {
                    let kk = i as int;
                    assert(0 <= kk < items@.len() && spec_body_from_json(items@[kk]) == Err::<
                        CelestialBody,
                        DecodeError,
                    >(e) && (forall|m: int| 0 <= m < kk ==> spec_body_from_json(items@[m]) is Ok));
                }
                return Err(e);
            },
        }
        i += 1;
    }
    Ok(bodies)
}

} // verus!
