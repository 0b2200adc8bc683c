//! Re-encoding a body record as JSON: as text, and as the crate's own tree.
//! Both forms write the full canonical field set, with `null` standing for
//! every absent attribute, so that decoding what was encoded restores the
//! record exactly.

use vstd::prelude::*;
use vstd::string::*;
use crate::body::{spec_body_from_json, CelestialBody, DecodeError, Mass};
use crate::json::{spec_lookup, Json};
use crate::present::spec_bool_text;

verus! {

/// The lower-case hexadecimal digit of a value below sixteen.
pub open spec fn spec_hex_digit(n: int) -> char {
    if n == 0 {
        '0'
    } else if n == 1 {
        '1'
    } else if n == 2 {
        '2'
    } else if n == 3 {
        '3'
    } else if n == 4 {
        '4'
    } else if n == 5 {
        '5'
    } else if n == 6 {
        '6'
    } else if n == 7 {
        '7'
    } else if n == 8 {
        '8'
    } else if n == 9 {
        '9'
    } else if n == 10 {
        'a'
    } else if n == 11 {
        'b'
    } else if n == 12 {
        'c'
    } else if n == 13 {
        'd'
    } else if n == 14 {
        'e'
    } else {
        'f'
    }
}

/// JSON escaping of one character inside a string value: the quote, the
/// backslash and the named control characters get their two-character
/// escapes, any other control character a `\u00..` escape, and everything
/// else stands as itself.
pub open spec fn spec_escape_char(c: char) -> Seq<char> {
    if c == '"' {
        "\\\""@
    } else if c == '\\' {
        "\\\\"@
    } else if c == '\n' {
        "\\n"@
    } else if c == '\r' {
        "\\r"@
    } else if c == '\t' {
        "\\t"@
    } else if c == '\u{8}' {
        "\\b"@
    } else if c == '\u{c}' {
        "\\f"@
    } else if (c as u32) < 0x20 {
        "\\u00"@ + seq![
            spec_hex_digit((c as u32) as int / 16),
            spec_hex_digit((c as u32) as int % 16),
        ]
    } else {
        seq![c]
    }
}

/// JSON escaping of a whole string value's content.
pub open spec fn spec_escape(s: Seq<char>) -> Seq<char>
    decreases s.len(),
{
    if s.len() == 0 {
        Seq::empty()
    } else {
        spec_escape_char(s[0]) + spec_escape(s.drop_first())
    }
}

proof fn lemma_escape_snoc(s: Seq<char>, c: char)
    ensures
        spec_escape(s.push(c)) == spec_escape(s) + spec_escape_char(c),
    decreases s.len(),
{
    if s.len() == 0 {
        assert(s.push(c).drop_first() =~= Seq::<char>::empty());
        assert(spec_escape(Seq::<char>::empty()) == Seq::<char>::empty());
        assert(spec_escape(s.push(c)) =~= spec_escape(s) + spec_escape_char(c));
    } else {
        lemma_escape_snoc(s.drop_first(), c);
        assert(s.push(c).drop_first() =~= s.drop_first().push(c));
        assert(spec_escape(s.push(c)) =~= spec_escape(s) + spec_escape_char(c));
    }
}

/// Relies on String::push: appends exactly one character.
#[verifier::external_body]
fn push_char(out: &mut String, c: char)
    ensures
        final(out)@ == old(out)@ + seq![c],
{
    out.push(c);
}

fn hex_digit(n: u8) -> (r: char)
    requires
        n < 16,
    ensures
        r == spec_hex_digit(n as int),
{
    match n {
        0 => '0',
        1 => '1',
        2 => '2',
        3 => '3',
        4 => '4',
        5 => '5',
        6 => '6',
        7 => '7',
        8 => '8',
        9 => '9',
        10 => 'a',
        11 => 'b',
        12 => 'c',
        13 => 'd',
        14 => 'e',
        _ => 'f',
    }
}

fn escape_into(out: &mut String, s: &str)
    ensures
        final(out)@ == old(out)@ + spec_escape(s@),
{
    let len = s.unicode_len();
    let mut i: usize = 0;
    proof {
        assert(s@.take(0) =~= Seq::<char>::empty());
    }
    while i < len
        invariant
            len == s@.len(),
            i <= len,
            out@ == old(out)@ + spec_escape(s@.take(i as int)),
        decreases len - i,
    {
        let c = s.get_char(i);
        proof {
            assert(s@.take(i as int).push(c) =~= s@.take(i as int + 1));
            lemma_escape_snoc(s@.take(i as int), c);
        }
        if c == '"' {
            out.append("\\\"");
        } else if c == '\\' {
            out.append("\\\\");
        } else if c == '\n' {
            out.append("\\n");
        } else if c == '\r' {
            out.append("\\r");
        } else if c == '\t' {
            out.append("\\t");
        } else if c == '\u{8}' {
            out.append("\\b");
        } else if c == '\u{c}' {
            out.append("\\f");
        } else if (c as u32) < 0x20 {
            let code = c as u32;
            proof {
                assert(code / 16 < 16 && code % 16 < 16) by (nonlinear_arith)
                    requires
                        code < 0x20,
                ;
            }
            out.append("\\u00");
            push_char(out, hex_digit((code / 16) as u8));
            push_char(out, hex_digit((code % 16) as u8));
        } else {
            push_char(out, c);
        }
        proof {
            assert(out@ =~= old(out)@ + spec_escape(s@.take(i as int + 1)));
        }
        i += 1;
    }
    proof {
        assert(s@.take(len as int) =~= s@);
    }
}

/// The JSON text of one string value: quotes around the escaped content.
pub open spec fn spec_str_value(s: Seq<char>) -> Seq<char> {
    seq!['"'] + spec_escape(s) + seq!['"']
}

/// The JSON text of an optional string attribute: the string, or `null`.
pub open spec fn spec_opt_str_value(v: Option<String>) -> Seq<char> {
    match v {
        Some(s) => spec_str_value(s@),
        None => "null"@,
    }
}

/// The JSON text of an optional numeric attribute: the decimal text it was
/// read with, or `null`.
pub open spec fn spec_opt_num_value(v: Option<String>) -> Seq<char> {
    match v {
        Some(t) => t@,
        None => "null"@,
    }
}

/// The JSON text of a mass record, or `null` for an absent one.
pub open spec fn spec_mass_value(m: Option<Mass>) -> Seq<char> {
    match m {
        None => "null"@,
        Some(mass) => "{\"massValue\":"@ + spec_opt_num_value(mass.mass_value)
            + ",\"massExponent\":"@ + spec_opt_num_value(mass.mass_exponent) + "}"@,
    }
}

/// The JSON text `encode_body` produces: one object holding the canonical
/// field set in a fixed order, `null` for every absent attribute.
pub open spec fn spec_encode_body(b: CelestialBody) -> Seq<char> {
    "{\"name\":"@ + spec_str_value(b.name@) + ",\"id\":"@ + spec_str_value(b.id@)
        + ",\"englishName\":"@ + spec_opt_str_value(b.english_name) + ",\"isPlanet\":"@
        + spec_bool_text(b.is_planet) + ",\"mass\":"@ + spec_mass_value(b.mass) + ",\"density\":"@
        + spec_opt_num_value(b.density) + ",\"gravity\":"@ + spec_opt_num_value(b.gravity)
        + ",\"escape\":"@ + spec_opt_num_value(b.escape) + ",\"mean_radius\":"@
        + spec_opt_num_value(b.mean_radius) + ",\"equa_radius\":"@ + spec_opt_num_value(
        b.equa_radius,
    ) + ",\"polar_radius\":"@ + spec_opt_num_value(b.polar_radius) + ",\"flattening\":"@
        + spec_opt_num_value(b.flattening) + ",\"sideral_orbit\":"@ + spec_opt_num_value(
        b.sideral_orbit,
    ) + ",\"sideral_rotation\":"@ + spec_opt_num_value(b.sideral_rotation) + ",\"axial_tilt\":"@
        + spec_opt_num_value(b.axial_tilt) + ",\"avg_temp\":"@ + spec_opt_num_value(b.avg_temp)
        + ",\"body_type\":"@ + spec_opt_str_value(b.body_type) + "}"@
}

fn append_str_value(out: &mut String, s: &str)
    ensures
        final(out)@ == old(out)@ + spec_str_value(s@),
{
    push_char(out, '"');
    escape_into(out, s);
    push_char(out, '"');
    proof {
        assert(out@ =~= old(out)@ + spec_str_value(s@));
    }
}

fn append_opt_str(out: &mut String, v: &Option<String>)
    ensures
        final(out)@ == old(out)@ + spec_opt_str_value(*v),
{
    match v {
        Some(s) => append_str_value(out, s.as_str()),
        None => out.append("null"),
    }
}

fn append_opt_num(out: &mut String, v: &Option<String>)
    ensures
        final(out)@ == old(out)@ + spec_opt_num_value(*v),
{
    match v {
        Some(t) => out.append(t.as_str()),
        None => out.append("null"),
    }
}

fn append_mass_value(out: &mut String, m: &Option<Mass>)
    ensures
        final(out)@ == old(out)@ + spec_mass_value(*m),
{
    match m {
        None => out.append("null"),
        Some(mass) => {
            out.append("{\"massValue\":");
            append_opt_num(out, &mass.mass_value);
            out.append(",\"massExponent\":");
            append_opt_num(out, &mass.mass_exponent);
            out.append("}");
            proof {
                assert(out@ =~= old(out)@ + spec_mass_value(*m));
            }
        },
    }
}

/// Re-encodes a body as JSON text: the canonical field set, populated
/// fields verbatim, `null` for every absent attribute.
pub fn encode_body(b: &CelestialBody) -> (r: String)
    ensures
        r@ == spec_encode_body(*b),
{
    let mut out = String::new();
    out.append("{\"name\":");
    append_str_value(&mut out, b.name.as_str());
    out.append(",\"id\":");
    append_str_value(&mut out, b.id.as_str());
    out.append(",\"englishName\":");
    append_opt_str(&mut out, &b.english_name);
    out.append(",\"isPlanet\":");
    out.append(if b.is_planet {
        "true"
    } else {
        "false"
    });
    out.append(",\"mass\":");
    append_mass_value(&mut out, &b.mass);
    out.append(",\"density\":");
    append_opt_num(&mut out, &b.density);
    out.append(",\"gravity\":");
    append_opt_num(&mut out, &b.gravity);
    out.append(",\"escape\":");
    append_opt_num(&mut out, &b.escape);
    out.append(",\"mean_radius\":");
    append_opt_num(&mut out, &b.mean_radius);
    out.append(",\"equa_radius\":");
    append_opt_num(&mut out, &b.equa_radius);
    out.append(",\"polar_radius\":");
    append_opt_num(&mut out, &b.polar_radius);
    out.append(",\"flattening\":");
    append_opt_num(&mut out, &b.flattening);
    out.append(",\"sideral_orbit\":");
    append_opt_num(&mut out, &b.sideral_orbit);
    out.append(",\"sideral_rotation\":");
    append_opt_num(&mut out, &b.sideral_rotation);
    out.append(",\"axial_tilt\":");
    append_opt_num(&mut out, &b.axial_tilt);
    out.append(",\"avg_temp\":");
    append_opt_num(&mut out, &b.avg_temp);
    out.append(",\"body_type\":");
    append_opt_str(&mut out, &b.body_type);
    out.append("}");
    proof {
        assert(out@ =~= spec_encode_body(*b));
    }
    out
}

/// Re-encodes a body as the crate's own JSON tree, with the same field set
/// as `encode_body`. Decoding the result restores the record exactly: the
/// round trip through re-encoding loses nothing, in particular not the
/// required fields.
pub fn body_to_json(b: &CelestialBody) -> (j: Json)
    ensures
        spec_body_from_json(j) == Ok::<CelestialBody, DecodeError>(*b),
{
    let mass_json = match &b.mass {
        None => Json::Null,
        Some(mass) => {
            let mut mf: Vec<(String, Json)> = Vec::new();
            mf.push((String::from_str("massValue"), opt_num_json(&mass.mass_value)));
            mf.push((String::from_str("massExponent"), opt_num_json(&mass.mass_exponent)));
            Json::Obj(mf)
        },
    };
    let mut fields: Vec<(String, Json)> = Vec::new();
    fields.push((String::from_str("name"), Json::Str(b.name.clone())));
    fields.push((String::from_str("id"), Json::Str(b.id.clone())));
    fields.push((String::from_str("englishName"), opt_str_json(&b.english_name)));
    fields.push((String::from_str("isPlanet"), Json::Bool(b.is_planet)));
    fields.push((String::from_str("mass"), mass_json));
    fields.push((String::from_str("density"), opt_num_json(&b.density)));
    fields.push((String::from_str("gravity"), opt_num_json(&b.gravity)));
    fields.push((String::from_str("escape"), opt_num_json(&b.escape)));
    fields.push((String::from_str("mean_radius"), opt_num_json(&b.mean_radius)));
    fields.push((String::from_str("equa_radius"), opt_num_json(&b.equa_radius)));
    fields.push((String::from_str("polar_radius"), opt_num_json(&b.polar_radius)));
    fields.push((String::from_str("flattening"), opt_num_json(&b.flattening)));
    fields.push((String::from_str("sideral_orbit"), opt_num_json(&b.sideral_orbit)));
    fields.push((String::from_str("sideral_rotation"), opt_num_json(&b.sideral_rotation)));
    fields.push((String::from_str("axial_tilt"), opt_num_json(&b.axial_tilt)));
    fields.push((String::from_str("avg_temp"), opt_num_json(&b.avg_temp)));
    fields.push((String::from_str("body_type"), opt_str_json(&b.body_type)));
    let j = Json::Obj(fields);
    proof {
        assert(spec_mass_json_ok(mass_json, b.mass));
        lemma_canonical_decode(j, *b);
    }
    j
}

/// The tree standing for an optional string attribute.
pub open spec fn spec_opt_str_json(v: Option<String>) -> Json {
    match v {
        Some(s) => Json::Str(s),
        None => Json::Null,
    }
}

/// The tree standing for an optional numeric attribute.
pub open spec fn spec_opt_num_json(v: Option<String>) -> Json {
    match v {
        Some(t) => Json::Num(t),
        None => Json::Null,
    }
}

/// The tree standing for a mass record: an object of the two mass halves,
/// or null for an absent mass.
pub open spec fn spec_mass_json_ok(v: Json, m: Option<Mass>) -> bool {
    match m {
        None => v == Json::Null,
        Some(mass) => {
            &&& v matches Json::Obj(mf)
            &&& mf@.len() == 2
            &&& mf@[0].0@ == "massValue"@
            &&& mf@[0].1 == spec_opt_num_json(mass.mass_value)
            &&& mf@[1].0@ == "massExponent"@
            &&& mf@[1].1 == spec_opt_num_json(mass.mass_exponent)
        },
    }
}

/// An object whose field list is the canonical encoding of `b`, name by
/// name, decodes back to `b` exactly.
#[verifier::rlimit(100)]
#[verifier::spinoff_prover]
proof fn lemma_canonical_decode(j: Json, b: CelestialBody)
    requires
        j is Obj,
        ({
            let gs = j->Obj_0@;
            &&& gs.len() == 17
            &&& gs[0].0@ == "name"@ && gs[0].1 == Json::Str(b.name)
            &&& gs[1].0@ == "id"@ && gs[1].1 == Json::Str(b.id)
            &&& gs[2].0@ == "englishName"@ && gs[2].1 == spec_opt_str_json(b.english_name)
            &&& gs[3].0@ == "isPlanet"@ && gs[3].1 == Json::Bool(b.is_planet)
            &&& gs[4].0@ == "mass"@ && spec_mass_json_ok(gs[4].1, b.mass)
            &&& gs[5].0@ == "density"@ && gs[5].1 == spec_opt_num_json(b.density)
            &&& gs[6].0@ == "gravity"@ && gs[6].1 == spec_opt_num_json(b.gravity)
            &&& gs[7].0@ == "escape"@ && gs[7].1 == spec_opt_num_json(b.escape)
            &&& gs[8].0@ == "mean_radius"@ && gs[8].1 == spec_opt_num_json(b.mean_radius)
            &&& gs[9].0@ == "equa_radius"@ && gs[9].1 == spec_opt_num_json(b.equa_radius)
            &&& gs[10].0@ == "polar_radius"@ && gs[10].1 == spec_opt_num_json(b.polar_radius)
            &&& gs[11].0@ == "flattening"@ && gs[11].1 == spec_opt_num_json(b.flattening)
            &&& gs[12].0@ == "sideral_orbit"@ && gs[12].1 == spec_opt_num_json(b.sideral_orbit)
            &&& gs[13].0@ == "sideral_rotation"@ && gs[13].1 == spec_opt_num_json(
                b.sideral_rotation,
            )
            &&& gs[14].0@ == "axial_tilt"@ && gs[14].1 == spec_opt_num_json(b.axial_tilt)
            &&& gs[15].0@ == "avg_temp"@ && gs[15].1 == spec_opt_num_json(b.avg_temp)
            &&& gs[16].0@ == "body_type"@ && gs[16].1 == spec_opt_str_json(b.body_type)
        }),
    ensures
        spec_body_from_json(j) == Ok::<CelestialBody, DecodeError>(b),
{
    let gs = j->Obj_0@;
    reveal_strlit("name");
    reveal_strlit("id");
    reveal_strlit("englishName");
    reveal_strlit("isPlanet");
    reveal_strlit("mass");
    reveal_strlit("massValue");
    reveal_strlit("massExponent");
    reveal_strlit("density");
    reveal_strlit("gravity");
    reveal_strlit("escape");
    reveal_strlit("mean_radius");
    reveal_strlit("equa_radius");
    reveal_strlit("polar_radius");
    reveal_strlit("flattening");
    reveal_strlit("sideral_orbit");
    reveal_strlit("sideral_rotation");
    reveal_strlit("axial_tilt");
    reveal_strlit("avg_temp");
    reveal_strlit("body_type");
    reveal_with_fuel(crate::json::key_absent_upto, 18);
    assert("name"@.len() == 4);
    assert("id"@.len() == 2);
    assert("englishName"@.len() == 11);
    assert("isPlanet"@.len() == 8);
    assert("mass"@.len() == 4);
    assert("massValue"@.len() == 9);
    assert("massExponent"@.len() == 12);
    assert("density"@.len() == 7);
    assert("gravity"@.len() == 7);
    assert("escape"@.len() == 6);
    assert("mean_radius"@.len() == 11);
    assert("equa_radius"@.len() == 11);
    assert("polar_radius"@.len() == 12);
    assert("flattening"@.len() == 10);
    assert("sideral_orbit"@.len() == 13);
    assert("sideral_rotation"@.len() == 16);
    assert("axial_tilt"@.len() == 10);
    assert("avg_temp"@.len() == 8);
    assert("body_type"@.len() == 9);
    assert("name"@[0] == 'n' && "mass"@[0] == 'm');
    assert("density"@[0] == 'd' && "gravity"@[0] == 'g');
    assert("englishName"@[0] == 'e' && "mean_radius"@[0] == 'm' && "equa_radius"@[0] == 'e');
    assert("englishName"@[1] == 'n' && "equa_radius"@[1] == 'q');
    assert("flattening"@[0] == 'f' && "axial_tilt"@[0] == 'a');
    assert("isPlanet"@[0] == 'i' && "avg_temp"@[0] == 'a');
    assert(crate::json::key_absent_upto(gs, "name"@, 0));
    crate::json::lemma_lookup_at(gs, 0);
    assert(crate::json::key_absent_upto(gs, "id"@, 1));
    crate::json::lemma_lookup_at(gs, 1);
    assert(crate::json::key_absent_upto(gs, "englishName"@, 2));
    crate::json::lemma_lookup_at(gs, 2);
    assert(crate::json::key_absent_upto(gs, "isPlanet"@, 3));
    crate::json::lemma_lookup_at(gs, 3);
    assert(crate::json::key_absent_upto(gs, "mass"@, 4));
    crate::json::lemma_lookup_at(gs, 4);
    assert(crate::json::key_absent_upto(gs, "density"@, 5));
    crate::json::lemma_lookup_at(gs, 5);
    assert(crate::json::key_absent_upto(gs, "gravity"@, 6));
    crate::json::lemma_lookup_at(gs, 6);
    assert(crate::json::key_absent_upto(gs, "escape"@, 7));
    crate::json::lemma_lookup_at(gs, 7);
    assert(crate::json::key_absent_upto(gs, "mean_radius"@, 8));
    crate::json::lemma_lookup_at(gs, 8);
    assert(crate::json::key_absent_upto(gs, "equa_radius"@, 9));
    crate::json::lemma_lookup_at(gs, 9);
    assert(crate::json::key_absent_upto(gs, "polar_radius"@, 10));
    crate::json::lemma_lookup_at(gs, 10);
    assert(crate::json::key_absent_upto(gs, "flattening"@, 11));
    crate::json::lemma_lookup_at(gs, 11);
    assert(crate::json::key_absent_upto(gs, "sideral_orbit"@, 12));
    crate::json::lemma_lookup_at(gs, 12);
    assert(crate::json::key_absent_upto(gs, "sideral_rotation"@, 13));
    crate::json::lemma_lookup_at(gs, 13);
    assert(crate::json::key_absent_upto(gs, "axial_tilt"@, 14));
    crate::json::lemma_lookup_at(gs, 14);
    assert(crate::json::key_absent_upto(gs, "avg_temp"@, 15));
    crate::json::lemma_lookup_at(gs, 15);
    assert(crate::json::key_absent_upto(gs, "body_type"@, 16));
    crate::json::lemma_lookup_at(gs, 16);
    if b.mass is Some {
        let mf = gs[4].1->Obj_0@;
        assert(crate::json::key_absent_upto(mf, "massExponent"@, 1));
        crate::json::lemma_lookup_at(mf, 0);
        crate::json::lemma_lookup_at(mf, 1);
    }
    assert(spec_body_from_json(j) == Ok::<CelestialBody, DecodeError>(b));
}

fn opt_str_json(v: &Option<String>) -> (j: Json)
    ensures
        j == spec_opt_str_json(*v),
{
    match v {
        Some(s) => Json::Str(s.clone()),
        None => Json::Null,
    }
}

fn opt_num_json(v: &Option<String>) -> (j: Json)
    ensures
        j == spec_opt_num_json(*v),
{
    match v {
        Some(t) => Json::Num(t.clone()),
        None => Json::Null,
    }
}

} // verus!
