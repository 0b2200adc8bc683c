//! Client-side logic for a solar-system catalog API: building request URLs,
//! decoding the JSON bodies the API returns, re-encoding records, and
//! rendering the console lines that describe each celestial body.

pub mod body;
pub mod encode;
pub mod json;
pub mod parse;
pub mod present;
pub mod request;

pub use body::{body_from_json, decode_detail, decode_list, CelestialBody, DecodeError, Mass};
pub use encode::{body_to_json, encode_body};
pub use json::Json;
pub use parse::parse_json;
pub use present::{detail_error_line, detail_lines, list_error_line, list_lines, mass_line};
pub use request::request_url;
