//! Data model for shapes.

use vstd::prelude::*;

use crate::json::{into_members, member, or_null, take_or_null, FromJson, JsonValue};

verus! {

/// Attributes of a shape: the path that vehicles take.
#[derive(Debug, PartialEq, Clone)]
pub struct ShapeAttributes {
    /// The path, as an encoded polyline.
    pub polyline: String,
}

/// Decodes the attributes of a shape.
impl FromJson for ShapeAttributes {
    open spec fn decodes_to(j: JsonValue, v: Self) -> bool {
        &&& j is Object
        &&& <String as FromJson>::decodes_to(or_null(member(j, "polyline"@)), v.polyline)
    }

    open spec fn decodable(j: JsonValue) -> bool {
        &&& j is Object
        &&& <String as FromJson>::decodable(or_null(member(j, "polyline"@)))
    }

    fn from_json(j: JsonValue) -> (r: Option<Self>) {
        let mut ms = match into_members(j) {
            Some(ms) => ms,
            None => return None,
        };
        proof {
            reveal_strlit("polyline");
            // The member names differ in length or in some character, so taking
            // one member leaves the lookup of the others unchanged.
            assert("polyline"@.len() == 8);
        }
        let polyline = take_or_null(&mut ms, "polyline");
        let polyline = match <String as FromJson>::from_json(polyline) {
            Some(x) => x,
            None => return None,
        };
        Some(ShapeAttributes { polyline })
    }
}

} // verus!
