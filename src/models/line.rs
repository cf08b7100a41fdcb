//! Data model for lines.

use vstd::prelude::*;

use crate::json::{into_members, member, or_null, take_or_null, FromJson, JsonValue};

verus! {

/// Attributes of a line: a group of routes.
#[derive(Debug, PartialEq, Clone)]
pub struct LineAttributes {
    /// Color of the line, as hex digits.
    pub color: String,
    /// Color of text on the line's color, as hex digits.
    pub text_color: String,
    /// Order of the line among lines.
    pub sort_order: u64,
    /// Short name.
    pub short_name: String,
    /// Long name.
    pub long_name: String,
}

/// Decodes the attributes of a line.
impl FromJson for LineAttributes {
    open spec fn decodes_to(j: JsonValue, v: Self) -> bool {
        &&& j is Object
        &&& <String as FromJson>::decodes_to(or_null(member(j, "color"@)), v.color)
        &&& <String as FromJson>::decodes_to(or_null(member(j, "text_color"@)), v.text_color)
        &&& <u64 as FromJson>::decodes_to(or_null(member(j, "sort_order"@)), v.sort_order)
        &&& <String as FromJson>::decodes_to(or_null(member(j, "short_name"@)), v.short_name)
        &&& <String as FromJson>::decodes_to(or_null(member(j, "long_name"@)), v.long_name)
    }

    open spec fn decodable(j: JsonValue) -> bool {
        &&& j is Object
        &&& <String as FromJson>::decodable(or_null(member(j, "color"@)))
        &&& <String as FromJson>::decodable(or_null(member(j, "text_color"@)))
        &&& <u64 as FromJson>::decodable(or_null(member(j, "sort_order"@)))
        &&& <String as FromJson>::decodable(or_null(member(j, "short_name"@)))
        &&& <String as FromJson>::decodable(or_null(member(j, "long_name"@)))
    }

    fn from_json(j: JsonValue) -> (r: Option<Self>) {
        let mut ms = match into_members(j) {
            Some(ms) => ms,
            None => return None,
        };
        proof {
            reveal_strlit("color");
            reveal_strlit("text_color");
            reveal_strlit("sort_order");
            reveal_strlit("short_name");
            reveal_strlit("long_name");
            // The member names differ in length or in some character, so taking
            // one member leaves the lookup of the others unchanged.
            assert("color"@.len() == 5);
            assert("text_color"@.len() == 10);
            assert("sort_order"@.len() == 10);
            assert("short_name"@.len() == 10);
            assert("long_name"@.len() == 9);
            assert("text_color"@[0] == 't');
            assert("sort_order"@[0] == 's');
            assert("short_name"@[0] == 's');
            assert("sort_order"@[1] == 'o');
            assert("short_name"@[1] == 'h');
        }
        let color = take_or_null(&mut ms, "color");
        let text_color = take_or_null(&mut ms, "text_color");
        let sort_order = take_or_null(&mut ms, "sort_order");
        let short_name = take_or_null(&mut ms, "short_name");
        let long_name = take_or_null(&mut ms, "long_name");
        let color = match <String as FromJson>::from_json(color) {
            Some(x) => x,
            None => return None,
        };
        let text_color = match <String as FromJson>::from_json(text_color) {
            Some(x) => x,
            None => return None,
        };
        let sort_order = match <u64 as FromJson>::from_json(sort_order) {
            Some(x) => x,
            None => return None,
        };
        let short_name = match <String as FromJson>::from_json(short_name) {
            Some(x) => x,
            None => return None,
        };
        let long_name = match <String as FromJson>::from_json(long_name) {
            Some(x) => x,
            None => return None,
        };
        Some(LineAttributes { color, text_color, sort_order, short_name, long_name })
    }
}

} // verus!
