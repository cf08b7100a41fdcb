//! Data model for routes.

use vstd::prelude::*;

use crate::json::{into_members, member, or_null, take_or_null, FromJson, JsonValue};

use crate::models::shared::RouteType;

verus! {

/// Attributes of a route.
#[derive(Debug, PartialEq, Clone)]
pub struct RouteAttributes {
    /// Type of transportation.
    pub route_type: RouteType,
    /// Short name.
    pub short_name: String,
    /// Long name.
    pub long_name: String,
    /// Color of the route, as hex digits.
    pub color: String,
    /// Color of text on the route's color, as hex digits.
    pub text_color: String,
    /// Order of the route among routes.
    pub sort_order: u64,
    /// Fare class.
    pub fare_class: String,
    /// Names of the two directions.
    pub direction_names: Option<Vec<String>>,
    /// Destinations of the two directions.
    pub direction_destinations: Option<Vec<String>>,
    /// Description.
    pub description: String,
}

/// Decodes the attributes of a route.
impl FromJson for RouteAttributes {
    open spec fn decodes_to(j: JsonValue, v: Self) -> bool {
        &&& j is Object
        &&& <RouteType as FromJson>::decodes_to(or_null(member(j, "type"@)), v.route_type)
        &&& <String as FromJson>::decodes_to(or_null(member(j, "short_name"@)), v.short_name)
        &&& <String as FromJson>::decodes_to(or_null(member(j, "long_name"@)), v.long_name)
        &&& <String as FromJson>::decodes_to(or_null(member(j, "color"@)), v.color)
        &&& <String as FromJson>::decodes_to(or_null(member(j, "text_color"@)), v.text_color)
        &&& <u64 as FromJson>::decodes_to(or_null(member(j, "sort_order"@)), v.sort_order)
        &&& <String as FromJson>::decodes_to(or_null(member(j, "fare_class"@)), v.fare_class)
        &&& <Option<Vec<String>> as FromJson>::decodes_to(or_null(member(j, "direction_names"@)), v.direction_names)
        &&& <Option<Vec<String>> as FromJson>::decodes_to(or_null(member(j, "direction_destinations"@)), v.direction_destinations)
        &&& <String as FromJson>::decodes_to(or_null(member(j, "description"@)), v.description)
    }

    open spec fn decodable(j: JsonValue) -> bool {
        &&& j is Object
        &&& <RouteType as FromJson>::decodable(or_null(member(j, "type"@)))
        &&& <String as FromJson>::decodable(or_null(member(j, "short_name"@)))
        &&& <String as FromJson>::decodable(or_null(member(j, "long_name"@)))
        &&& <String as FromJson>::decodable(or_null(member(j, "color"@)))
        &&& <String as FromJson>::decodable(or_null(member(j, "text_color"@)))
        &&& <u64 as FromJson>::decodable(or_null(member(j, "sort_order"@)))
        &&& <String as FromJson>::decodable(or_null(member(j, "fare_class"@)))
        &&& <Option<Vec<String>> as FromJson>::decodable(or_null(member(j, "direction_names"@)))
        &&& <Option<Vec<String>> as FromJson>::decodable(or_null(member(j, "direction_destinations"@)))
        &&& <String as FromJson>::decodable(or_null(member(j, "description"@)))
    }

    fn from_json(j: JsonValue) -> (r: Option<Self>) {
        let mut ms = match into_members(j) {
            Some(ms) => ms,
            None => return None,
        };
        proof {
            reveal_strlit("type");
            reveal_strlit("short_name");
            reveal_strlit("long_name");
            reveal_strlit("color");
            reveal_strlit("text_color");
            reveal_strlit("sort_order");
            reveal_strlit("fare_class");
            reveal_strlit("direction_names");
            reveal_strlit("direction_destinations");
            reveal_strlit("description");
            // The member names differ in length or in some character, so taking
            // one member leaves the lookup of the others unchanged.
            assert("type"@.len() == 4);
            assert("short_name"@.len() == 10);
            assert("long_name"@.len() == 9);
            assert("color"@.len() == 5);
            assert("text_color"@.len() == 10);
            assert("sort_order"@.len() == 10);
            assert("fare_class"@.len() == 10);
            assert("direction_names"@.len() == 15);
            assert("direction_destinations"@.len() == 22);
            assert("description"@.len() == 11);
            assert("short_name"@[0] == 's');
            assert("text_color"@[0] == 't');
            assert("short_name"@[1] == 'h');
            assert("sort_order"@[1] == 'o');
            assert("fare_class"@[0] == 'f');
            assert("sort_order"@[0] == 's');
        }
        let route_type = take_or_null(&mut ms, "type");
        let short_name = take_or_null(&mut ms, "short_name");
        let long_name = take_or_null(&mut ms, "long_name");
        let color = take_or_null(&mut ms, "color");
        let text_color = take_or_null(&mut ms, "text_color");
        let sort_order = take_or_null(&mut ms, "sort_order");
        let fare_class = take_or_null(&mut ms, "fare_class");
        let direction_names = take_or_null(&mut ms, "direction_names");
        let direction_destinations = take_or_null(&mut ms, "direction_destinations");
        let description = take_or_null(&mut ms, "description");
        let route_type = match <RouteType as FromJson>::from_json(route_type) {
            Some(x) => x,
            None => return None,
        };
        let short_name = match <String as FromJson>::from_json(short_name) {
            Some(x) => x,
            None => return None,
        };
        let long_name = match <String as FromJson>::from_json(long_name) {
            Some(x) => x,
            None => return None,
        };
        let color = match <String as FromJson>::from_json(color) {
            Some(x) => x,
            None => return None,
        };
        let text_color = match <String as FromJson>::from_json(text_color) {
            Some(x) => x,
            None => return None,
        };
        let sort_order = match <u64 as FromJson>::from_json(sort_order) {
            Some(x) => x,
            None => return None,
        };
        let fare_class = match <String as FromJson>::from_json(fare_class) {
            Some(x) => x,
            None => return None,
        };
        let direction_names = match <Option<Vec<String>> as FromJson>::from_json(direction_names) {
            Some(x) => x,
            None => return None,
        };
        let direction_destinations = match <Option<Vec<String>> as FromJson>::from_json(direction_destinations) {
            Some(x) => x,
            None => return None,
        };
        let description = match <String as FromJson>::from_json(description) {
            Some(x) => x,
            None => return None,
        };
        Some(RouteAttributes { route_type, short_name, long_name, color, text_color, sort_order, fare_class, direction_names, direction_destinations, description })
    }
}

} // verus!
