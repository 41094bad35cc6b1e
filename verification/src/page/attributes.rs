//! Page metadata, transmitted by the API as decimal strings.

use vstd::prelude::*;

use crate::json::{obj_lookup, FromJson, Json};
use crate::types::str_to_u32;
use crate::types::str_to_u32_spec;

verus! {

/// The `@attr` block of a page: current page, total pages, page size and
/// total item count. All four travel as decimal strings on the wire.
#[derive(Debug, Clone, Copy, PartialEq, Eq, Structural)]
pub struct Attributes {
    pub total_pages: u32,
    pub page: u32,
    pub per_page: u32,
    pub total: u32,
}

impl View for Attributes {
    type V = Attributes;

    open spec fn view(&self) -> Attributes {
        *self
    }
}

/// The `u32` under `key`, which must be present and hold a decimal string.
pub open spec fn attr_field_spec(entries: Seq<(String, Json)>, key: Seq<char>) -> Option<u32> {
    match obj_lookup(entries, key) {
        Some(Json::Str(s)) => str_to_u32_spec(s@),
        _ => None,
    }
}

fn attr_field(entries: &Vec<(String, Json)>, key: &String) -> (r: Option<u32>)
    ensures
        r == attr_field_spec(entries@, key@),
{
    match crate::json::obj_get(entries, key) {
        Some(Json::Str(s)) => str_to_u32(s.as_str()),
        _ => None,
    }
}

impl FromJson for Attributes {
    /// An object whose `totalPages`, `page`, `perPage` and `total` fields
    /// are all present and hold decimal strings; other fields are ignored.
    open spec fn from_json_spec(v: Json) -> Option<Self::V> {
        match v {
            Json::Obj(entries) => {
                let tp = attr_field_spec(entries@, "totalPages"@);
                let pg = attr_field_spec(entries@, "page"@);
                let pp = attr_field_spec(entries@, "perPage"@);
                let tt = attr_field_spec(entries@, "total"@);
                if tp is Some && pg is Some && pp is Some && tt is Some {
                    Some(
                        Attributes {
                            total_pages: tp->Some_0,
                            page: pg->Some_0,
                            per_page: pp->Some_0,
                            total: tt->Some_0,
                        },
                    )
                } else {
                    None
                }
            },
            _ => None,
        }
    }

    fn from_json(v: &Json) -> (r: Option<Self>) {
        match v {
            Json::Obj(entries) => {
                let tp = attr_field(entries, &String::from_str("totalPages"));
                let pg = attr_field(entries, &String::from_str("page"));
                let pp = attr_field(entries, &String::from_str("perPage"));
                let tt = attr_field(entries, &String::from_str("total"));
                match (tp, pg, pp, tt) {
                    (Some(total_pages), Some(page), Some(per_page), Some(total)) => Some(
                        Attributes { total_pages, page, per_page, total },
                    ),
                    _ => None,
                }
            },
            _ => None,
        }
    }
}

} // verus!
