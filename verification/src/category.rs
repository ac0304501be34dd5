//! The category entity and its API-facing response record.

use vstd::prelude::*;
use crate::json::{int_json, json_string, push_i32, push_json_string, ToJson};

verus! {

/// A persisted category record, as handed over by the data-access layer:
/// its identity and full field set.
#[derive(Debug, Clone, PartialEq)]
pub struct CategoryEntity {
    pub id: i32,
    pub name: String,
}

/// The projection of a category entity exposed to API consumers.
#[derive(Debug, Clone, PartialEq)]
pub struct CategoryResponse {
    pub id: i32,
    pub name: String,
}

impl CategoryResponse {
    /// Project an entity onto its response record: `id` and `name` are
    /// carried over unchanged, and nothing else is exposed.
    pub fn from(category: CategoryEntity) -> (r: Self)
        ensures
            r.id == category.id,
            r.name@ == category.name@,
    {
        CategoryResponse { id: category.id, name: category.name }
    }
}

impl ToJson for CategoryResponse {
    /// `{"id":<id>,"name":<name>}` with the identifier in decimal and the
    /// name as a JSON string.
    open spec fn json_view(&self) -> Seq<char> {
        "{\"id\":"@ + int_json(self.id as int) + ",\"name\":"@ + json_string(self.name@) + "}"@
    }

    fn to_json(&self) -> (r: String)
        ensures
            r@ == self.json_view(),
    {
        let mut out = String::from_str("{\"id\":");
        push_i32(&mut out, self.id);
        out.append(",\"name\":");
        push_json_string(&mut out, self.name.as_str());
        out.append("}");
        proof {
            assert(out@ =~= self.json_view());
        }
        out
    }
}

} // verus!
