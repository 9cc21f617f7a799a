//! Study subjects and their creation defaults.

use vstd::prelude::*;

verus! {

/// One study subject of one owner.
#[derive(Debug, Clone, PartialEq, Eq)]
pub struct Subject {
    pub id: i64,
    pub owner_id: i64,
    pub name: String,
    pub color: String,
    pub is_default: bool,
}

/// What a caller supplies to create a subject; the color defaults.
#[derive(Debug, Clone, PartialEq, Eq)]
pub struct CreateSubjectInput {
    pub name: String,
    pub color: Option<String>,
}

/// The color a subject gets when the caller picks none.
pub open spec fn default_color_spec() -> Seq<char> {
    "#3B82F6"@
}

/// Builds a caller-created subject, never a default one, under the given row
/// id and owner.
pub fn new_subject(id: i64, owner_id: i64, input: CreateSubjectInput) -> (r: Subject)
    ensures
        r.id == id && r.owner_id == owner_id && r.name == input.name && !r.is_default,
        r.color@ == if input.color is Some {
            input.color->0@
        } else {
            default_color_spec()
        },
{
    let color = match input.color {
        Some(c) => c,
        None => "#3B82F6".to_owned(),
    };
    Subject { id, owner_id, name: input.name, color, is_default: false }
}

} // verus!
