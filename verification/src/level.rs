//! Records of the level editor, as plain data.
//!
//! A level file places entities on a pixel grid and may attach named fields to
//! them. The game reads an entity's pixel position and its enum-valued
//! fields; everything else in a record is carried as [`FieldValue::Other`].

use vstd::prelude::*;

verus! {

/// A pair of integer coordinates of the level editor.
#[derive(Clone, Copy, Debug, PartialEq, Eq, Structural)]
pub struct IVec2 {
    pub x: i32,
    pub y: i32,
}

/// The cell of a tile on a level's grid.
#[derive(Clone, Copy, Debug, PartialEq, Eq, Structural)]
pub struct GridCoords {
    pub x: i32,
    pub y: i32,
}

/// The value of a field of a level entity.
#[derive(Debug)]
pub enum FieldValue {
    /// A value of an enumeration of the level editor, by the name of the
    /// variant; `None` when the field was left empty.
    Enum(Option<String>),
    /// A value of any other kind.
    Other,
}

/// A named field of a level entity.
#[derive(Debug)]
pub struct FieldInstance {
    pub identifier: String,
    pub value: FieldValue,
}

/// An entity as the level editor recorded it.
#[derive(Debug)]
pub struct EntityInstance {
    /// Position in pixels; `y` grows downward from the top of the level.
    pub px: IVec2,
    /// The fields the level designer filled in.
    pub field_instances: Vec<FieldInstance>,
}

/// The index of the first field named `name`, or the number of fields if no
/// field has that name.
pub open spec fn first_named(fields: Seq<FieldInstance>, name: Seq<char>) -> int
    decreases fields.len(),
{
    if fields.len() == 0 {
        0
    } else if fields.first().identifier@ == name {
        0
    } else {
        1 + first_named(fields.drop_first(), name)
    }
}

/// The position [`first_named`] reports is within the fields or just past
/// them; the field there has the name, and no field before it has.
pub proof fn lemma_first_named(fields: Seq<FieldInstance>, name: Seq<char>)
    ensures
        0 <= first_named(fields, name) <= fields.len(),
        first_named(fields, name) < fields.len() ==> fields[first_named(
            fields,
            name,
        )].identifier@ == name,
        forall|i: int|
            0 <= i < first_named(fields, name) ==> (#[trigger] fields[i]).identifier@ != name,
    decreases fields.len(),
{
    if fields.len() > 0 && fields.first().identifier@ != name {
        let rest = fields.drop_first();
        lemma_first_named(rest, name);
        assert forall|i: int| 0 <= i < first_named(fields, name) implies (
        #[trigger] fields[i]).identifier@ != name by {
            if i > 0 {
                assert(rest[i - 1] == fields[i]);
            }
        }
    }
}

/// Finds the first field with the given name.
pub fn find_field<'a>(fields: &'a Vec<FieldInstance>, name: &str) -> (found: Option<
    &'a FieldInstance,
>)
    ensures
        0 <= first_named(fields@, name@) <= fields.len(),
        found is None <==> first_named(fields@, name@) == fields.len(),
        found matches Some(field) ==> *field == fields@[first_named(fields@, name@)],
{
    let wanted: String = name.to_owned();
    let mut i: usize = 0;
    proof {
        lemma_first_named(fields@, name@);
    }
    while i < fields.len()
        invariant
            i <= fields.len(),
            wanted@ == name@,
            i <= first_named(fields@, name@) <= fields.len(),
            forall|j: int| 0 <= j < i ==> (#[trigger] fields@[j]).identifier@ != name@,
        decreases fields.len() - i,
    {
        proof {
            lemma_first_named(fields@, name@);
        }
        if fields[i].identifier == wanted {
            return Some(&fields[i]);
        }
        i += 1;
    }
    None
}

} // verus!
