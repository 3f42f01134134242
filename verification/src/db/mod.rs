//! Data layer model: entities, changeset validation and the data-layer error.

use vstd::prelude::*;
use crate::text::push_str;

pub mod entities;

verus! {

/// The fields of a changeset that failed validation, in declaration order.
#[derive(Debug)]
pub struct ValidationErrors {
    pub fields: Vec<String>,
}

/// `names` joined with `", "`.
pub open spec fn join_names(names: Seq<Seq<char>>) -> Seq<char>
    decreases names.len(),
{
    if names.len() == 0 {
        Seq::empty()
    } else if names.len() == 1 {
        names[0]
    } else {
        join_names(names.drop_last()) + ", "@ + names.last()
    }
}

impl ValidationErrors {
    /// Names of the invalid fields.
    pub open spec fn field_names(&self) -> Seq<Seq<char>> {
        self.fields@.map_values(|f: String| f@)
    }

    /// Human-readable summary: `invalid fields: a, b`.
    pub fn message(&self) -> (r: String)
        ensures
            r@ == "invalid fields: "@ + join_names(self.field_names()),
    {
        let mut r = String::new();
        push_str(&mut r, "invalid fields: ");
        let mut i: usize = 0;
        while i < self.fields.len()
            invariant
                i <= self.fields@.len(),
                r@ == "invalid fields: "@ + join_names(self.field_names().take(i as int)),
            decreases self.fields@.len() - i,
        {
            if i > 0 {
                push_str(&mut r, ", ");
            }
            push_str(&mut r, self.fields[i].as_str());
            proof {
                let names = self.field_names();
                assert(names.take(i + 1).drop_last() =~= names.take(i as int));
                if i == 0 {
                    assert(join_names(names.take(0)) =~= Seq::<char>::empty());
                }
            }
            i = i + 1;
            assert(r@ =~= "invalid fields: "@ + join_names(self.field_names().take(i as int)));
        }
        assert(self.field_names().take(i as int) =~= self.field_names());
        r
    }
}

/// Errors that can occur as a result of a data layer operation.
#[derive(Debug)]
pub enum Error {
    /// General database error, e.g. communicating with the database failed; holds the
    /// driver's message.
    DbError(String),
    /// No record was found, e.g. when loading a record by ID.
    NoRecordFound,
    /// An invalid changeset was passed to a writing operation.
    ValidationError(ValidationErrors),
}

/// Appends `name` to the list of invalid fields when `invalid` holds.
pub(crate) fn note_invalid(fields: &mut Vec<String>, invalid: bool, name: &str)
    ensures
        final(fields)@.map_values(|f: String| f@) == (if invalid {
            old(fields)@.map_values(|f: String| f@).push(name@)
        } else {
            old(fields)@.map_values(|f: String| f@)
        }),
{
    if invalid {
        let s = crate::text::owned(name);
        fields.push(s);
        assert(fields@.map_values(|f: String| f@) =~= old(fields)@.map_values(|f: String| f@).push(
            name@,
        ));
    }
}

} // verus!
