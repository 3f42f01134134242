//! Tasks (TODO items).

use vstd::prelude::*;
use crate::db::{ValidationErrors, note_invalid};

verus! {

/// A task, i.e. TODO item.
#[derive(Debug)]
pub struct Task {
    /// The internal id of the record (aliases rowid for speed).
    pub id: i64,
    /// The external UUID for URLs/APIs.
    pub uuid: String,
    /// The description, i.e. what to do.
    pub description: String,
}

/// Data used to create a new task or update an existing one.
#[derive(Debug, Clone)]
pub struct TaskChangeset {
    /// The description must be at least 1 character long.
    pub description: String,
}

impl TaskChangeset {
    /// Names of the fields that break the changeset's rules.
    pub open spec fn invalid_fields(&self) -> Seq<Seq<char>> {
        if self.description@.len() < 1 {
            seq!["description"@]
        } else {
            Seq::empty()
        }
    }

    /// Checks the changeset's rules: the description has at least one character.
    pub fn validate(&self) -> (r: Result<(), ValidationErrors>)
        ensures
            r is Ok <==> self.invalid_fields().len() == 0,
            r matches Err(e) ==> e.field_names() == self.invalid_fields(),
    {
        let mut fields: Vec<String> = Vec::new();
        assert(fields@.map_values(|f: String| f@) =~= Seq::<Seq<char>>::empty());
        note_invalid(&mut fields, self.description.as_str().unicode_len() < 1, "description");
        if fields.len() == 0 {
            Ok(())
        } else {
            let e = ValidationErrors { fields };
            assert(e.field_names() =~= self.invalid_fields());
            Err(e)
        }
    }
}

} // verus!
