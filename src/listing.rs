use vstd::prelude::*;

use crate::error::ServiceError;

verus! {

/// A machine name as listed: a NULL column reads as the empty name.
pub open spec fn listed_name(cell: Option<String>) -> Seq<char> {
    match cell {
        Some(s) => s@,
        None => Seq::empty(),
    }
}

/// The machine names from the rows of the distinct-machines query, one per
/// row and in row order. A failed query is reported as a database error,
/// with no partial list; no rows give an empty list.
pub fn machine_names(rows: Result<Vec<Option<String>>, ServiceError>) -> (r: Result<Vec<String>, ServiceError>)
    ensures
        rows is Err ==> r == Err::<Vec<String>, ServiceError>(ServiceError::DatabaseError),
        rows is Ok ==> r is Ok && r->Ok_0@.len() == rows->Ok_0@.len() && forall|i: int|
            0 <= i < r->Ok_0@.len() ==> #[trigger] r->Ok_0@[i]@ == listed_name(rows->Ok_0@[i]),
{
    match rows {
        Err(_) => Err(ServiceError::DatabaseError),
        Ok(cells) => {
            let mut names: Vec<String> = Vec::new();
            let mut i: usize = 0;
            while i < cells.len()
                invariant
                    i <= cells@.len(),
                    names@.len() == i,
                    rows == Ok::<Vec<Option<String>>, ServiceError>(cells),
                    forall|j: int| 0 <= j < i ==> #[trigger] names@[j]@ == listed_name(cells@[j]),
                decreases cells@.len() - i,
            {
                let name = match &cells[i] {
                    Some(s) => s.clone(),
                    None => String::new(),
                };
                names.push(name);
                i += 1;
            }
            Ok(names)
        },
    }
}

} // verus!
