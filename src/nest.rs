use vstd::prelude::*;

use crate::batch::{batches_on_sheet, on_sheet, Batch};
use crate::cache::outcome_of;
use crate::error::ServiceError;

verus! {

/// The sheet stock that a program is nested on.
#[derive(Debug)]
pub struct Sheet {
    pub sheet_name: String,
}

/// A cut program's assignment to a sheet.
#[derive(Debug)]
pub struct Nest {
    pub program: String,
    pub sheet: Sheet,
}

/// The nest of `program` among the rows that the nest query gave: the first
/// row for that program, or `NotFound` where there is none.
pub open spec fn nest_among(program: Seq<char>, rows: Seq<Nest>) -> Result<Nest, ServiceError>
    decreases rows.len(),
{
    if rows.len() == 0 {
        Err(ServiceError::NotFound)
    } else if rows[0].program@ == program {
        Ok(rows[0])
    } else {
        nest_among(program, rows.drop_first())
    }
}

/// What resolving `program` gives from the outcome of the nest query: a
/// failed query is passed on, and a program with no row is `NotFound`.
pub open spec fn resolved(program: Seq<char>, rows: Result<Seq<Nest>, ServiceError>) -> Result<Nest, ServiceError> {
    match rows {
        Ok(rows) => nest_among(program, rows),
        Err(e) => Err(e),
    }
}

/// The model of the nest query's outcome.
pub open spec fn rows_of(rows: Result<Vec<Nest>, ServiceError>) -> Result<Seq<Nest>, ServiceError> {
    match rows {
        Ok(v) => Ok(v@),
        Err(e) => Err(e),
    }
}

/// Resolves `program` to its nest from what the nest query returned.
pub fn resolve_nest(program: &String, rows: Result<Vec<Nest>, ServiceError>) -> (r: Result<Nest, ServiceError>)
    ensures
        r == resolved(program@, rows_of(rows)),
{
    match rows {
        Err(e) => Err(e),
        Ok(v) => {
            let mut list = v;
            let ghost all = list@;
            let mut i: usize = 0;
            assert(all.skip(0) =~= all);
            while i < list.len()
                invariant
                    list@ == all,
                    rows_of(rows) == Ok::<Seq<Nest>, ServiceError>(all),
                    i <= all.len(),
                    nest_among(program@, all) == nest_among(program@, all.skip(i as int)),
                    forall|j: int| 0 <= j < i ==> #[trigger] all[j].program@ != program@,
                decreases all.len() - i,
            {
                assert(all.skip(i as int).drop_first() =~= all.skip(i as int + 1));
                assert(all.skip(i as int)[0] == all[i as int]);
                if list[i].program == *program {
                    return Ok(list.swap_remove(i));
                }
                i += 1;
            }
            assert(all.skip(i as int).len() == 0);
            Err(ServiceError::NotFound)
        },
    }
}

/// What a request for the batches of a program gives: a failure of the
/// batch cache first, then a failure to resolve the nest, and otherwise the
/// cached batches on the nest's sheet, in cache order.
pub open spec fn program_batches(
    cached: Result<Seq<Batch>, ServiceError>,
    nest: Result<Nest, ServiceError>,
) -> Result<Seq<Batch>, ServiceError> {
    match cached {
        Err(e) => Err(e),
        Ok(s) => match nest {
            Err(e) => Err(e),
            Ok(n) => Ok(on_sheet(s, n.sheet.sheet_name@)),
        },
    }
}

/// Joins the cached batch list with the program's nest on the sheet name.
/// A failed nest lookup is passed on whole, with no batches. A program nested
/// on a sheet of its own is not told apart: it goes through the same filter,
/// which gives the batches of that sheet, if any.
pub fn batches_for_program(
    cached: &Vec<Batch>,
    nest: &Result<Nest, ServiceError>,
) -> (r: Result<Vec<Batch>, ServiceError>)
    ensures
        outcome_of(r) == program_batches(Ok(cached@), *nest),
        nest is Err ==> r == Err::<Vec<Batch>, ServiceError>(nest->Err_0),
{
    match nest {
        Err(e) => Err(*e),
        Ok(n) => Ok(batches_on_sheet(cached, &n.sheet.sheet_name)),
    }
}

} // verus!
