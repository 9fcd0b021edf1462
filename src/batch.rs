use vstd::prelude::*;

verus! {

/// A physical sheet-cutting batch. Only `sheet_name` takes part in the
/// service's logic; the other fields are carried along unchanged.
#[derive(Debug)]
pub struct Batch {
    pub id: String,
    pub sheet_name: String,
    pub material: String,
    pub quantity: u32,
}

impl Clone for Batch {
    fn clone(&self) -> (r: Self)
        ensures
            r == *self,
    {
        Batch {
            id: self.id.clone(),
            sheet_name: self.sheet_name.clone(),
            material: self.material.clone(),
            quantity: self.quantity,
        }
    }
}

/// The batches of `s` cut from the sheet `name`, in their order in `s`.
pub open spec fn on_sheet(s: Seq<Batch>, name: Seq<char>) -> Seq<Batch> {
    s.filter(|b: Batch| b.sheet_name@ == name)
}

/// A copy of a batch list, element for element.
pub fn copy_batches(v: &Vec<Batch>) -> (r: Vec<Batch>)
    ensures
        r@ == v@,
{
    let mut r: Vec<Batch> = Vec::new();
    let mut i: usize = 0;
    while i < v.len()
        invariant
            i <= v@.len(),
            r@ == v@.take(i as int),
        decreases v@.len() - i,
    {
        r.push(v[i].clone());
        proof {
            assert(v@.take(i as int + 1) =~= v@.take(i as int).push(v@[i as int]));
        }
        i += 1;
    }
    proof {
        assert(v@.take(v@.len() as int) =~= v@);
    }
    r
}

/// The batches of `batches` that were cut from the sheet `sheet_name`, in
/// the order in which they stand in `batches`.
pub fn batches_on_sheet(batches: &Vec<Batch>, sheet_name: &String) -> (r: Vec<Batch>)
    ensures
        r@ == on_sheet(batches@, sheet_name@),
{
    let mut r: Vec<Batch> = Vec::new();
    let mut i: usize = 0;
    while i < batches.len()
        invariant
            i <= batches@.len(),
            r@ == on_sheet(batches@.take(i as int), sheet_name@),
        decreases batches@.len() - i,
    {
        let b = &batches[i];
        proof {
            let head = batches@.take(i as int);
            assert(batches@.take(i as int + 1) =~= head.push(*b));
            head.lemma_filter_push(*b, |x: Batch| x.sheet_name@ == sheet_name@);
        }
        if b.sheet_name == *sheet_name {
            r.push(b.clone());
        }
        i += 1;
    }
    proof {
        assert(batches@.take(batches@.len() as int) =~= batches@);
    }
    r
}

} // verus!
