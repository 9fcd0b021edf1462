use vstd::prelude::*;

use crate::batch::{copy_batches, Batch};
use crate::error::ServiceError;

verus! {

/// What a fetch of the batch source gave, or what a reader of the cache got.
pub type Outcome = Result<Seq<Batch>, ServiceError>;

/// The model of a batch list result.
pub open spec fn outcome_of(r: Result<Vec<Batch>, ServiceError>) -> Outcome {
    match r {
        Ok(v) => Ok(v@),
        Err(e) => Err(e),
    }
}

/// The cell that holds the batch list for the life of the process. It is
/// empty until the first successful fetch and never changes after it.
pub struct BatchCache {
    batches: Option<Vec<Batch>>,
}

impl View for BatchCache {
    type V = Option<Seq<Batch>>;

    closed spec fn view(&self) -> Option<Seq<Batch>> {
        match self.batches {
            Some(v) => Some(v@),
            None => None,
        }
    }
}

/// One reader's turn at the cache, in the state `cache`, where `fetched` is
/// what the batch source gives if this reader calls it: the next state, and
/// what the reader gets. The source is called exactly when `cache` is empty.
pub open spec fn load_step(cache: Option<Seq<Batch>>, fetched: Outcome) -> (Option<Seq<Batch>>, Outcome) {
    match cache {
        Some(s) => (Some(s), Ok(s)),
        None => match fetched {
            Ok(s) => (Some(s), Ok(s)),
            Err(e) => (None, Err(e)),
        },
    }
}

/// Readers take their turns one after another, the `i`-th with the source
/// outcome `fetched[i]`. Gives the final state, the number of calls made to
/// the source, and what each reader got.
pub open spec fn serve(cache: Option<Seq<Batch>>, fetched: Seq<Outcome>) -> (Option<Seq<Batch>>, nat, Seq<Outcome>)
    decreases fetched.len(),
{
    if fetched.len() == 0 {
        (cache, 0, Seq::empty())
    } else {
        let (next, got) = load_step(cache, fetched[0]);
        let (last, calls, rest) = serve(next, fetched.drop_first());
        (last, calls + if cache is None { 1nat } else { 0nat }, seq![got] + rest)
    }
}

/// Once the cache holds a list, no reader calls the source again, and every
/// reader gets that same list.
pub proof fn lemma_loaded_cache_never_fetches(s: Seq<Batch>, fetched: Seq<Outcome>)
    ensures
        serve(Some(s), fetched).0 == Some(s),
        serve(Some(s), fetched).1 == 0,
        serve(Some(s), fetched).2.len() == fetched.len(),
        forall|i: int| 0 <= i < fetched.len() ==> #[trigger] serve(Some(s), fetched).2[i] == Ok::<Seq<Batch>, ServiceError>(s),
    decreases fetched.len(),
{
    if fetched.len() > 0 {
        lemma_loaded_cache_never_fetches(s, fetched.drop_first());
        let rest = serve(Some(s), fetched.drop_first()).2;
        assert forall|i: int| 0 <= i < fetched.len() implies #[trigger] serve(Some(s), fetched).2[i] == Ok::<Seq<Batch>, ServiceError>(s) by {
            if i > 0 {
                assert(serve(Some(s), fetched).2[i] == rest[i - 1]);
            }
        }
    }
}

/// Readers that find the cache empty, served one at a time while the source
/// works: the source is called exactly once, by the first reader, and every
/// reader gets the list of that call.
pub proof fn lemma_single_fetch(fetched: Seq<Outcome>)
    requires
        fetched.len() > 0,
        forall|i: int| 0 <= i < fetched.len() ==> #[trigger] fetched[i] is Ok,
    ensures
        serve(None, fetched).0 == Some(fetched[0]->Ok_0),
        serve(None, fetched).1 == 1,
        serve(None, fetched).2.len() == fetched.len(),
        forall|i: int| 0 <= i < fetched.len() ==> #[trigger] serve(None, fetched).2[i] == fetched[0],
{
    let s = fetched[0]->Ok_0;
    assert(fetched[0] is Ok);
    lemma_loaded_cache_never_fetches(s, fetched.drop_first());
    let rest = serve(Some(s), fetched.drop_first()).2;
    assert forall|i: int| 0 <= i < fetched.len() implies #[trigger] serve(None, fetched).2[i] == fetched[0] by {
        if i > 0 {
            assert(serve(None, fetched).2[i] == rest[i - 1]);
        }
    }
}

impl BatchCache {
    /// An empty cache.
    pub fn new() -> (r: BatchCache)
        ensures
            r@ is None,
    {
        BatchCache { batches: None }
    }

    /// Whether the batch list is already held.
    pub fn is_loaded(&self) -> (r: bool)
        ensures
            r == self@ is Some,
    {
        self.batches.is_some()
    }

    /// The batch list, calling `load` for it if the cache is empty. A list
    /// that `load` gives is kept; after an error the cache stays empty, and
    /// a later reader calls its own source again.
    pub fn get_or_load<F>(&mut self, load: F) -> (r: Result<Vec<Batch>, ServiceError>)
        where
            F: FnOnce() -> Result<Vec<Batch>, ServiceError>,
        requires
            old(self)@ is None ==> load.requires(()),
        ensures
            old(self)@ is Some ==> final(self)@ == old(self)@ && outcome_of(r) == Ok::<
                Seq<Batch>,
                ServiceError,
            >(old(self)@->Some_0),
            old(self)@ is None ==> exists|fetched: Result<Vec<Batch>, ServiceError>|
                load.ensures((), fetched) && (final(self)@, outcome_of(r)) == load_step(
                    old(self)@,
                    outcome_of(fetched),
                ),
    {
        match &self.batches {
            Some(v) => Ok(copy_batches(v)),
            None => {
                let fetched = load();
                let ghost given = fetched;
                let r = match fetched {
                    Ok(v) => {
                        let out = copy_batches(&v);
                        self.batches = Some(v);
                        Ok(out)
                    },
                    Err(e) => Err(e),
                };
                assert(load.ensures((), given) && (self@, outcome_of(r)) == load_step(
                    None,
                    outcome_of(given),
                ));
                r
            },
        }
    }
}

} // verus!
