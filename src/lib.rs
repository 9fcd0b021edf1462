//! The logic of a shop-floor nesting service: a batch list cached for the
//! life of the process, the join of a program's nest with the batches on its
//! sheet, the program lifecycle handler and the machine listing.

pub mod batch;
pub mod cache;
pub mod error;
pub mod lifecycle;
pub mod listing;
pub mod nest;
