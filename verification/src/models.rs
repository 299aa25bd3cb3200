//! Rows of the table of links that the `amimir` command draws from.
use vstd::prelude::*;

verus! {

/// A stored link, with the id that orders the table.
#[derive(Debug)]
pub struct AmimirUrl {
    pub id: i32,
    pub url: String,
}

/// A link about to be stored; the table gives it its id.
#[derive(Debug)]
pub struct NewAmimirUrl {
    pub url: String,
}

} // verus!
