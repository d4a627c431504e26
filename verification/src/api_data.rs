use vstd::prelude::*;

verus! {

/// The query that names the coin a request is about.
pub struct CoinQuery {
    pub coin: String,
}

} // verus!
