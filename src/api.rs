use crate::urls;
use vstd::prelude::*;

verus! {

/// Full URL of an endpoint, given its path without a leading `/`.
pub fn url(path: &str) -> (r: String)
    ensures
        r@ == urls::endpoint(path@),
{
    urls::api(path)
}

} // verus!
