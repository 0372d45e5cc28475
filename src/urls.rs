use vstd::prelude::*;
use vstd::string::*;

verus! {

/// Scheme and host of every endpoint.
pub const BASE_URL: &'static str = "https://api.robinhood.com";

/// `{BASE_URL}/{path}`.
pub open spec fn endpoint(path: Seq<char>) -> Seq<char> {
    BASE_URL@ + seq!['/'] + path
}

/// Joins `path` onto the base URL with one `/` between them.
pub fn api(path: &str) -> (r: String)
    ensures
        r@ == endpoint(path@),
{
    let mut r = BASE_URL.to_owned();
    r.append("/");
    r.append(path);
    proof {
        reveal_strlit("/");
        assert(r@ =~= endpoint(path@));
    }
    r
}

} // verus!
