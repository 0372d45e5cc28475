use vstd::prelude::*;

verus! {

/// The static headers of every request, as name and value, in order.
pub open spec fn standard_headers() -> Seq<(Seq<char>, Seq<char>)> {
    seq![
        ("Accept"@, "*/*"@),
        ("Accept-Encoding"@, "gzip, deflate"@),
        ("Accept-Language"@, "en;q=1, fr;q=0.9, de;q=0.8, ja;q=0.7, nl;q=0.6, it;q=0.5"@),
        ("Content-Type"@, "application/x-www-form-urlencoded; charset=utf-8"@),
        ("X-Robinhood-API-Version"@, "1.0.0"@),
        ("Connection"@, "keep-alive"@),
        ("User-Agent"@, "Robinhood/823 (iPhone; iOS 7.1.2; Scale/2.00)"@),
    ]
}

/// A header pair from two texts.
fn pair(name: &str, value: &str) -> (r: (String, String))
    ensures
        r.0@ == name@,
        r.1@ == value@,
{
    (name.to_owned(), value.to_owned())
}

/// The seven static headers that the transport sends with every request.
pub fn standard() -> (r: Vec<(String, String)>)
    ensures
        r@.len() == standard_headers().len(),
        forall|i: int| 0 <= i < r@.len() ==> (#[trigger] r@[i].0@, r@[i].1@) == standard_headers()[i],
{
    let mut r: Vec<(String, String)> = Vec::new();
    r.push(pair("Accept", "*/*"));
    r.push(pair("Accept-Encoding", "gzip, deflate"));
    r.push(pair("Accept-Language", "en;q=1, fr;q=0.9, de;q=0.8, ja;q=0.7, nl;q=0.6, it;q=0.5"));
    r.push(pair("Content-Type", "application/x-www-form-urlencoded; charset=utf-8"));
    r.push(pair("X-Robinhood-API-Version", "1.0.0"));
    r.push(pair("Connection", "keep-alive"));
    r.push(pair("User-Agent", "Robinhood/823 (iPhone; iOS 7.1.2; Scale/2.00)"));
    r
}

} // verus!
