//! Headers that carry a key.

use vstd::prelude::*;

verus! {

/// What a list of headers holds: names with their values.
pub open spec fn header_views(headers: Seq<(String, String)>) -> Seq<(Seq<char>, Seq<char>)> {
    headers.map_values(|header: (String, String)| (header.0@, header.1@))
}

/// The header that carries a key under a name.
pub fn api_key_header(api_key: &str, header_name: &str) -> (headers: Vec<(String, String)>)
    ensures
        header_views(headers@) == seq![(header_name@, api_key@)],
{
    let mut headers: Vec<(String, String)> = Vec::new();
    headers.push((header_name.to_owned(), api_key.to_owned()));
    assert(header_views(headers@) =~= seq![(header_name@, api_key@)]);
    headers
}

} // verus!
