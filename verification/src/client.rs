use vstd::prelude::*;
use vstd::string::*;


verus! {

/// Media type that every request asks for.
pub const ACCEPT: &'static str = "application/json";

/// Seconds a request may take before it is given up.
pub const TIMEOUT_SECS: u64 = 1;

/// A `GET` request to an Elasticsearch endpoint: the address, and the query
/// parameters in order.  It is sent with an `Accept` header of [`ACCEPT`]
/// and a timeout of [`TIMEOUT_SECS`].
pub struct Query {
    pub url: String,
    pub params: Vec<(String, String)>,
}

/// The characters of each name and value of a parameter list.
pub open spec fn params_view(params: Seq<(String, String)>) -> Seq<(Seq<char>, Seq<char>)> {
    params.map_values(|p: (String, String)| (p.0@, p.1@))
}

/// The characters of each name and value of a parameter list given as
/// string slices.
pub open spec fn str_params_view(params: Seq<(&str, &str)>) -> Seq<(Seq<char>, Seq<char>)> {
    params.map_values(|p: (&str, &str)| (p.0@, p.1@))
}

/// The request for `endpoint` of the node at `base`, with the given query
/// parameters: its address is `base` followed by `endpoint`.
pub fn query(base: &str, endpoint: &str, params: &[(&str, &str)]) -> (r: Query)
    ensures
        r.url@ == base@ + endpoint@,
        params_view(r.params@) == str_params_view(params@),
{
    let url = String::from_str(base).concat(endpoint);
    let mut owned: Vec<(String, String)> = Vec::new();
    let mut i: usize = 0;
    while i < params.len()
        invariant
            0 <= i <= params@.len(),
            params_view(owned@) == str_params_view(params@.take(i as int)),
        decreases params@.len() - i,
    {
        let (name, value) = params[i];
        let pair = (String::from_str(name), String::from_str(value));
        let ghost before = owned@;
        owned.push(pair);
        proof {
            let t = params@.take(i as int + 1);
            assert(t =~= params@.take(i as int).push(params@[i as int]));
            assert(params_view(owned@) =~= params_view(before).push((pair.0@, pair.1@)));
            assert(str_params_view(t) =~= str_params_view(params@.take(i as int)).push(
                (params@[i as int].0@, params@[i as int].1@),
            ));
        }
        i = i + 1;
    }
    assert(params@.take(params@.len() as int) =~= params@);
    Query { url, params: owned }
}

} // verus!
