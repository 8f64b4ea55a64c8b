use vstd::prelude::*;

use crate::client::{ActionRequest, HttpMethod};
use crate::decimal::{decimal_seq, u32_string, u64_string};

verus! {

/// The path of a list call: the resource's path segment with a trailing
/// slash.
pub fn list_path(source: &str) -> (r: String)
    ensures
        r@ == source@ + "/"@,
{
    String::from_str(source).concat("/")
}

/// The path of a create call.
pub fn create_path(source: &str) -> (r: String)
    ensures
        r@ == source@ + "/create/"@,
{
    String::from_str(source).concat("/create/")
}

/// The path of a retrieve call for one item.
pub fn item_path(source: &str, id: &str) -> (r: String)
    ensures
        r@ == source@ + "/"@ + id@ + "/"@,
{
    String::from_str(source).concat("/").concat(id).concat("/")
}

/// The path of an update call for one item.
pub fn update_path(source: &str, id: &str) -> (r: String)
    ensures
        r@ == source@ + "/"@ + id@ + "/update/"@,
{
    String::from_str(source).concat("/").concat(id).concat("/update/")
}

/// The path of a delete call for one item.
pub fn delete_path(source: &str, id: &str) -> (r: String)
    ensures
        r@ == source@ + "/"@ + id@ + "/delete/"@,
{
    String::from_str(source).concat("/").concat(id).concat("/delete/")
}

/// The page number a list call asks for: the given one, or 1.
pub open spec fn spec_page_number(page: Option<u32>) -> nat {
    match page {
        Some(p) => p as nat,
        None => 1,
    }
}

/// The page size a list call asks for: the given one, or 10.
pub open spec fn spec_page_size(page_size: Option<u8>) -> nat {
    match page_size {
        Some(p) => p as nat,
        None => 10,
    }
}

/// The paging query parameters every page-paginated list call sends, with
/// their defaults applied.
pub fn page_params(page: Option<u32>, page_size: Option<u8>) -> (r: Vec<(String, String)>)
    ensures
        r@.len() == 2,
        r@[0].0@ == "page"@ && r@[0].1@ == decimal_seq(spec_page_number(page)),
        r@[1].0@ == "page_size"@ && r@[1].1@ == decimal_seq(spec_page_size(page_size)),
{
    let p: u32 = match page {
        Some(p) => p,
        None => 1,
    };
    let s: u8 = match page_size {
        Some(s) => s,
        None => 10,
    };
    let mut params: Vec<(String, String)> = Vec::new();
    params.push((String::from_str("page"), u32_string(p)));
    params.push((String::from_str("page_size"), u64_string(s as u64)));
    params
}

/// Appends a filter parameter when a value was given; otherwise leaves the
/// parameters unchanged.
pub fn push_filter(params: &mut Vec<(String, String)>, key: &str, value: Option<String>)
    ensures
        value matches Some(v) ==> {
            &&& final(params)@.len() == old(params)@.len() + 1
            &&& final(params)@.drop_last() == old(params)@
            &&& final(params)@.last().0@ == key@
            &&& final(params)@.last().1 == v
        },
        value is None ==> *final(params) == *old(params),
{
    if let Some(v) = value {
        params.push((String::from_str(key), v));
        proof {
            assert(params@.drop_last() =~= old(params)@);
        }
    }
}

/// The request a retrieve call issues: a GET against the item's path, with
/// no parameters and no body.
pub fn retrieve_request(source: &str, id: &str) -> (r: ActionRequest)
    ensures
        r.method is Get,
        r.action_path@ == source@ + "/"@ + id@ + "/"@,
        r.params@.len() == 0,
        r.body is None,
{
    ActionRequest {
        method: HttpMethod::Get,
        action_path: item_path(source, id),
        params: Vec::new(),
        body: None,
    }
}

/// The request a delete call issues: a DELETE against the item's delete
/// path, with no parameters and no body.
pub fn delete_request(source: &str, id: &str) -> (r: ActionRequest)
    ensures
        r.method is Delete,
        r.action_path@ == source@ + "/"@ + id@ + "/delete/"@,
        r.params@.len() == 0,
        r.body is None,
{
    ActionRequest {
        method: HttpMethod::Delete,
        action_path: delete_path(source, id),
        params: Vec::new(),
        body: None,
    }
}

} // verus!
