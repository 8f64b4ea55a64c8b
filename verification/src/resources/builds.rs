use vstd::prelude::*;

use crate::client::{ActionRequest, HttpMethod};
use crate::decimal::decimal_seq;
use crate::facade;
use crate::json::opt_count;
use crate::pagination::PagePaginatedResource;

verus! {

/// One build of an agent, as the API reports it.
#[derive(Debug, Clone, PartialEq)]
pub struct Build {
    pub id: String,
    pub agent_id: String,
    pub build_address: String,
    pub created: String,
}

/// The decoded body of a build list response.
#[derive(Debug, Clone, PartialEq)]
pub struct BuildList {
    pub next: Option<String>,
    pub previous: Option<String>,
    pub results: Vec<Build>,
    pub total_count: u32,
    pub current_page: u32,
}

impl Build {
    /// The resource's path segment under the API root.
    pub fn api_source() -> (r: &'static str)
        ensures
            r@ == "builds"@,
    {
        "builds"
    }

    /// The request a list call issues: a GET with the paging parameters and
    /// the job filter when one was given.
    pub fn list_request(
        agent_executor_job_id: Option<String>,
        page: Option<u32>,
        page_size: Option<u8>,
    ) -> (r: ActionRequest)
        ensures
            r.method is Get,
            r.action_path@ == "builds"@ + "/"@,
            r.params@.len() == 2 + opt_count(agent_executor_job_id),
            r.params@[0].0@ == "page"@ && r.params@[0].1@ == decimal_seq(
                facade::spec_page_number(page),
            ),
            r.params@[1].0@ == "page_size"@ && r.params@[1].1@ == decimal_seq(
                facade::spec_page_size(page_size),
            ),
            agent_executor_job_id matches Some(v) ==> (r.params@[2].0@ == "agent_executor_job_id"@
                && r.params@[2].1 == v),
            r.body is None,
    {
        let mut params = facade::page_params(page, page_size);
        facade::push_filter(&mut params, "agent_executor_job_id", agent_executor_job_id);
        ActionRequest {
            method: HttpMethod::Get,
            action_path: facade::list_path(Self::api_source()),
            params,
            body: None,
        }
    }

    /// Wraps a decoded list envelope as the first page of a paginated
    /// sequence carrying this resource's kind tag.
    pub fn list_page(list: BuildList) -> (r: PagePaginatedResource<Build>)
        ensures
            r.next_url == list.next,
            r.previous_url == list.previous,
            r.results == list.results,
            r.total_count == list.total_count,
            r.current_page == list.current_page,
            r.resource_class@ == "Build"@,
    {
        PagePaginatedResource {
            next_url: list.next,
            previous_url: list.previous,
            resource_class: String::from_str("Build"),
            total_count: list.total_count,
            current_page: list.current_page,
            results: list.results,
        }
    }

    /// The request a retrieve call issues.
    pub fn retrieve_request(id: &str) -> (r: ActionRequest)
        ensures
            r.method is Get,
            r.action_path@ == "builds"@ + "/"@ + id@ + "/"@,
            r.params@.len() == 0,
            r.body is None,
    {
        facade::retrieve_request(Self::api_source(), id)
    }
}

} // verus!
