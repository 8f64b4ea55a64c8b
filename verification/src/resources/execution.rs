use vstd::prelude::*;

use crate::client::{ActionRequest, HttpMethod};
use crate::facade;
use crate::json::opt_count;
use crate::pagination::CursorPaginatedResource;

verus! {

/// One execution of an agent, as the API reports it.
#[derive(Debug, Clone, PartialEq)]
pub struct Execution {
    pub id: String,
    pub agent_id: String,
    pub execution_address: String,
    pub created: String,
}

/// The decoded body of an execution list response; this resource lists
/// under cursor pagination, so no count or page number is reported.
#[derive(Debug, Clone, PartialEq)]
pub struct ExecutionList {
    pub next: Option<String>,
    pub previous: Option<String>,
    pub results: Vec<Execution>,
}

impl Execution {
    /// The resource's path segment under the API root.
    pub fn api_source() -> (r: &'static str)
        ensures
            r@ == "executions"@,
    {
        "executions"
    }

    /// The request a list call issues: a GET with exactly the filters that
    /// were given, in a fixed order.
    pub fn list_request(
        agent_id: Option<String>,
        agent_executor_job_id: Option<String>,
        agent_executor_cron_job_id: Option<String>,
    ) -> (r: ActionRequest)
        ensures
            r.method is Get,
            r.action_path@ == "executions"@ + "/"@,
            r.params@.len() == opt_count(agent_id) + opt_count(agent_executor_job_id) + opt_count(
                agent_executor_cron_job_id,
            ),
            agent_id matches Some(v) ==> (r.params@[0].0@ == "agent_id"@ && r.params@[0].1 == v),
            agent_executor_job_id matches Some(v) ==> (r.params@[opt_count(agent_id)].0@
                == "agent_executor_job_id"@ && r.params@[opt_count(agent_id)].1 == v),
            agent_executor_cron_job_id matches Some(v) ==> (r.params@[opt_count(agent_id)
                + opt_count(agent_executor_job_id)].0@ == "agent_executor_cron_job_id"@
                && r.params@[opt_count(agent_id) + opt_count(agent_executor_job_id)].1 == v),
            r.body is None,
    {
        let mut params: Vec<(String, String)> = Vec::new();
        facade::push_filter(&mut params, "agent_id", agent_id);
        facade::push_filter(&mut params, "agent_executor_job_id", agent_executor_job_id);
        facade::push_filter(&mut params, "agent_executor_cron_job_id", agent_executor_cron_job_id);
        ActionRequest {
            method: HttpMethod::Get,
            action_path: facade::list_path(Self::api_source()),
            params,
            body: None,
        }
    }

    /// Wraps a decoded list envelope as the first page of a cursor-paginated
    /// sequence carrying this resource's kind tag.
    pub fn list_page(list: ExecutionList) -> (r: CursorPaginatedResource<Execution>)
        ensures
            r.next_url == list.next,
            r.previous_url == list.previous,
            r.results == list.results,
            r.resource_class@ == "Execution"@,
    {
        CursorPaginatedResource {
            next_url: list.next,
            previous_url: list.previous,
            resource_class: String::from_str("Execution"),
            results: list.results,
        }
    }

    /// The request a retrieve call issues.
    pub fn retrieve_request(id: &str) -> (r: ActionRequest)
        ensures
            r.method is Get,
            r.action_path@ == "executions"@ + "/"@ + id@ + "/"@,
            r.params@.len() == 0,
            r.body is None,
    {
        facade::retrieve_request(Self::api_source(), id)
    }
}

} // verus!
