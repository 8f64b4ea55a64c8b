use vstd::prelude::*;

use crate::client::{ActionRequest, HttpMethod};
use crate::facade;
use crate::json::{field_is_text, opt_count, push_text_field, JsonValue};
use crate::pagination::CursorPaginatedResource;

verus! {

/// One executor job, as the API reports it.
#[derive(Debug, Clone, PartialEq)]
pub struct AgentExecutorJob {
    pub id: String,
    pub agent_id: String,
    pub execution_address: String,
    pub created: String,
}

/// The decoded body of an executor-job list response; this resource lists
/// under cursor pagination, so no count or page number is reported.
#[derive(Debug, Clone, PartialEq)]
pub struct AgentExecutorJobList {
    pub next: Option<String>,
    pub previous: Option<String>,
    pub results: Vec<AgentExecutorJob>,
}

impl AgentExecutorJob {
    /// The resource's path segment under the API root.
    pub fn api_source() -> (r: &'static str)
        ensures
            r@ == "agent-executor-jobs"@,
    {
        "agent-executor-jobs"
    }

    /// The request a list call issues: a GET with the agent filter when one
    /// was given.
    pub fn list_request(agent_id: Option<String>) -> (r: ActionRequest)
        ensures
            r.method is Get,
            r.action_path@ == "agent-executor-jobs"@ + "/"@,
            r.params@.len() == opt_count(agent_id),
            agent_id matches Some(v) ==> (r.params@[0].0@ == "agent_id"@ && r.params@[0].1 == v),
            r.body is None,
    {
        let mut params: Vec<(String, String)> = Vec::new();
        facade::push_filter(&mut params, "agent_id", agent_id);
        ActionRequest {
            method: HttpMethod::Get,
            action_path: facade::list_path(Self::api_source()),
            params,
            body: None,
        }
    }

    /// Wraps a decoded list envelope as the first page of a cursor-paginated
    /// sequence carrying this resource's kind tag.
    pub fn list_page(list: AgentExecutorJobList) -> (r: CursorPaginatedResource<AgentExecutorJob>)
        ensures
            r.next_url == list.next,
            r.previous_url == list.previous,
            r.results == list.results,
            r.resource_class@ == "AgentExecutorJob"@,
    {
        CursorPaginatedResource {
            next_url: list.next,
            previous_url: list.previous,
            resource_class: String::from_str("AgentExecutorJob"),
            results: list.results,
        }
    }

    /// The request a retrieve call issues.
    pub fn retrieve_request(id: &str) -> (r: ActionRequest)
        ensures
            r.method is Get,
            r.action_path@ == "agent-executor-jobs"@ + "/"@ + id@ + "/"@,
            r.params@.len() == 0,
            r.body is None,
    {
        facade::retrieve_request(Self::api_source(), id)
    }

    /// The request a create call issues: the agent to run on and, when one
    /// was given, the job's payload as a typed value.
    pub fn create_request(agent_id: &str, payload: Option<JsonValue>) -> (r: ActionRequest)
        ensures
            r.method is Post,
            r.action_path@ == "agent-executor-jobs"@ + "/create/"@,
            r.params@.len() == 0,
            r.body matches Some(b) ==> {
                &&& b@.len() == 1 + opt_count(payload)
                &&& field_is_text(b@[0], "agent_id"@, agent_id@)
                &&& (payload matches Some(p) ==> b@[1].0@ == "payload"@ && b@[1].1 == p)
            },
            r.body is Some,
    {
        let mut data: Vec<(String, JsonValue)> = Vec::new();
        push_text_field(&mut data, "agent_id", agent_id);
        if let Some(p) = payload {
            data.push((String::from_str("payload"), p));
        }
        ActionRequest {
            method: HttpMethod::Post,
            action_path: facade::create_path(Self::api_source()),
            params: Vec::new(),
            body: Some(data),
        }
    }
}

} // verus!
