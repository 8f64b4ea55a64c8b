use vstd::prelude::*;

use crate::client::{ActionRequest, HttpMethod};
use crate::decimal::decimal_seq;
use crate::facade;
use crate::json::{field_is_text, opt_count, push_opt_text_field, push_text_field, JsonValue};
use crate::pagination::PagePaginatedResource;

verus! {

/// One scheduled executor job, as the API reports it.
#[derive(Debug, Clone, PartialEq)]
pub struct AgentExecutorCronJob {
    pub id: String,
    pub agent_id: String,
    pub execution_address: String,
    pub created: String,
}

/// The decoded body of a cron-job list response.
#[derive(Debug, Clone, PartialEq)]
pub struct AgentExecutorCronJobList {
    pub next: Option<String>,
    pub previous: Option<String>,
    pub results: Vec<AgentExecutorCronJob>,
    pub total_count: u32,
    pub current_page: u32,
}

impl AgentExecutorCronJob {
    /// The resource's path segment under the API root.
    pub fn api_source() -> (r: &'static str)
        ensures
            r@ == "agent-executor-cron-jobs"@,
    {
        "agent-executor-cron-jobs"
    }

    /// The request a list call issues: a GET with the paging parameters and
    /// the agent filter when one was given.
    pub fn list_request(agent_id: Option<String>, page: Option<u32>, page_size: Option<u8>) -> (r:
        ActionRequest)
        ensures
            r.method is Get,
            r.action_path@ == "agent-executor-cron-jobs"@ + "/"@,
            r.params@.len() == 2 + opt_count(agent_id),
            r.params@[0].0@ == "page"@ && r.params@[0].1@ == decimal_seq(
                facade::spec_page_number(page),
            ),
            r.params@[1].0@ == "page_size"@ && r.params@[1].1@ == decimal_seq(
                facade::spec_page_size(page_size),
            ),
            agent_id matches Some(v) ==> (r.params@[2].0@ == "agent_id"@ && r.params@[2].1 == v),
            r.body is None,
    {
        let mut params = facade::page_params(page, page_size);
        facade::push_filter(&mut params, "agent_id", agent_id);
        ActionRequest {
            method: HttpMethod::Get,
            action_path: facade::list_path(Self::api_source()),
            params,
            body: None,
        }
    }

    /// Wraps a decoded list envelope as the first page of a paginated
    /// sequence carrying this resource's kind tag.
    pub fn list_page(list: AgentExecutorCronJobList) -> (r: PagePaginatedResource<
        AgentExecutorCronJob,
    >)
        ensures
            r.next_url == list.next,
            r.previous_url == list.previous,
            r.results == list.results,
            r.total_count == list.total_count,
            r.current_page == list.current_page,
            r.resource_class@ == "AgentExecutorCronJob"@,
    {
        PagePaginatedResource {
            next_url: list.next,
            previous_url: list.previous,
            resource_class: String::from_str("AgentExecutorCronJob"),
            total_count: list.total_count,
            current_page: list.current_page,
            results: list.results,
        }
    }

    /// The request a retrieve call issues.
    pub fn retrieve_request(id: &str) -> (r: ActionRequest)
        ensures
            r.method is Get,
            r.action_path@ == "agent-executor-cron-jobs"@ + "/"@ + id@ + "/"@,
            r.params@.len() == 0,
            r.body is None,
    {
        facade::retrieve_request(Self::api_source(), id)
    }

    /// The request a create call issues: the agent, the job's name and its
    /// schedule expression.
    pub fn create_request(agent_id: &str, name: &str, expression: &str) -> (r: ActionRequest)
        ensures
            r.method is Post,
            r.action_path@ == "agent-executor-cron-jobs"@ + "/create/"@,
            r.params@.len() == 0,
            r.body matches Some(b) ==> {
                &&& b@.len() == 3
                &&& field_is_text(b@[0], "agent_id"@, agent_id@)
                &&& field_is_text(b@[1], "name"@, name@)
                &&& field_is_text(b@[2], "expression"@, expression@)
            },
            r.body is Some,
    {
        let mut data: Vec<(String, JsonValue)> = Vec::new();
        push_text_field(&mut data, "agent_id", agent_id);
        push_text_field(&mut data, "name", name);
        push_text_field(&mut data, "expression", expression);
        ActionRequest {
            method: HttpMethod::Post,
            action_path: facade::create_path(Self::api_source()),
            params: Vec::new(),
            body: Some(data),
        }
    }

    /// The request an update call issues: the new name when one was given,
    /// followed by the given payload fields unchanged, each with its typed
    /// value.
    pub fn update_request(
        id: &str,
        name: Option<&str>,
        payload: Option<Vec<(String, JsonValue)>>,
    ) -> (r: ActionRequest)
        ensures
            r.method is Patch,
            r.action_path@ == "agent-executor-cron-jobs"@ + "/"@ + id@ + "/update/"@,
            r.params@.len() == 0,
            r.body matches Some(b) ==> {
                &&& b@.len() == opt_count(name) + (match payload {
                    Some(p) => p@.len() as int,
                    None => 0int,
                })
                &&& (name matches Some(v) ==> field_is_text(b@[0], "name"@, v@))
                &&& (payload matches Some(p) ==> b@.skip(opt_count(name)) == p@)
            },
            r.body is Some,
    {
        let mut data: Vec<(String, JsonValue)> = Vec::new();
        push_opt_text_field(&mut data, "name", name);
        let ghost k = data@.len() as int;
        if let Some(mut p) = payload {
            let ghost pv = p@;
            data.append(&mut p);
            proof {
                assert(data@.skip(k) =~= pv);
            }
        }
        ActionRequest {
            method: HttpMethod::Patch,
            action_path: facade::update_path(Self::api_source(), id),
            params: Vec::new(),
            body: Some(data),
        }
    }

    /// The request a delete call issues.
    pub fn delete_request(id: &str) -> (r: ActionRequest)
        ensures
            r.method is Delete,
            r.action_path@ == "agent-executor-cron-jobs"@ + "/"@ + id@ + "/delete/"@,
            r.params@.len() == 0,
            r.body is None,
    {
        facade::delete_request(Self::api_source(), id)
    }
}

} // verus!
