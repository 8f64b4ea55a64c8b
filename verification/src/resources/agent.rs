use vstd::prelude::*;

use crate::client::{ActionRequest, HttpMethod};
use crate::decimal::decimal_seq;
use crate::facade;
use crate::json::{field_is_text, opt_count, push_opt_text_field, push_text_field, JsonValue};
use crate::pagination::PagePaginatedResource;

verus! {

/// One deployed agent, as the API reports it.
#[derive(Debug, Clone, PartialEq)]
pub struct Agent {
    pub id: String,
    pub agent_id: String,
    pub execution_address: String,
    pub created: String,
}

/// The decoded body of an agent list response.
#[derive(Debug, Clone, PartialEq)]
pub struct AgentList {
    pub next: Option<String>,
    pub previous: Option<String>,
    pub results: Vec<Agent>,
    pub total_count: u32,
    pub current_page: u32,
}

impl Agent {
    /// The resource's path segment under the API root.
    pub fn api_source() -> (r: &'static str)
        ensures
            r@ == "agents"@,
    {
        "agents"
    }

    /// The request a list call issues: a GET against the resource's path
    /// with the paging parameters.
    pub fn list_request(page: Option<u32>, page_size: Option<u8>) -> (r: ActionRequest)
        ensures
            r.method is Get,
            r.action_path@ == "agents"@ + "/"@,
            r.params@.len() == 2,
            r.params@[0].0@ == "page"@ && r.params@[0].1@ == decimal_seq(
                facade::spec_page_number(page),
            ),
            r.params@[1].0@ == "page_size"@ && r.params@[1].1@ == decimal_seq(
                facade::spec_page_size(page_size),
            ),
            r.body is None,
    {
        ActionRequest {
            method: HttpMethod::Get,
            action_path: facade::list_path(Self::api_source()),
            params: facade::page_params(page, page_size),
            body: None,
        }
    }

    /// Wraps a decoded list envelope as the first page of a paginated
    /// sequence carrying this resource's kind tag.
    pub fn list_page(list: AgentList) -> (r: PagePaginatedResource<Agent>)
        ensures
            r.next_url == list.next,
            r.previous_url == list.previous,
            r.results == list.results,
            r.total_count == list.total_count,
            r.current_page == list.current_page,
            r.resource_class@ == "Agent"@,
    {
        PagePaginatedResource {
            next_url: list.next,
            previous_url: list.previous,
            resource_class: String::from_str("Agent"),
            total_count: list.total_count,
            current_page: list.current_page,
            results: list.results,
        }
    }

    /// The request a retrieve call issues.
    pub fn retrieve_request(id: &str) -> (r: ActionRequest)
        ensures
            r.method is Get,
            r.action_path@ == "agents"@ + "/"@ + id@ + "/"@,
            r.params@.len() == 0,
            r.body is None,
    {
        facade::retrieve_request(Self::api_source(), id)
    }

    /// The request a create call issues: the required fields, then the
    /// optional ones that were given, in a fixed order.
    pub fn create_request(
        name: &str,
        script: &str,
        python_version: &str,
        store_id: &str,
        requirements: Option<&str>,
        env_vars: Option<&str>,
    ) -> (r: ActionRequest)
        ensures
            r.method is Post,
            r.action_path@ == "agents"@ + "/create/"@,
            r.params@.len() == 0,
            r.body matches Some(b) ==> {
                &&& b@.len() == 4 + opt_count(requirements) + opt_count(env_vars)
                &&& field_is_text(b@[0], "name"@, name@)
                &&& field_is_text(b@[1], "script"@, script@)
                &&& field_is_text(b@[2], "python_version"@, python_version@)
                &&& field_is_text(b@[3], "store_id"@, store_id@)
                &&& (requirements matches Some(q) ==> field_is_text(b@[4], "requirements"@, q@))
                &&& (env_vars matches Some(v) ==> field_is_text(
                    b@[4 + opt_count(requirements)],
                    "env_vars"@,
                    v@,
                ))
            },
            r.body is Some,
    {
        let mut data: Vec<(String, JsonValue)> = Vec::new();
        push_text_field(&mut data, "name", name);
        push_text_field(&mut data, "script", script);
        push_text_field(&mut data, "python_version", python_version);
        push_text_field(&mut data, "store_id", store_id);
        push_opt_text_field(&mut data, "requirements", requirements);
        push_opt_text_field(&mut data, "env_vars", env_vars);
        ActionRequest {
            method: HttpMethod::Post,
            action_path: facade::create_path(Self::api_source()),
            params: Vec::new(),
            body: Some(data),
        }
    }

    /// The request an update call issues: exactly the fields that were
    /// given, in a fixed order.
    pub fn update_request(
        id: &str,
        name: Option<&str>,
        script: Option<&str>,
        python_version: Option<&str>,
        store_id: Option<&str>,
        requirements: Option<&str>,
        env_vars: Option<&str>,
    ) -> (r: ActionRequest)
        ensures
            r.method is Patch,
            r.action_path@ == "agents"@ + "/"@ + id@ + "/update/"@,
            r.params@.len() == 0,
            r.body matches Some(b) ==> {
                &&& b@.len() == opt_count(name) + opt_count(script) + opt_count(python_version)
                    + opt_count(store_id) + opt_count(requirements) + opt_count(env_vars)
                &&& (name matches Some(v) ==> field_is_text(b@[0], "name"@, v@))
                &&& (script matches Some(v) ==> field_is_text(b@[opt_count(name)], "script"@, v@))
                &&& (python_version matches Some(v) ==> field_is_text(
                    b@[opt_count(name) + opt_count(script)],
                    "python_version"@,
                    v@,
                ))
                &&& (store_id matches Some(v) ==> field_is_text(
                    b@[opt_count(name) + opt_count(script) + opt_count(python_version)],
                    "store_id"@,
                    v@,
                ))
                &&& (requirements matches Some(v) ==> field_is_text(
                    b@[opt_count(name) + opt_count(script) + opt_count(python_version) + opt_count(
                        store_id,
                    )],
                    "requirements"@,
                    v@,
                ))
                &&& (env_vars matches Some(v) ==> field_is_text(
                    b@[opt_count(name) + opt_count(script) + opt_count(python_version) + opt_count(
                        store_id,
                    ) + opt_count(requirements)],
                    "env_vars"@,
                    v@,
                ))
            },
            r.body is Some,
    {
        let mut data: Vec<(String, JsonValue)> = Vec::new();
        push_opt_text_field(&mut data, "name", name);
        push_opt_text_field(&mut data, "script", script);
        push_opt_text_field(&mut data, "python_version", python_version);
        push_opt_text_field(&mut data, "store_id", store_id);
        push_opt_text_field(&mut data, "requirements", requirements);
        push_opt_text_field(&mut data, "env_vars", env_vars);
        ActionRequest {
            method: HttpMethod::Patch,
            action_path: facade::update_path(Self::api_source(), id),
            params: Vec::new(),
            body: Some(data),
        }
    }

    /// The request a delete call issues.
    pub fn delete_request(id: &str) -> (r: ActionRequest)
        ensures
            r.method is Delete,
            r.action_path@ == "agents"@ + "/"@ + id@ + "/delete/"@,
            r.params@.len() == 0,
            r.body is None,
    {
        facade::delete_request(Self::api_source(), id)
    }
}

} // verus!
