use swarmnode::client::HttpMethod;
use swarmnode::json::JsonValue;
use swarmnode::resources::agent::{Agent, AgentList};
use swarmnode::resources::agent_builder_job::AgentBuilderJob;
use swarmnode::resources::agent_executor_cron_job::AgentExecutorCronJob;
use swarmnode::resources::agent_executor_job::{AgentExecutorJob, AgentExecutorJobList};
use swarmnode::resources::builds::Build;
use swarmnode::resources::execution::Execution;
use swarmnode::resources::store::Store;

fn text(s: &str) -> JsonValue {
    JsonValue::Text(s.to_string())
}

fn pair(k: &str, v: JsonValue) -> (String, JsonValue) {
    (k.to_string(), v)
}

#[test]
fn api_sources_are_the_resource_paths() {
    assert_eq!(Agent::api_source(), "agents");
    assert_eq!(AgentBuilderJob::api_source(), "agent-builder-jobs");
    assert_eq!(AgentExecutorCronJob::api_source(), "agent-executor-cron-jobs");
    assert_eq!(AgentExecutorJob::api_source(), "agent-executor-jobs");
    assert_eq!(Build::api_source(), "builds");
    assert_eq!(Execution::api_source(), "executions");
    assert_eq!(Store::api_source(), "stores");
}

#[test]
fn agent_list_request_applies_paging_defaults() {
    let r = Agent::list_request(None, None);
    assert_eq!(r.method, HttpMethod::Get);
    assert_eq!(r.action_path, "agents/");
    assert_eq!(
        r.params,
        vec![
            ("page".to_string(), "1".to_string()),
            ("page_size".to_string(), "10".to_string()),
        ]
    );
    assert!(r.body.is_none());
}

#[test]
fn agent_list_request_uses_given_paging() {
    let r = Agent::list_request(Some(3), Some(25));
    assert_eq!(
        r.params,
        vec![
            ("page".to_string(), "3".to_string()),
            ("page_size".to_string(), "25".to_string()),
        ]
    );
}

#[test]
fn store_list_request_appends_agent_filter() {
    let r = Store::list_request(Some("agent-7".to_string()), None, None);
    assert_eq!(r.action_path, "stores/");
    assert_eq!(
        r.params,
        vec![
            ("page".to_string(), "1".to_string()),
            ("page_size".to_string(), "10".to_string()),
            ("agent_id".to_string(), "agent-7".to_string()),
        ]
    );
}

#[test]
fn build_list_request_appends_job_filter() {
    let r = Build::list_request(Some("job-1".to_string()), Some(2), Some(5));
    assert_eq!(r.action_path, "builds/");
    assert_eq!(
        r.params,
        vec![
            ("page".to_string(), "2".to_string()),
            ("page_size".to_string(), "5".to_string()),
            ("agent_executor_job_id".to_string(), "job-1".to_string()),
        ]
    );
}

#[test]
fn executor_job_list_request_has_only_given_filters() {
    let none = AgentExecutorJob::list_request(None);
    assert!(none.params.is_empty());
    let some = AgentExecutorJob::list_request(Some("agent-7".to_string()));
    assert_eq!(some.params, vec![("agent_id".to_string(), "agent-7".to_string())]);
}

#[test]
fn execution_list_request_orders_filters() {
    let r = Execution::list_request(
        Some("a".to_string()),
        None,
        Some("c".to_string()),
    );
    assert_eq!(r.action_path, "executions/");
    assert_eq!(
        r.params,
        vec![
            ("agent_id".to_string(), "a".to_string()),
            ("agent_executor_cron_job_id".to_string(), "c".to_string()),
        ]
    );
}

#[test]
fn retrieve_and_delete_paths() {
    let r = Agent::retrieve_request("id-1");
    assert_eq!(r.method, HttpMethod::Get);
    assert_eq!(r.action_path, "agents/id-1/");
    let d = Agent::delete_request("id-1");
    assert_eq!(d.method, HttpMethod::Delete);
    assert_eq!(d.action_path, "agents/id-1/delete/");
    let s = Store::delete_request("id-2");
    assert_eq!(s.action_path, "stores/id-2/delete/");
}

#[test]
fn agent_create_request_with_optional_fields() {
    let r = Agent::create_request("n", "s", "3.12", "st", Some("req"), None);
    assert_eq!(r.method, HttpMethod::Post);
    assert_eq!(r.action_path, "agents/create/");
    assert_eq!(
        r.body.unwrap(),
        vec![
            pair("name", text("n")),
            pair("script", text("s")),
            pair("python_version", text("3.12")),
            pair("store_id", text("st")),
            pair("requirements", text("req")),
        ]
    );
}

#[test]
fn agent_update_request_sends_only_given_fields() {
    let r = Agent::update_request("id-1", Some("new-name"), None, None, Some("st"), None, None);
    assert_eq!(r.method, HttpMethod::Patch);
    assert_eq!(r.action_path, "agents/id-1/update/");
    assert_eq!(
        r.body.unwrap(),
        vec![pair("name", text("new-name")), pair("store_id", text("st"))]
    );
    let empty = Agent::update_request("id-1", None, None, None, None, None, None);
    assert_eq!(empty.body.unwrap(), Vec::new());
}

#[test]
fn cron_job_create_request_fields() {
    let r = AgentExecutorCronJob::create_request("agent-1", "nightly", "0 0 * * *");
    assert_eq!(r.action_path, "agent-executor-cron-jobs/create/");
    assert_eq!(
        r.body.unwrap(),
        vec![
            pair("agent_id", text("agent-1")),
            pair("name", text("nightly")),
            pair("expression", text("0 0 * * *")),
        ]
    );
}

#[test]
fn cron_job_update_request_keeps_typed_payload() {
    let payload = vec![
        pair("retries", JsonValue::Integer(3)),
        pair("enabled", JsonValue::Boolean(true)),
    ];
    let r = AgentExecutorCronJob::update_request("id-9", Some("renamed"), Some(payload));
    assert_eq!(r.action_path, "agent-executor-cron-jobs/id-9/update/");
    assert_eq!(
        r.body.unwrap(),
        vec![
            pair("name", text("renamed")),
            pair("retries", JsonValue::Integer(3)),
            pair("enabled", JsonValue::Boolean(true)),
        ]
    );
}

#[test]
fn store_update_request_keeps_typed_payload() {
    let payload = vec![pair("size", JsonValue::Integer(42))];
    let r = Store::update_request("id-3", Some(payload));
    assert_eq!(r.action_path, "stores/id-3/update/");
    assert_eq!(r.body.unwrap(), vec![pair("size", JsonValue::Integer(42))]);
    let empty = Store::update_request("id-3", None);
    assert_eq!(empty.body.unwrap(), Vec::new());
}

#[test]
fn executor_job_create_request_keeps_nested_payload() {
    let payload = JsonValue::Object(vec![
        pair("command", text("run")),
        pair("env", JsonValue::Object(vec![pair("FOO", text("BAR"))])),
    ]);
    let r = AgentExecutorJob::create_request("agent-1", Some(payload));
    assert_eq!(r.action_path, "agent-executor-jobs/create/");
    let body = r.body.unwrap();
    assert_eq!(body.len(), 2);
    assert_eq!(body[0], pair("agent_id", text("agent-1")));
    assert_eq!(body[1].0, "payload");
    match &body[1].1 {
        JsonValue::Object(fields) => {
            assert_eq!(fields[0], pair("command", text("run")));
        }
        other => panic!("expected an object payload, got {:?}", other),
    }
    let bare = AgentExecutorJob::create_request("agent-1", None);
    assert_eq!(bare.body.unwrap(), vec![pair("agent_id", text("agent-1"))]);
}

#[test]
fn list_pages_carry_each_resource_kind_tag() {
    let agents = AgentList {
        next: None,
        previous: None,
        results: vec![Agent {
            id: "1".to_string(),
            agent_id: "a".to_string(),
            execution_address: "x".to_string(),
            created: "now".to_string(),
        }],
        total_count: 1,
        current_page: 1,
    };
    let page = Agent::list_page(agents);
    assert_eq!(page.resource_class, "Agent");
    assert_eq!(page.results.len(), 1);

    let jobs = AgentExecutorJobList {
        next: Some("n".to_string()),
        previous: None,
        results: Vec::new(),
    };
    let cursor = AgentExecutorJob::list_page(jobs);
    assert_eq!(cursor.resource_class, "AgentExecutorJob");
    assert_eq!(cursor.next_url, Some("n".to_string()));
}
