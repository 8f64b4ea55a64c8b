use swarmnode::pagination::{
    page_envelope_from_fields, CursorEnvelope, CursorPaginatedResource, PageEnvelope,
    PagePaginatedResource,
};
use swarmnode::resources::builds::{Build, BuildList};

fn build(n: u32) -> Build {
    Build {
        id: format!("build-{}", n),
        agent_id: "agent-1".to_string(),
        build_address: format!("addr-{}", n),
        created: "2024-01-01".to_string(),
    }
}

fn ten_builds() -> Vec<Build> {
    (0..10).map(build).collect()
}

#[test]
fn next_request_absent_reference_returns_nothing() {
    let page: PagePaginatedResource<Build> = PagePaginatedResource {
        next_url: None,
        previous_url: Some("https://api.swarmnode.ai/v1/builds/?page=1".to_string()),
        resource_class: "Build".to_string(),
        total_count: 11,
        current_page: 2,
        results: vec![build(10)],
    };
    assert_eq!(page.next_request(), None);
    assert!(page.previous_request().is_some());
}

#[test]
fn cursor_next_request_absent_reference_returns_nothing() {
    let page: CursorPaginatedResource<Build> = CursorPaginatedResource {
        next_url: None,
        previous_url: None,
        resource_class: "Build".to_string(),
        results: Vec::new(),
    };
    assert_eq!(page.next_request(), None);
    assert_eq!(page.previous_request(), None);
}

#[test]
fn first_page_of_builds_end_to_end() {
    let list = BuildList {
        next: Some("https://api.swarmnode.ai/v1/builds/?page=2".to_string()),
        previous: None,
        results: ten_builds(),
        total_count: 25,
        current_page: 1,
    };
    let page1 = Build::list_page(list);
    assert_eq!(page1.current_page, 1);
    assert_eq!(page1.results.len(), 10);
    assert_eq!(page1.resource_class, "Build");
    assert_eq!(
        page1.next_request(),
        Some("https://api.swarmnode.ai/v1/builds/?page=2".to_string())
    );

    let envelope2: PageEnvelope<Build> = PageEnvelope {
        next: Some("https://api.swarmnode.ai/v1/builds/?page=3".to_string()),
        previous: Some("https://api.swarmnode.ai/v1/builds/?page=1".to_string()),
        results: ten_builds(),
        total_count: 25,
        current_page: 2,
    };
    let page2 = page1.follow(envelope2);
    assert_eq!(page2.current_page, 2);
    assert_eq!(page2.resource_class, "Build");
}

#[test]
fn next_then_previous_returns_to_starting_page() {
    let page1: PagePaginatedResource<Build> = PagePaginatedResource {
        next_url: Some("https://api.swarmnode.ai/v1/builds/?page=2".to_string()),
        previous_url: None,
        resource_class: "Build".to_string(),
        total_count: 25,
        current_page: 1,
        results: ten_builds(),
    };
    let forward: PageEnvelope<Build> = PageEnvelope {
        next: Some("https://api.swarmnode.ai/v1/builds/?page=3".to_string()),
        previous: Some("https://api.swarmnode.ai/v1/builds/?page=1".to_string()),
        results: ten_builds(),
        total_count: 25,
        current_page: 2,
    };
    let back: PageEnvelope<Build> = PageEnvelope {
        next: Some("https://api.swarmnode.ai/v1/builds/?page=2".to_string()),
        previous: None,
        results: ten_builds(),
        total_count: 25,
        current_page: 1,
    };
    let page2 = page1.follow(forward);
    assert!(page2.previous_request().is_some());
    let round_trip = page2.follow(back);
    assert_eq!(round_trip.current_page, page1.current_page);
    assert_eq!(round_trip.resource_class, page1.resource_class);
}

#[test]
fn cursor_follow_keeps_kind_tag() {
    let page: CursorPaginatedResource<Build> = CursorPaginatedResource {
        next_url: Some("https://api.swarmnode.ai/v1/builds/?cursor=abc".to_string()),
        previous_url: None,
        resource_class: "Build".to_string(),
        results: vec![build(1)],
    };
    let env: CursorEnvelope<Build> = CursorEnvelope {
        next: None,
        previous: Some("https://api.swarmnode.ai/v1/builds/?cursor=xyz".to_string()),
        results: vec![build(2), build(3)],
    };
    let next = page.follow(env);
    assert_eq!(next.resource_class, "Build");
    assert_eq!(next.results.len(), 2);
    assert_eq!(next.next_url, None);
}

#[test]
fn envelope_fields_default_and_truncate() {
    let e: PageEnvelope<Build> = page_envelope_from_fields(
        Some("n".to_string()),
        None,
        Some(25),
        Some(2),
        Vec::new(),
    );
    assert_eq!(e.total_count, 25);
    assert_eq!(e.current_page, 2);
    assert_eq!(e.next, Some("n".to_string()));
    assert_eq!(e.previous, None);

    let defaulted: PageEnvelope<Build> =
        page_envelope_from_fields(None, None, None, None, Vec::new());
    assert_eq!(defaulted.total_count, 0);
    assert_eq!(defaulted.current_page, 0);

    let oversized: PageEnvelope<Build> =
        page_envelope_from_fields(None, None, Some((1u64 << 32) + 5), None, Vec::new());
    assert_eq!(oversized.total_count, 5);
}

#[test]
fn describe_names_kind_and_counts() {
    let page: PagePaginatedResource<Build> = PagePaginatedResource {
        next_url: None,
        previous_url: None,
        resource_class: "Build".to_string(),
        total_count: 25,
        current_page: 1,
        results: ten_builds(),
    };
    assert_eq!(
        page.describe(),
        "PagePaginatedResource(resource_class=Build, total_count=25, current_page=1, results=10)"
    );
    let cursor: CursorPaginatedResource<Build> = CursorPaginatedResource {
        next_url: None,
        previous_url: None,
        resource_class: "Build".to_string(),
        results: vec![build(1)],
    };
    assert_eq!(
        cursor.describe(),
        "CursorPaginatedResource(resource_class=Build, results=1)"
    );
}
