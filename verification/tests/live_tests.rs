use swarmnode::client::SwarmNodeError;
use swarmnode::config::{set_api_key, ApiConfig};
use swarmnode::live::{
    channel_items, continuous_step, prepare_socket, single_shot_result, ChannelMode, ChannelStep,
    SocketEvent,
};

fn keyed_config() -> ApiConfig {
    let mut cfg = ApiConfig::new();
    set_api_key(&mut cfg, "test-api-key");
    cfg
}

#[test]
fn socket_plan_single_and_continuous_urls() {
    let cfg = keyed_config();
    let single = prepare_socket(&cfg, "run-42", ChannelMode::Single).unwrap();
    assert_eq!(single.url, "wss://api.swarmnode.ai/ws/v1/execution/run-42/");
    assert_eq!(
        single.headers,
        vec![("Authorization".to_string(), "Bearer test-api-key".to_string())]
    );
    let continuous = prepare_socket(&cfg, "run-42", ChannelMode::Continuous).unwrap();
    assert_eq!(continuous.url, "wss://api.swarmnode.ai/ws/v1/execution-stream/run-42/");
}

#[test]
fn socket_plan_without_key_fails_locally() {
    let cfg = ApiConfig::new();
    let r = prepare_socket(&cfg, "run-42", ChannelMode::Single);
    assert_eq!(r.unwrap_err(), SwarmNodeError::ApiKeyNotSet);
}

#[test]
fn continuous_channel_yields_frames_then_clean_close() {
    let events = vec![
        SocketEvent::Frame("a".to_string()),
        SocketEvent::Frame("b".to_string()),
        SocketEvent::Closed,
    ];
    let items = channel_items(&events);
    assert_eq!(items, vec![Ok("a".to_string()), Ok("b".to_string())]);
}

#[test]
fn continuous_channel_ends_with_error_after_failure() {
    let events = vec![
        SocketEvent::Frame("a".to_string()),
        SocketEvent::Failed("reset by peer".to_string()),
    ];
    let items = channel_items(&events);
    assert_eq!(
        items,
        vec![
            Ok("a".to_string()),
            Err(SwarmNodeError::TransportFailure("reset by peer".to_string())),
        ]
    );
}

#[test]
fn continuous_channel_ends_with_error_on_malformed_frame() {
    let events = vec![
        SocketEvent::Frame("a".to_string()),
        SocketEvent::Malformed("binary frame".to_string()),
    ];
    let items = channel_items(&events);
    assert_eq!(
        items,
        vec![
            Ok("a".to_string()),
            Err(SwarmNodeError::DecodeFailure("binary frame".to_string())),
        ]
    );
}

#[test]
fn continuous_channel_reads_nothing_after_close() {
    let events = vec![
        SocketEvent::Frame("a".to_string()),
        SocketEvent::Closed,
        SocketEvent::Frame("late".to_string()),
    ];
    let items = channel_items(&events);
    assert_eq!(items, vec![Ok("a".to_string())]);
}

#[test]
fn continuous_channel_with_no_events_yields_nothing() {
    let items = channel_items(&Vec::new());
    assert!(items.is_empty());
    let closed_at_once = channel_items(&vec![SocketEvent::Closed]);
    assert!(closed_at_once.is_empty());
}

#[test]
fn continuous_channel_reads_nothing_after_failure() {
    let events = vec![
        SocketEvent::Failed("reset".to_string()),
        SocketEvent::Frame("late".to_string()),
    ];
    let items = channel_items(&events);
    assert_eq!(
        items,
        vec![Err(SwarmNodeError::TransportFailure("reset".to_string()))]
    );
}

#[test]
fn continuous_step_decides_per_event() {
    assert_eq!(
        continuous_step(SocketEvent::Frame("a".to_string())),
        ChannelStep::Emit("a".to_string())
    );
    assert_eq!(continuous_step(SocketEvent::Closed), ChannelStep::Stop);
    assert_eq!(
        continuous_step(SocketEvent::Failed("x".to_string())),
        ChannelStep::EmitErrorAndStop(SwarmNodeError::TransportFailure("x".to_string()))
    );
    assert_eq!(
        continuous_step(SocketEvent::Malformed("x".to_string())),
        ChannelStep::EmitErrorAndStop(SwarmNodeError::DecodeFailure("x".to_string()))
    );
}

#[test]
fn single_shot_returns_the_first_frame() {
    let r = single_shot_result(SocketEvent::Frame("hello".to_string()));
    assert_eq!(r.unwrap(), "hello");
}

#[test]
fn single_shot_close_without_frame_is_an_error() {
    let r = single_shot_result(SocketEvent::Closed);
    assert_eq!(
        r.unwrap_err(),
        SwarmNodeError::TransportFailure(
            "connection closed before a frame was received".to_string()
        )
    );
}

#[test]
fn single_shot_failure_is_an_error() {
    let r = single_shot_result(SocketEvent::Failed("timed out".to_string()));
    assert_eq!(r.unwrap_err(), SwarmNodeError::TransportFailure("timed out".to_string()));
}
