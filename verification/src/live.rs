use vstd::prelude::*;

use crate::client::{headers_are_bearer, SwarmClient, SwarmNodeError};
use crate::config::ApiConfig;

verus! {

/// How a live channel is consumed: a single frame, or a lazy unbounded
/// sequence of frames.
#[derive(Debug, Clone, Copy, PartialEq, Eq)]
pub enum ChannelMode {
    Single,
    Continuous,
}

/// The path segment that selects the endpoint for the mode.
pub open spec fn spec_socket_segment(mode: ChannelMode) -> Seq<char> {
    match mode {
        ChannelMode::Single => "execution"@,
        ChannelMode::Continuous => "execution-stream"@,
    }
}

fn socket_segment(mode: &ChannelMode) -> (r: &'static str)
    ensures
        r@ == spec_socket_segment(*mode),
{
    match mode {
        ChannelMode::Single => "execution",
        ChannelMode::Continuous => "execution-stream",
    }
}

/// One planned socket handshake: the address to connect to and the
/// credential header to present.
#[derive(Debug, Clone)]
pub struct SocketRequest {
    pub url: String,
    pub headers: Vec<(String, String)>,
}

/// Plans the socket handshake for watching the execution at `address`.
/// Fails with `ApiKeyNotSet`, before any connection attempt, iff no
/// credential is configured.
pub fn prepare_socket(config: &ApiConfig, address: &str, mode: ChannelMode) -> (r: Result<
    SocketRequest,
    SwarmNodeError,
>)
    ensures
        config.has_credential() <==> r is Ok,
        r matches Err(e) ==> e is ApiKeyNotSet,
        r matches Ok(req) ==> {
            &&& req.url@ == "wss://"@ + config.api_base@ + "/ws/v1/"@ + spec_socket_segment(mode)
                + "/"@ + address@ + "/"@
            &&& headers_are_bearer(req.headers@, *config)
        },
{
    let headers = SwarmClient::get_ws_headers(config)?;
    let url = String::from_str("wss://").concat(config.api_base.as_str()).concat(
        "/ws/v1/",
    ).concat(socket_segment(&mode)).concat("/").concat(address).concat("/");
    Ok(SocketRequest { url, headers })
}

/// One thing the underlying connection can deliver while a channel is read.
#[derive(Debug, Clone, PartialEq)]
pub enum SocketEvent {
    /// A text frame arrived.
    Frame(String),
    /// A frame arrived that does not decode as text.
    Malformed(String),
    /// The connection failed; carries the underlying error text.
    Failed(String),
    /// The remote closed the connection cleanly.
    Closed,
}

/// What a continuous channel does with one delivered event.
#[derive(Debug, Clone, PartialEq)]
pub enum ChannelStep {
    /// Hand the frame to the consumer and keep reading.
    Emit(String),
    /// Hand the consumer this error element and end the sequence.
    EmitErrorAndStop(SwarmNodeError),
    /// End the sequence cleanly.
    Stop,
}

/// The step a continuous channel takes on `event`: a text frame is yielded
/// and reading goes on; a clean close ends the sequence; a frame that is not
/// text, or a connection failure, ends it with an error element.
pub open spec fn spec_continuous_step(event: SocketEvent) -> ChannelStep {
    match event {
        SocketEvent::Frame(s) => ChannelStep::Emit(s),
        SocketEvent::Malformed(d) => ChannelStep::EmitErrorAndStop(SwarmNodeError::DecodeFailure(d)),
        SocketEvent::Failed(d) => ChannelStep::EmitErrorAndStop(SwarmNodeError::TransportFailure(d)),
        SocketEvent::Closed => ChannelStep::Stop,
    }
}

/// Decides what a continuous channel does with one delivered event.
pub fn continuous_step(event: SocketEvent) -> (r: ChannelStep)
    ensures
        r == spec_continuous_step(event),
{
    match event {
        SocketEvent::Frame(s) => ChannelStep::Emit(s),
        SocketEvent::Malformed(d) => ChannelStep::EmitErrorAndStop(SwarmNodeError::DecodeFailure(d)),
        SocketEvent::Failed(d) => ChannelStep::EmitErrorAndStop(SwarmNodeError::TransportFailure(d)),
        SocketEvent::Closed => ChannelStep::Stop,
    }
}

/// Everything a continuous channel yields, given the events the connection
/// delivers in order: each pulled element corresponds to exactly one event,
/// stepping as `spec_continuous_step` says, and nothing after the first
/// close or failure is read.
pub open spec fn channel_emissions(events: Seq<SocketEvent>) -> Seq<
    Result<String, SwarmNodeError>,
>
    decreases events.len(),
{
    if events.len() == 0 {
        Seq::empty()
    } else {
        match spec_continuous_step(events[0]) {
            ChannelStep::Emit(s) => seq![Ok(s)] + channel_emissions(events.drop_first()),
            ChannelStep::EmitErrorAndStop(e) => seq![Err(e)],
            ChannelStep::Stop => Seq::empty(),
        }
    }
}

/// Replays a finished connection: the elements a continuous channel yields,
/// in order, for the events the connection delivered.
pub fn channel_items(events: &Vec<SocketEvent>) -> (out: Vec<Result<String, SwarmNodeError>>)
    ensures
        out@ == channel_emissions(events@),
{
    let ghost all = events@;
    let mut out: Vec<Result<String, SwarmNodeError>> = Vec::new();
    let mut i: usize = 0;
    proof {
        assert(all.skip(0) =~= all);
        assert(out@ + channel_emissions(all) =~= channel_emissions(all));
    }
    loop
        invariant_except_break
            i <= all.len(),
            events@ == all,
            channel_emissions(all) == out@ + channel_emissions(all.skip(i as int)),
        ensures
            out@ == channel_emissions(all),
            events@ == all,
        decreases all.len() - i,
    {
        if i == events.len() {
            proof {
                assert(all.skip(i as int) =~= Seq::empty());
                assert(out@ + channel_emissions(all.skip(i as int)) =~= out@);
            }
            break;
        }
        proof {
            assert(all.skip(i as int).len() > 0);
            assert(all.skip(i as int)[0] == all[i as int]);
            assert(all.skip(i as int).drop_first() =~= all.skip(i as int + 1));
        }
        match &events[i] {
            SocketEvent::Frame(s) => {
                out.push(Ok(s.clone()));
                proof {
                    assert(channel_emissions(all) == out@ + channel_emissions(
                        all.skip(i as int + 1),
                    )) by {
                        assert(channel_emissions(all.skip(i as int)) == seq![
                            Ok::<String, SwarmNodeError>(all[i as int]->Frame_0),
                        ] + channel_emissions(all.skip(i as int + 1)));
                        assert(out@ + channel_emissions(all.skip(i as int + 1)) =~= out@.drop_last()
                            + channel_emissions(all.skip(i as int)));
                    }
                }
            },
            SocketEvent::Malformed(d) => {
                out.push(Err(SwarmNodeError::DecodeFailure(d.clone())));
                proof {
                    assert(out@ =~= out@.drop_last() + channel_emissions(all.skip(i as int)));
                }
                break;
            },
            SocketEvent::Failed(d) => {
                out.push(Err(SwarmNodeError::TransportFailure(d.clone())));
                proof {
                    assert(out@ =~= out@.drop_last() + channel_emissions(all.skip(i as int)));
                }
                break;
            },
            SocketEvent::Closed => {
                proof {
                    assert(out@ + channel_emissions(all.skip(i as int)) =~= out@);
                }
                break;
            },
        }
        i = i + 1;
    }
    out
}

/// What a single-shot channel returns for the first thing the connection
/// delivers: the frame if one arrived; an error — never an empty success —
/// when the remote closed without sending a frame, when the frame is not
/// text, or when the connection failed.
pub fn single_shot_result(event: SocketEvent) -> (r: Result<String, SwarmNodeError>)
    ensures
        event matches SocketEvent::Frame(s) ==> (r matches Ok(t) && t == s),
        event matches SocketEvent::Malformed(d) ==> (r matches Err(e) && (
        e matches SwarmNodeError::DecodeFailure(m) && m == d)),
        event matches SocketEvent::Failed(d) ==> (r matches Err(e) && (
        e matches SwarmNodeError::TransportFailure(m) && m == d)),
        event is Closed ==> (r matches Err(e) && (e matches SwarmNodeError::TransportFailure(m)
            && m@ == "connection closed before a frame was received"@)),
{
    match event {
        SocketEvent::Frame(s) => Ok(s),
        SocketEvent::Malformed(d) => Err(SwarmNodeError::DecodeFailure(d)),
        SocketEvent::Failed(d) => Err(SwarmNodeError::TransportFailure(d)),
        SocketEvent::Closed => Err(
            SwarmNodeError::TransportFailure(
                String::from_str("connection closed before a frame was received"),
            ),
        ),
    }
}

/// An error element ends the sequence: whenever a continuous channel yields
/// an error, it is the last element the channel ever yields.
pub proof fn lemma_error_element_is_terminal(events: Seq<SocketEvent>, i: int)
    requires
        0 <= i < channel_emissions(events).len(),
        channel_emissions(events)[i] is Err,
    ensures
        i == channel_emissions(events).len() - 1,
    decreases events.len(),
{
    if events.len() > 0 {
        match spec_continuous_step(events[0]) {
            ChannelStep::Emit(s) => {
                assert(channel_emissions(events)[0] == Ok::<String, SwarmNodeError>(s));
                lemma_error_element_is_terminal(events.drop_first(), i - 1);
            },
            ChannelStep::EmitErrorAndStop(e) => {},
            ChannelStep::Stop => {},
        }
    }
}

/// A channel yields the frames delivered before the terminal events exactly,
/// in order: the emissions for frames followed by anything else are those
/// frames, each a success element, followed by the emissions for the rest.
pub proof fn lemma_emissions_of_frames(frames: Seq<String>, tail: Seq<SocketEvent>)
    ensures
        channel_emissions(frames.map_values(|s: String| SocketEvent::Frame(s)) + tail)
            == frames.map_values(|s: String| Ok::<String, SwarmNodeError>(s)) + channel_emissions(
            tail,
        ),
    decreases frames.len(),
{
    let mapped = frames.map_values(|s: String| SocketEvent::Frame(s));
    let oks = frames.map_values(|s: String| Ok::<String, SwarmNodeError>(s));
    if frames.len() == 0 {
        assert(mapped + tail =~= tail);
        assert(oks + channel_emissions(tail) =~= channel_emissions(tail));
    } else {
        let rest = frames.drop_first();
        lemma_emissions_of_frames(rest, tail);
        let rest_mapped = rest.map_values(|s: String| SocketEvent::Frame(s));
        let rest_oks = rest.map_values(|s: String| Ok::<String, SwarmNodeError>(s));
        assert((mapped + tail)[0] == SocketEvent::Frame(frames[0]));
        assert((mapped + tail).drop_first() =~= rest_mapped + tail);
        assert(channel_emissions(mapped + tail) == seq![
            Ok::<String, SwarmNodeError>(frames[0]),
        ] + (rest_oks + channel_emissions(tail)));
        assert(oks + channel_emissions(tail) =~= seq![Ok::<String, SwarmNodeError>(frames[0])] + (
        rest_oks + channel_emissions(tail)));
    }
}

/// A connection that delivers its frames and then closes cleanly yields
/// exactly those frames, in order, each as a success element, and then
/// terminates without an error element.
pub proof fn lemma_clean_close_yields_frames(frames: Seq<String>)
    ensures
        channel_emissions(
            frames.map_values(|s: String| SocketEvent::Frame(s)).push(SocketEvent::Closed),
        ) == frames.map_values(|s: String| Ok::<String, SwarmNodeError>(s)),
{
    let mapped = frames.map_values(|s: String| SocketEvent::Frame(s));
    let tail = seq![SocketEvent::Closed];
    assert(mapped.push(SocketEvent::Closed) =~= mapped + tail);
    lemma_emissions_of_frames(frames, tail);
    assert(channel_emissions(tail) =~= Seq::empty());
    assert(frames.map_values(|s: String| Ok::<String, SwarmNodeError>(s)) + Seq::empty()
        =~= frames.map_values(|s: String| Ok::<String, SwarmNodeError>(s)));
}

/// A connection that fails after delivering its frames yields exactly those
/// frames, in order, and then one error element carrying the failure.
pub proof fn lemma_failure_after_frames(frames: Seq<String>, detail: String)
    ensures
        channel_emissions(
            frames.map_values(|s: String| SocketEvent::Frame(s)).push(SocketEvent::Failed(detail)),
        ) == frames.map_values(|s: String| Ok::<String, SwarmNodeError>(s)).push(
            Err(SwarmNodeError::TransportFailure(detail)),
        ),
{
    let mapped = frames.map_values(|s: String| SocketEvent::Frame(s));
    let tail = seq![SocketEvent::Failed(detail)];
    assert(mapped.push(SocketEvent::Failed(detail)) =~= mapped + tail);
    lemma_emissions_of_frames(frames, tail);
    assert(channel_emissions(tail) =~= seq![
        Err::<String, SwarmNodeError>(SwarmNodeError::TransportFailure(detail)),
    ]);
    assert(frames.map_values(|s: String| Ok::<String, SwarmNodeError>(s)) + channel_emissions(tail)
        =~= frames.map_values(|s: String| Ok::<String, SwarmNodeError>(s)).push(
        Err(SwarmNodeError::TransportFailure(detail)),
    ));
}

} // verus!
