//! Attachment of listeners at the public endpoint.

use vstd::prelude::*;
use crate::audio::encode::mime_type_from_config;
use crate::config::Config;
use crate::fanout::RecvError;
use crate::server::control::Rejection;
use crate::stream::{EncodedChunk, StreamSet, StreamSubscription};

verus! {

/// A listener fell further behind than its queue reaches.
#[derive(Clone, Copy, Debug, PartialEq, Eq, Structural)]
pub struct ClientLagged;

impl ClientLagged {
    /// What is said of a listener that is cut off.
    pub fn message(&self) -> (text: &'static str)
        ensures
            text@ == "client lagged too far behind stream"@,
    {
        "client lagged too far behind stream"
    }
}

/// A listener attached to a stream: the headers of the answer, and the
/// subscription that feeds its body.
pub struct Listener {
    /// Index of the stream among the configured ones.
    pub stream: usize,
    pub content_type: &'static str,
    pub cache_control: &'static str,
    pub subscription: StreamSubscription,
}

/// No stream is served at this path.
pub open spec fn unrouted(config: &Config, path: Seq<char>) -> bool {
    forall|j: int| 0 <= j < config.stream@.len() ==> config.stream@[j].config.path@ != path
}

/// Attaches a listener to the stream that is served at `path`: the first
/// one configured with it. A path that no stream is served at is not found,
/// and neither is a stream that cannot be subscribed to.
pub fn attach(config: &Config, streams: &StreamSet, path: &str) -> (res: Result<
    Listener,
    Rejection,
>)
    ensures
        unrouted(config, path@) ==> res is Err,
        res matches Err(rejection) ==> rejection == Rejection::NotFound,
        res matches Ok(listener) ==> {
            &&& listener.stream < config.stream@.len()
            &&& config.stream@[listener.stream as int].config.path@ == path@
            &&& forall|j: int| 0 <= j < listener.stream ==> config.stream@[j].config.path@ != path@
            &&& streams.has_stream(config.stream@[listener.stream as int].name@)
            &&& listener.content_type@ == "audio/mpeg"@
            &&& listener.cache_control@ == "no-store"@
        },
{
    let stream = match config.route(path) {
        Some(stream) => stream,
        None => {
            return Err(Rejection::NotFound);
        },
    };
    let content_type = mime_type_from_config(&config.stream[stream].config.codec);
    match streams.subscribe_stream(config.stream[stream].name.as_str()) {
        Some(subscription) => Ok(
            Listener { stream, content_type, cache_control: "no-store", subscription },
        ),
        None => Err(Rejection::NotFound),
    }
}

/// The next piece of a listener's body for what its subscription gave. A
/// listener that has missed a chunk is cut off as lagging; else a chunk goes
/// out as it is, and the end of the broadcast ends the body.
pub fn body_frame(received: Result<EncodedChunk, RecvError>, missed: bool) -> (frame: Option<
    Result<EncodedChunk, ClientLagged>,
>)
    ensures
        frame == if missed {
            Some(Err::<EncodedChunk, ClientLagged>(ClientLagged))
        } else {
            match received {
                Ok(chunk) => Some(Ok::<EncodedChunk, ClientLagged>(chunk)),
                Err(RecvError::Closed) => None,
            }
        },
{
    if missed {
        return Some(Err(ClientLagged));
    }
    match received {
        Ok(chunk) => Some(Ok(chunk)),
        Err(RecvError::Closed) => None,
    }
}

impl Listener {
    /// Waits for the next piece of the body, as `body_frame` gives it for
    /// what the subscription hands out and for whether it has missed a chunk.
    pub fn next_frame(&self) -> (frame: Option<Result<EncodedChunk, ClientLagged>>) {
        let received = self.subscription.recv();
        let missed = self.subscription.take_missed();
        body_frame(received, missed)
    }
}

} // verus!
