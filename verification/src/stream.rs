//! The stream worker: PCM in, encoded chunks out.

use std::sync::Arc;
use vstd::prelude::*;
use crate::audio::encode::Codec;
use crate::audio::PcmData;
use crate::config::{NamedStream, StreamConfig};
use crate::fanout::{live_channel_with, LivePublisher, LiveReceiver, LiveSubscriber};
use crate::source::SourceSet;

verus! {

/// Chunks that a listener may fall behind before it starts to miss some.
pub const BUFFER_SIZE: usize = 8;

/// A run of encoded bytes, shared by all who receive it.
pub type EncodedChunk = Arc<Vec<u8>>;

/// A listener's subscription to a stream.
pub type StreamSubscription = LiveReceiver<EncodedChunk>;

/// The ends of one stream that the endpoints hold.
pub struct StreamOutput {
    name: String,
    output: LiveSubscriber<EncodedChunk>,
}

impl StreamOutput {
    /// Subscriptions to a stream's chunks have queues of `BUFFER_SIZE` slots.
    #[verifier::type_invariant]
    spec fn queue_of_some(self) -> bool {
        self.output.capacity() == BUFFER_SIZE
    }
}

/// The ends of one stream that its worker holds.
pub struct StreamThreadContext {
    pub name: String,
    pub config: StreamConfig,
    pub input: LiveReceiver<Arc<PcmData>>,
    pub output: LivePublisher<EncodedChunk>,
}

/// All configured streams, by name.
pub struct StreamSet {
    stream_outputs: Vec<StreamOutput>,
}

/// What a worker does with the bytes that the encoder gave for one frame:
/// an empty run means the encoder is still filling up, and is not published.
pub fn chunk_to_publish(encoded: Vec<u8>) -> (chunk: Option<EncodedChunk>)
    ensures
        chunk is Some <==> encoded@.len() > 0,
        chunk matches Some(bytes) ==> bytes@ == encoded@,
{
    if encoded.len() == 0 {
        None
    } else {
        Some(Arc::new(encoded))
    }
}

impl StreamThreadContext {
    /// Waits for one frame of PCM, encodes it and publishes what came of it.
    /// Tells whether there is more to come: the source has gone when not.
    pub fn step<C: Codec>(&self, codec: &mut C) -> (more: bool) {
        match self.input.recv() {
            Ok(pcm) => {
                let encoded = codec.encode(&pcm);
                match chunk_to_publish(encoded) {
                    Some(chunk) => self.output.publish(chunk),
                    None => {},
                }
                true
            },
            Err(_) => false,
        }
    }
}

impl StreamSet {
    /// The names of the streams, in order.
    pub closed spec fn names(&self) -> Seq<Seq<char>> {
        self.stream_outputs@.map_values(|s: StreamOutput| s.name@)
    }

    /// Some stream bears this name.
    pub open spec fn has_stream(&self, name: Seq<char>) -> bool {
        self.names().contains(name)
    }

    /// Sets up the channels of every configured stream and subscribes each
    /// to its source. The set is for the endpoints; each context is for the
    /// worker of one stream, which is yet to be started, and carries the
    /// stream's name and configuration and a subscription with a queue of
    /// one slot. Nothing is made where a stream cannot be subscribed to its
    /// source: where its source is not in the set, or has lost its worker.
    /// Without streams there is nothing to subscribe, and the empty set is
    /// made.
    pub fn new<D>(config: &Vec<NamedStream>, source_set: &SourceSet<D>) -> (made: Option<
        (StreamSet, Vec<StreamThreadContext>),
    >)
        ensures
            (exists|i: int|
                0 <= i < config@.len() && !source_set.has_source(
                    (#[trigger] config@[i]).config.source@,
                )) ==> made is None,
            config@.len() == 0 ==> made is Some,
            made matches Some((set, workers)) ==> {
                &&& set.names() == config@.map_values(|s: NamedStream| s.name@)
                &&& workers@.len() == config@.len()
                &&& forall|i: int|
                    0 <= i < config@.len() ==> {
                        &&& (#[trigger] workers@[i]).name@ == config@[i].name@
                        &&& workers@[i].config == config@[i].config
                        &&& workers@[i].input.capacity() == crate::fanout::BUFFER_SIZE
                    }
            },
    {
        let mut outputs: Vec<StreamOutput> = Vec::new();
        let mut workers: Vec<StreamThreadContext> = Vec::new();
        let mut i: usize = 0;
        while i < config.len()
            invariant
                i <= config@.len(),
                outputs@.len() == i,
                workers@.len() == i,
                forall|j: int| 0 <= j < i ==> source_set.has_source(config@[j].config.source@),
                forall|j: int| 0 <= j < i ==> (#[trigger] outputs@[j]).name@ == config@[j].name@,
                forall|j: int|
                    0 <= j < i ==> {
                        &&& (#[trigger] workers@[j]).name@ == config@[j].name@
                        &&& workers@[j].config == config@[j].config
                        &&& workers@[j].input.capacity() == crate::fanout::BUFFER_SIZE
                    },
            decreases config@.len() - i,
        {
            let input = match source_set.source_stream(config[i].config.source.as_str()) {
                Some(input) => input,
                None => {
                    return None;
                },
            };
            let (publisher, subscriber) = live_channel_with(BUFFER_SIZE);
            workers.push(
                StreamThreadContext {
                    name: config[i].name.clone(),
                    config: StreamConfig {
                        path: config[i].config.path.clone(),
                        source: config[i].config.source.clone(),
                        codec: config[i].config.codec,
                    },
                    input,
                    output: publisher,
                },
            );
            outputs.push(StreamOutput { name: config[i].name.clone(), output: subscriber });
            i += 1;
        }
        let set = StreamSet { stream_outputs: outputs };
        assert(set.names() =~= config@.map_values(|s: NamedStream| s.name@));
        Some((set, workers))
    }

    /// A new subscription to the encoded bytes of a stream, with a queue
    /// of `BUFFER_SIZE` slots; none for an unknown name or a stream whose
    /// worker has left.
    pub fn subscribe_stream(&self, name: &str) -> (stream: Option<StreamSubscription>)
        ensures
            !self.has_stream(name@) ==> stream is None,
            stream matches Some(receiver) ==> receiver.capacity() == BUFFER_SIZE,
    {
        let wanted = name.to_owned();
        let mut i: usize = 0;
        while i < self.stream_outputs.len()
            invariant
                i <= self.stream_outputs@.len(),
                wanted@ == name@,
                forall|j: int| 0 <= j < i ==> self.names()[j] != name@,
            decreases self.stream_outputs@.len() - i,
        {
            if self.stream_outputs[i].name == wanted {
                assert(self.names()[i as int] == name@);
                let found = &self.stream_outputs[i];
                proof {
                    use_type_invariant(found);
                }
                return match found.output.subscribe() {
                    Ok(rx) => Some(rx),
                    Err(_) => None,
                };
            }
            i += 1;
        }
        None
    }
}

} // verus!
