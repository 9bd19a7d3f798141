//! The configured topology: sources, streams, and the references between them.

use vstd::prelude::*;

verus! {

/// What a source does while no broadcaster is live.
#[derive(Clone, Copy, Debug, PartialEq, Eq, Structural)]
pub enum OfflineBehaviour {
    /// Publish nothing.
    Inactive,
    /// Publish silence in real time.
    Silence,
}

impl Default for OfflineBehaviour {
    fn default() -> (behaviour: Self)
        ensures
            behaviour == OfflineBehaviour::Inactive,
    {
        OfflineBehaviour::Inactive
    }
}

#[derive(Clone, Copy, Debug)]
pub struct SourceConfig {
    pub offline: OfflineBehaviour,
    /// Length of each published PCM batch, in milliseconds.
    pub buffer_ms: usize,
}

#[derive(Clone, Copy, Debug)]
pub struct Mp3Config {
    /// Target bitrate in kbps.
    pub bitrate: usize,
    /// Encoder quality, 0 (best) to 9 (fastest).
    pub quality: usize,
}

/// What the MP3 encoder is set to.
#[derive(Clone, Copy, Debug, PartialEq, Eq, Structural)]
pub struct Mp3Settings {
    pub quality: u8,
    pub kilobitrate: i32,
}

impl Mp3Config {
    /// The quality is one of the ten that the encoder knows, and the bitrate
    /// is a number that it can be told.
    pub open spec fn wf(&self) -> bool {
        self.quality <= 9 && self.bitrate <= i32::MAX
    }

    /// The settings for the encoder, where the values are within its range.
    pub fn settings(&self) -> (settings: Option<Mp3Settings>)
        ensures
            settings is Some <==> self.wf(),
            settings matches Some(s) ==> s.quality == self.quality && s.kilobitrate
                == self.bitrate,
    {
        if self.quality <= 9 && self.bitrate <= 0x7fff_ffff {
            Some(Mp3Settings { quality: self.quality as u8, kilobitrate: self.bitrate as i32 })
        } else {
            None
        }
    }
}

#[derive(Clone, Copy, Debug)]
pub enum CodecConfig {
    Mp3(Mp3Config),
}

#[derive(Clone, Debug)]
pub struct StreamConfig {
    /// URL path at which listeners attach.
    pub path: String,
    /// Name of the source that feeds this stream.
    pub source: String,
    pub codec: CodecConfig,
}

/// A source under its configured name.
#[derive(Clone, Debug)]
pub struct NamedSource {
    pub name: String,
    pub config: SourceConfig,
}

/// A stream under its configured name.
#[derive(Clone, Debug)]
pub struct NamedStream {
    pub name: String,
    pub config: StreamConfig,
}

/// Why a configuration was refused.
#[derive(Debug)]
pub enum Error {
    StreamRefersToInvalidSource { stream_name: String, source_name: String },
}

/// The sources and streams of one relay, in the order they were declared.
#[derive(Debug)]
pub struct Config {
    pub source: Vec<NamedSource>,
    pub stream: Vec<NamedStream>,
}

impl Config {
    /// Some source bears this name.
    pub open spec fn has_source(&self, name: Seq<char>) -> bool {
        exists|i: int| 0 <= i < self.source@.len() && #[trigger] self.source@[i].name@ == name
    }

    /// The stream at `i` names a source that exists.
    pub open spec fn stream_resolves(&self, i: int) -> bool {
        self.has_source(self.stream@[i].config.source@)
    }

    /// Every stream names a source that exists.
    pub open spec fn resolved(&self) -> bool {
        forall|i: int| 0 <= i < self.stream@.len() ==> self.stream_resolves(i)
    }

    /// Index of the first source named `name`, if there is one.
    pub fn find_source(&self, name: &str) -> (found: Option<usize>)
        ensures
            found is Some <==> self.has_source(name@),
            found matches Some(i) ==> {
                &&& i < self.source@.len()
                &&& self.source@[i as int].name@ == name@
                &&& forall|j: int| 0 <= j < i ==> self.source@[j].name@ != name@
            },
    {
        let wanted = name.to_owned();
        let mut i: usize = 0;
        while i < self.source.len()
            invariant
                i <= self.source@.len(),
                wanted@ == name@,
                forall|j: int| 0 <= j < i ==> self.source@[j].name@ != name@,
            decreases self.source@.len() - i,
        {
            if self.source[i].name == wanted {
                return Some(i);
            }
            i += 1;
        }
        None
    }

    /// Index of the first stream whose path is `path`, if there is one.
    pub fn route(&self, path: &str) -> (found: Option<usize>)
        ensures
            found is None <==> forall|j: int|
                0 <= j < self.stream@.len() ==> self.stream@[j].config.path@ != path@,
            found matches Some(i) ==> {
                &&& i < self.stream@.len()
                &&& self.stream@[i as int].config.path@ == path@
                &&& forall|j: int| 0 <= j < i ==> self.stream@[j].config.path@ != path@
            },
    {
        let wanted = path.to_owned();
        let mut i: usize = 0;
        while i < self.stream.len()
            invariant
                i <= self.stream@.len(),
                wanted@ == path@,
                forall|j: int| 0 <= j < i ==> self.stream@[j].config.path@ != path@,
            decreases self.stream@.len() - i,
        {
            if self.stream[i].config.path == wanted {
                return Some(i);
            }
            i += 1;
        }
        None
    }

    /// Checks that every stream is wired to a source that exists. The error
    /// names the first stream, in declaration order, that is not.
    pub fn validate(&self) -> (res: Result<(), Error>)
        ensures
            res is Ok <==> self.resolved(),
            res matches Err(Error::StreamRefersToInvalidSource { stream_name, source_name })
                ==> exists|i: int|
                {
                    &&& 0 <= i < self.stream@.len()
                    &&& !self.stream_resolves(i)
                    &&& forall|j: int| 0 <= j < i ==> self.stream_resolves(j)
                    &&& stream_name@ == (#[trigger] self.stream@[i]).name@
                    &&& source_name@ == self.stream@[i].config.source@
                },
    {
        let mut i: usize = 0;
        while i < self.stream.len()
            invariant
                i <= self.stream@.len(),
                forall|j: int| 0 <= j < i ==> self.stream_resolves(j),
            decreases self.stream@.len() - i,
        {
            let stream = &self.stream[i];
            if self.find_source(stream.config.source.as_str()).is_none() {
                assert(!self.stream_resolves(i as int));
                return Err(
                    Error::StreamRefersToInvalidSource {
                        stream_name: stream.name.clone(),
                        source_name: stream.config.source.clone(),
                    },
                );
            }
            i += 1;
        }
        Ok(())
    }
}

} // verus!
