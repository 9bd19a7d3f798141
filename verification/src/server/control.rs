//! Admission of broadcasters at the control endpoint.

use percent_encoding::percent_decode;
use vstd::prelude::*;
use vstd::string::StringSliceAdditionalSpecFns;
use vstd::utf8::{decode_utf8, valid_utf8};
use crate::source::{ConnectSourceError, SourceSet, StartSource};

verus! {

/// How a broadcaster speaks to the relay.
#[derive(Clone, Copy, Debug, PartialEq, Eq, Structural)]
pub enum SourceKind {
    /// The `SOURCE` method of older clients; the connection is upgraded.
    IcecastLegacy,
    /// A `PUT` whose body is the audio.
    Icecast24Put,
}

/// The container that a broadcaster announces.
#[derive(Clone, Copy, Debug, PartialEq, Eq, Structural)]
pub enum MediaType {
    Mp3,
    Ogg,
}

/// Why a request was turned away.
#[derive(Clone, Copy, Debug, PartialEq, Eq, Structural)]
pub enum Rejection {
    NotFound,
    MethodNotAllowed,
    Conflict,
    UnsupportedMediaType,
}

/// A request that may go on to reserve its source.
#[derive(Debug)]
pub struct SourceRequest {
    pub kind: SourceKind,
    pub media_type: MediaType,
    pub name: String,
}

/// The part of the path under which broadcasters connect.
pub open spec fn source_prefix() -> Seq<u8> {
    "/source/".spec_bytes()
}

/// The broadcaster protocol that a request method stands for.
pub open spec fn kind_of(method: Seq<u8>) -> Option<SourceKind> {
    if method == "SOURCE".spec_bytes() {
        Some(SourceKind::IcecastLegacy)
    } else if method == "PUT".spec_bytes() {
        Some(SourceKind::Icecast24Put)
    } else {
        None
    }
}

/// Index of the first `;` in `value`, or its length where there is none.
pub open spec fn parameters_at(value: Seq<u8>) -> int
    decreases value.len(),
{
    if value.len() == 0 || value[0] == 0x3b {
        0
    } else {
        1 + parameters_at(value.skip(1))
    }
}

/// A header value without its parameters: all that stands before the first `;`.
pub open spec fn essence(value: Seq<u8>) -> Seq<u8> {
    value.take(parameters_at(value))
}

/// The container that a `Content-Type` value announces.
pub open spec fn media_type_of(value: Seq<u8>) -> Option<MediaType> {
    let kind = essence(value);
    if kind == "audio/mpeg".spec_bytes() || kind == "audio/mp3".spec_bytes() {
        Some(MediaType::Mp3)
    } else if kind == "audio/ogg".spec_bytes() || kind == "application/ogg".spec_bytes() {
        Some(MediaType::Ogg)
    } else {
        None
    }
}

/// The value of a hexadecimal digit, in either case.
pub open spec fn hex_value(b: u8) -> Option<u8> {
    if 0x30 <= b <= 0x39 {
        Some((b - 0x30) as u8)
    } else if 0x41 <= b <= 0x46 {
        Some((b - 0x41 + 10) as u8)
    } else if 0x61 <= b <= 0x66 {
        Some((b - 0x61 + 10) as u8)
    } else {
        None
    }
}

/// `input` with every `%` that two hexadecimal digits follow replaced, digits
/// included, by the byte they spell. Any other `%` stays as it is.
pub open spec fn percent_decoded(input: Seq<u8>) -> Seq<u8>
    decreases input.len(),
{
    if input.len() == 0 {
        input
    } else if input[0] == 0x25 && input.len() >= 3 && hex_value(input[1]) is Some && hex_value(
        input[2],
    ) is Some {
        seq![(hex_value(input[1]).unwrap() * 16 + hex_value(input[2]).unwrap()) as u8]
            + percent_decoded(input.skip(3))
    } else {
        seq![input[0]] + percent_decoded(input.skip(1))
    }
}

/// `percent_encoding::percent_decode` followed by `PercentDecode::decode_utf8`:
/// the percent-decoded bytes as text, where they are well-formed UTF-8.
#[verifier::external_body]
fn decode_name(encoded: &[u8]) -> (name: Option<String>)
    ensures
        name is Some <==> valid_utf8(percent_decoded(encoded@)),
        name matches Some(text) ==> text@ == decode_utf8(percent_decoded(encoded@)),
{
    match percent_decode(encoded).decode_utf8() {
        Ok(text) => Some(text.into_owned()),
        Err(_) => None,
    }
}

/// What the endpoint makes of a request before it tries to reserve a source.
pub open spec fn screened(method: Seq<u8>, url: Seq<u8>, content_type: Option<Seq<u8>>) -> Result<
    (SourceKind, MediaType, Seq<char>),
    Rejection,
> {
    if !source_prefix().is_prefix_of(url) {
        Err(Rejection::NotFound)
    } else if kind_of(method) is None {
        Err(Rejection::MethodNotAllowed)
    } else if !valid_utf8(percent_decoded(url.skip(source_prefix().len() as int))) {
        Err(Rejection::NotFound)
    } else if content_type is None || media_type_of(content_type.unwrap()) is None {
        Err(Rejection::UnsupportedMediaType)
    } else {
        Ok(
            (
                kind_of(method).unwrap(),
                media_type_of(content_type.unwrap()).unwrap(),
                decode_utf8(percent_decoded(url.skip(source_prefix().len() as int))),
            ),
        )
    }
}

fn bytes_equal(a: &[u8], b: &[u8]) -> (same: bool)
    ensures
        same == (a@ == b@),
{
    if a.len() != b.len() {
        return false;
    }
    let mut i: usize = 0;
    while i < a.len()
        invariant
            a@.len() == b@.len(),
            i <= a@.len(),
            a@.take(i as int) == b@.take(i as int),
        decreases a@.len() - i,
    {
        if a[i] != b[i] {
            return false;
        }
        assert(a@.take(i + 1) =~= a@.take(i as int).push(a@[i as int]));
        assert(b@.take(i + 1) =~= b@.take(i as int).push(b@[i as int]));
        i += 1;
    }
    assert(a@.take(a@.len() as int) =~= a@);
    assert(b@.take(b@.len() as int) =~= b@);
    true
}

fn starts_with(text: &[u8], prefix: &[u8]) -> (found: bool)
    ensures
        found == prefix@.is_prefix_of(text@),
{
    if text.len() < prefix.len() {
        return false;
    }
    let mut i: usize = 0;
    while i < prefix.len()
        invariant
            prefix@.len() <= text@.len(),
            i <= prefix@.len(),
            forall|j: int| 0 <= j < i ==> text@[j] == prefix@[j],
        decreases prefix@.len() - i,
    {
        if text[i] != prefix[i] {
            assert(text@.subrange(0, prefix@.len() as int)[i as int] != prefix@[i as int]);
            return false;
        }
        i += 1;
    }
    assert(text@.subrange(0, prefix@.len() as int) =~= prefix@);
    true
}

/// Reads the broadcaster protocol off a request method.
pub fn source_kind(method: &[u8]) -> (kind: Option<SourceKind>)
    ensures
        kind == kind_of(method@),
{
    if bytes_equal(method, "SOURCE".as_bytes()) {
        Some(SourceKind::IcecastLegacy)
    } else if bytes_equal(method, "PUT".as_bytes()) {
        Some(SourceKind::Icecast24Put)
    } else {
        None
    }
}

proof fn lemma_parameters_at(value: Seq<u8>, at: int)
    requires
        0 <= at <= value.len(),
        forall|j: int| 0 <= j < at ==> value[j] != 0x3b,
        at == value.len() || value[at] == 0x3b,
    ensures
        parameters_at(value) == at,
    decreases at,
{
    if at > 0 {
        lemma_parameters_at(value.skip(1), at - 1);
    }
}

/// Reads the container off a `Content-Type` value, parameters set aside.
pub fn media_type(content_type: &[u8]) -> (media: Option<MediaType>)
    ensures
        media == media_type_of(content_type@),
{
    let mut at: usize = 0;
    while at < content_type.len() && content_type[at] != 0x3b
        invariant
            at <= content_type@.len(),
            forall|j: int| 0 <= j < at ==> content_type@[j] != 0x3b,
        decreases content_type@.len() - at,
    {
        at += 1;
    }
    proof {
        lemma_parameters_at(content_type@, at as int);
    }
    let kind = vstd::slice::slice_subrange(content_type, 0, at);
    if bytes_equal(kind, "audio/mpeg".as_bytes()) || bytes_equal(kind, "audio/mp3".as_bytes()) {
        Some(MediaType::Mp3)
    } else if bytes_equal(kind, "audio/ogg".as_bytes()) || bytes_equal(
        kind,
        "application/ogg".as_bytes(),
    ) {
        Some(MediaType::Ogg)
    } else {
        None
    }
}

/// Screens a request to the control endpoint: its path must lie under
/// `/source/`, its method must be a broadcaster's, the rest of its path must
/// spell a name, and it must announce a container that can be decoded. The
/// first of these that fails decides the answer.
pub fn screen_request(method: &[u8], url: &[u8], content_type: Option<&[u8]>) -> (res: Result<
    SourceRequest,
    Rejection,
>)
    ensures
        match screened(
            method@,
            url@,
            match content_type {
                Some(value) => Some(value@),
                None => None,
            },
        ) {
            Ok((kind, media, name)) => res matches Ok(request) && request.kind == kind
                && request.media_type == media && request.name@ == name,
            Err(rejection) => res == Err::<SourceRequest, Rejection>(rejection),
        },
{
    let prefix = "/source/".as_bytes();
    if !starts_with(url, prefix) {
        return Err(Rejection::NotFound);
    }
    let kind = match source_kind(method) {
        Some(kind) => kind,
        None => {
            return Err(Rejection::MethodNotAllowed);
        },
    };
    let encoded = vstd::slice::slice_subrange(url, prefix.len(), url.len());
    let name = match decode_name(encoded) {
        Some(name) => name,
        None => {
            return Err(Rejection::NotFound);
        },
    };
    let media = match content_type {
        Some(value) => media_type(value),
        None => None,
    };
    match media {
        Some(media_type) => Ok(SourceRequest { kind, media_type, name }),
        None => Err(Rejection::UnsupportedMediaType),
    }
}

/// The HTTP status that tells a client why it was turned away.
pub open spec fn status_of(rejection: Rejection) -> u16 {
    match rejection {
        Rejection::NotFound => 404,
        Rejection::MethodNotAllowed => 405,
        Rejection::Conflict => 409,
        Rejection::UnsupportedMediaType => 415,
    }
}

impl Rejection {
    pub fn status(&self) -> (code: u16)
        ensures
            code == status_of(*self),
    {
        match self {
            Rejection::NotFound => 404,
            Rejection::MethodNotAllowed => 405,
            Rejection::Conflict => 409,
            Rejection::UnsupportedMediaType => 415,
        }
    }

    /// The reason phrase sent as the body of the answer.
    pub fn reason(&self) -> (text: &'static str)
        ensures
            text@ == match *self {
                Rejection::NotFound => "Not found"@,
                Rejection::MethodNotAllowed => "Method not allowed"@,
                Rejection::Conflict => "Conflict"@,
                Rejection::UnsupportedMediaType => "Unsupported media type"@,
            },
    {
        match self {
            Rejection::NotFound => "Not found",
            Rejection::MethodNotAllowed => "Method not allowed",
            Rejection::Conflict => "Conflict",
            Rejection::UnsupportedMediaType => "Unsupported media type",
        }
    }
}

/// How a failed reservation is answered: an unknown source is not found, a
/// source that is live is a conflict. A worker that has left is a fault of
/// the relay itself, for which there is no answer.
pub fn connect_rejection(error: ConnectSourceError) -> (rejection: Option<Rejection>)
    ensures
        rejection == match error {
            ConnectSourceError::NoSuchSource => Some(Rejection::NotFound),
            ConnectSourceError::AlreadyConnected => Some(Rejection::Conflict),
            ConnectSourceError::WorkerGone => None,
        },
{
    match error {
        ConnectSourceError::NoSuchSource => Some(Rejection::NotFound),
        ConnectSourceError::AlreadyConnected => Some(Rejection::Conflict),
        ConnectSourceError::WorkerGone => None,
    }
}

/// Why a broadcaster was not admitted.
#[derive(Clone, Copy, Debug, PartialEq, Eq, Structural)]
pub enum Refusal {
    /// The request is answered with this rejection.
    Rejected(Rejection),
    /// The worker of the source has left.
    WorkerGone,
}

/// A broadcaster that holds the reservation of its source.
#[verifier::reject_recursive_types(D)]
pub struct Admitted<D> {
    pub request: SourceRequest,
    pub start: StartSource<D>,
}

/// Handles a request to the control endpoint up to the reservation of the
/// source: the request is screened, and the source that it names is
/// reserved before any of the body is read. A request that does not pass
/// the screen gets the screen's answer and reserves nothing. One that names
/// no source is not found. For a source that exists, the rendezvous decides
/// between admission, a conflict, and a worker that has left.
pub fn dispatch<D>(
    sources: &SourceSet<D>,
    method: &[u8],
    url: &[u8],
    content_type: Option<&[u8]>,
) -> (res: Result<Admitted<D>, Refusal>)
    ensures
        match screened(
            method@,
            url@,
            match content_type {
                Some(value) => Some(value@),
                None => None,
            },
        ) {
            Err(rejection) => res matches Err(refusal) && refusal == Refusal::Rejected(rejection),
            Ok((kind, media, name)) => if !sources.has_source(name) {
                res matches Err(refusal) && refusal == Refusal::Rejected(Rejection::NotFound)
            } else {
                match res {
                    Ok(admitted) => admitted.request.kind == kind && admitted.request.media_type
                        == media && admitted.request.name@ == name,
                    Err(refusal) => refusal == Refusal::Rejected(Rejection::Conflict) || refusal
                        == Refusal::WorkerGone,
                }
            },
        },
{
    let request = match screen_request(method, url, content_type) {
        Ok(request) => request,
        Err(rejection) => {
            return Err(Refusal::Rejected(rejection));
        },
    };
    match sources.connect_source(request.name.as_str()) {
        Ok(start) => Ok(Admitted { request, start }),
        Err(error) => match connect_rejection(error) {
            Some(rejection) => Err(Refusal::Rejected(rejection)),
            None => Err(Refusal::WorkerGone),
        },
    }
}

} // verus!
