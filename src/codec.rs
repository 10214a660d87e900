//! The frame format: a route as UTF-8 text, a `CR LF` separator, then the
//! payload verbatim.
use vstd::prelude::*;
use vstd::slice::slice_to_vec;
use vstd::utf8::{decode_utf8, encode_utf8, valid_utf8};

verus! {

broadcast use vstd::utf8::group_utf8_lib;

/// Carriage return, the byte that ends the route in an encoded frame.
pub const CR: u8 = 0x0D;

/// Line feed: the first one in a frame ends the route.
pub const LF: u8 = 0x0A;

/// Why a sequence of bytes is not a frame.
#[derive(PartialEq, Eq, Structural, Debug, Clone, Copy)]
pub enum DecodeError {
    /// No line feed occurs anywhere in the bytes.
    NoTerminator,
    /// The bytes before the first line feed are not UTF-8 text.
    InvalidRoute,
}

/// A request: a route (shaped like a URI path, e.g. `/commands`) and an
/// opaque payload.
#[derive(PartialEq, Eq, Debug, Clone)]
pub struct Request {
    uri_path: String,
    payload: Vec<u8>,
}

/// The bytes of a frame that carries `route` and `payload`.
pub open spec fn frame(route: Seq<char>, payload: Seq<u8>) -> Seq<u8> {
    encode_utf8(route) + seq![CR, LF] + payload
}

/// `i` is the position of the first line feed in `b`.
pub open spec fn splits_at(b: Seq<u8>, i: int) -> bool {
    &&& 0 <= i < b.len()
    &&& b[i] == LF
    &&& forall|j: int| 0 <= j < i ==> b[j] != LF
}

/// The route's bytes of a frame whose first line feed is at `i`: what precedes
/// it, less one carriage return right before it.
pub open spec fn route_part(b: Seq<u8>, i: int) -> Seq<u8> {
    if i > 0 && b[i - 1] == CR {
        b.take(i - 1)
    } else {
        b.take(i)
    }
}

/// What a frame decodes to: its route and its payload, or why it is no frame.
pub open spec fn decoded(b: Seq<u8>) -> Result<(Seq<char>, Seq<u8>), DecodeError> {
    if !b.contains(LF) {
        Err(DecodeError::NoTerminator)
    } else {
        let i = choose|i: int| splits_at(b, i);
        let head = route_part(b, i);
        if valid_utf8(head) {
            Ok((decode_utf8(head), b.skip(i + 1)))
        } else {
            Err(DecodeError::InvalidRoute)
        }
    }
}

/// The first line feed of a sequence is at one position only.
pub proof fn lemma_split_unique(b: Seq<u8>, i: int, k: int)
    requires
        splits_at(b, i),
        splits_at(b, k),
    ensures
        i == k,
{
    if i < k {
        assert(b[i] != LF);
    } else if k < i {
        assert(b[k] != LF);
    }
}

/// Round trip: decoding the frame of a route whose text holds no line feed and
/// no carriage return byte gives back that route and the payload, whatever the
/// payload holds.
pub proof fn lemma_round_trip(route: Seq<char>, payload: Seq<u8>)
    requires
        !encode_utf8(route).contains(LF),
        !encode_utf8(route).contains(CR),
    ensures
        decoded(frame(route, payload)) == Ok::<(Seq<char>, Seq<u8>), DecodeError>((route, payload)),
{
    let text = encode_utf8(route);
    let b = frame(route, payload);
    let n = text.len() as int;
    assert forall|j: int| 0 <= j < n + 1 implies b[j] != LF by {
        if j < n {
            assert(b[j] == text[j]);
        }
    }
    assert(splits_at(b, n + 1));
    assert(b.contains(LF));
    let c = choose|k: int| splits_at(b, k);
    lemma_split_unique(b, n + 1, c);
    assert(route_part(b, n + 1) =~= text);
    assert(b.skip(n + 2) =~= payload);
}

/// Bytes with no line feed anywhere never decode: the error is always the
/// missing terminator.
pub proof fn lemma_no_terminator(b: Seq<u8>)
    requires
        !b.contains(LF),
    ensures
        decoded(b) == Err::<(Seq<char>, Seq<u8>), DecodeError>(DecodeError::NoTerminator),
{
}

/// Relies on `String::from_utf8`: it succeeds exactly on valid UTF-8, and the
/// string then holds the characters those bytes encode.
#[verifier::external_body]
fn string_from_utf8(bytes: Vec<u8>) -> (r: Option<String>)
    ensures
        r is Some <==> valid_utf8(bytes@),
        r matches Some(s) ==> s@ == decode_utf8(bytes@),
{
    String::from_utf8(bytes).ok()
}

impl Request {
    /// The route of the request.
    pub closed spec fn url_view(&self) -> Seq<char> {
        self.uri_path@
    }

    /// The payload of the request.
    pub closed spec fn payload_view(&self) -> Seq<u8> {
        self.payload@
    }

    /// A request for `uri_path` that carries `payload`.
    pub fn new(uri_path: String, payload: Vec<u8>) -> (r: Request)
        ensures
            r.url_view() == uri_path@,
            r.payload_view() == payload@,
    {
        Request { uri_path, payload }
    }

    /// The route of the request.
    pub fn url(&self) -> (r: &str)
        ensures
            r@ == self.url_view(),
    {
        self.uri_path.as_str()
    }

    /// The payload of the request.
    pub fn payload(&self) -> (r: &[u8])
        ensures
            r@ == self.payload_view(),
    {
        self.payload.as_slice()
    }

    /// The frame of this request: route bytes, `CR LF`, payload.
    pub fn encode(&self) -> (r: Vec<u8>)
        ensures
            r@ == frame(self.url_view(), self.payload_view()),
    {
        let mut bytes: Vec<u8> = Vec::new();
        bytes.extend_from_slice(self.uri_path.as_str().as_bytes());
        bytes.push(CR);
        bytes.push(LF);
        bytes.extend_from_slice(self.payload.as_slice());
        bytes
    }

    /// Reads a request from a frame. The split is made once, at the first line
    /// feed; every later byte, line feeds included, belongs to the payload.
    pub fn decode(bytes: &[u8]) -> (r: Result<Request, DecodeError>)
        ensures
            match r {
                Ok(req) => decoded(bytes@) == Ok::<(Seq<char>, Seq<u8>), DecodeError>(
                    (req.url_view(), req.payload_view()),
                ),
                Err(e) => decoded(bytes@) == Err::<(Seq<char>, Seq<u8>), DecodeError>(e),
            },
    {
        let mut i: usize = 0;
        while i < bytes.len()
            invariant
                0 <= i <= bytes@.len(),
                forall|j: int| 0 <= j < i ==> bytes@[j] != LF,
            decreases bytes@.len() - i,
        {
            if bytes[i] == LF {
                proof {
                    assert(splits_at(bytes@, i as int));
                    assert(bytes@.contains(LF));
                    let c = choose|k: int| splits_at(bytes@, k);
                    lemma_split_unique(bytes@, i as int, c);
                }
                let end: usize = if i > 0 && bytes[i - 1] == CR {
                    i - 1
                } else {
                    i
                };
                let head = slice_to_vec(&bytes[0..end]);
                assert(head@ == route_part(bytes@, i as int));
                let rest = slice_to_vec(&bytes[i + 1..bytes.len()]);
                assert(rest@ == bytes@.skip(i + 1));
                return match string_from_utf8(head) {
                    Some(route) => Ok(Request { uri_path: route, payload: rest }),
                    None => Err(DecodeError::InvalidRoute),
                };
            }
            i = i + 1;
        }
        assert(!bytes@.contains(LF));
        Err(DecodeError::NoTerminator)
    }
}

impl From<Request> for Vec<u8> {
    /// The frame of the request; see [`Request::encode`].
    fn from(request: Request) -> (r: Vec<u8>)
        ensures
            r@ == frame(request.url_view(), request.payload_view()),
    {
        request.encode()
    }
}

// `from` states its result over views in its own `ensures`; a `Vec` cannot be
// built in spec code, so no spec value of the result is offered here.
impl vstd::std_specs::convert::FromSpecImpl<Request> for Vec<u8> {
    open spec fn obeys_from_spec() -> bool {
        false
    }

    open spec fn from_spec(request: Request) -> Vec<u8> {
        arbitrary()
    }
}

impl TryFrom<Vec<u8>> for Request {
    type Error = DecodeError;

    /// Reads a request from a frame; see [`Request::decode`].
    fn try_from(bytes: Vec<u8>) -> (r: Result<Request, DecodeError>)
        ensures
            match r {
                Ok(req) => decoded(bytes@) == Ok::<(Seq<char>, Seq<u8>), DecodeError>(
                    (req.url_view(), req.payload_view()),
                ),
                Err(e) => decoded(bytes@) == Err::<(Seq<char>, Seq<u8>), DecodeError>(e),
            },
    {
        Request::decode(bytes.as_slice())
    }
}

// As for `from`: the contract of `try_from` is its own `ensures`.
impl vstd::std_specs::convert::TryFromSpecImpl<Vec<u8>> for Request {
    open spec fn obeys_try_from_spec() -> bool {
        false
    }

    open spec fn try_from_spec(bytes: Vec<u8>) -> Result<Request, DecodeError> {
        arbitrary()
    }
}

} // verus!
