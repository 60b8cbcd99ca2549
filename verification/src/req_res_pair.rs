//! A response kept together with the request it might borrow data from.

use std::sync::Arc;

use vstd::prelude::*;
use vstd::utf8::encode_utf8;

use crate::head::{
    building_goes_on, builder_body, builder_head, builder_header, builder_status,
    io_error_of, is_name, is_value, lower, new_builder, parts_head, Fault, Head,
};
use crate::response::{
    decimal, decimal_digits, into_bytes_stream, Body, BytesStream, Header, Response,
};

verus! {

/// Utility data structure for keeping a response with the request it might borrow data from.
///
/// The fields are declared in the order in which they have to be dropped.
struct Inner<M, Q, B> {
    // 'stream' borrows from 'request'
    stream: Option<BytesStream<B>>,
    // 'response' borrows from 'request'
    response: Option<Response<B>>,
    // 'request' borrows from 'rocket'
    request: Option<Q>,
    rocket: Arc<M>,
}

/// A response of bodies `B`, the request `Q` it might borrow data from, and the manifest `M`
/// that the request borrows from.
pub struct ReqResPair<M, Q, B>(Box<Inner<M, Q, B>>);

/// What a [`ReqResPair`] holds.
#[verifier::ext_equal]
pub struct PairView<M, Q, B> {
    pub rocket: M,
    pub request: Option<Q>,
    pub response: Option<Response<B>>,
    pub stream: Option<BytesStream<B>>,
}

impl<M, Q, B> View for ReqResPair<M, Q, B> {
    type V = PairView<M, Q, B>;

    closed spec fn view(&self) -> PairView<M, Q, B> {
        PairView {
            rocket: *self.0.rocket,
            request: self.0.request,
            response: self.0.response,
            stream: self.0.stream,
        }
    }
}

/// A part of a pair that is no longer held by it.
pub enum Released<Q, B> {
    Stream(BytesStream<B>),
    Response(Response<B>),
    Request(Q),
}

/// The head with all of the headers, if nothing bounded how many there may be.
pub open spec fn with_headers(head: Head, headers: Seq<Header>) -> Head
    decreases headers.len(),
{
    if headers.len() == 0 {
        head
    } else {
        with_headers(head, headers.drop_last()).with_header(
            headers.last().name@,
            encode_utf8(headers.last().value@),
        )
    }
}

/// The length that the head of a response with this body announces.
pub open spec fn content_length<B>(body: Option<Body<B>>) -> Option<nat> {
    match body {
        None => Some(0),
        Some(Body::Sized(_, size)) => Some(size as nat),
        Some(Body::Chunked(_, _)) => None,
    }
}

/// The head that goes over the wire for a response, if nothing bounded how many headers there
/// may be: its status, its headers, and the length of the body if it is known.
pub open spec fn wire_head<B>(response: Response<B>) -> Head {
    let head = with_headers(
        Head::empty().with_status(response.status.code),
        response.headers@,
    );
    match content_length(response.body) {
        Some(length) => head.with_header("content-length"@, decimal(length)),
        None => head,
    }
}

/// The stream that a body is sent from.
pub open spec fn body_stream<B>(body: Body<B>) -> BytesStream<B> {
    match body {
        Body::Chunked(inner, chunk_size) => BytesStream { inner, chunk_size: chunk_size as usize },
        Body::Sized(inner, _) => BytesStream { inner, chunk_size: 4096 },
    }
}

impl<M, Q, B> PairView<M, Q, B> {
    /// A pair that holds nothing but the manifest.
    pub open spec fn empty(rocket: M) -> PairView<M, Q, B> {
        PairView { rocket, request: None, response: None, stream: None }
    }

    /// Whatever may borrow from the request is held only while the request is.
    pub open spec fn request_outlives(self) -> bool {
        self.response is Some || self.stream is Some ==> self.request is Some
    }

    /// A request may be set.
    pub open spec fn takes_request(self) -> bool {
        self.response is None
    }

    /// The pair with a request.
    pub open spec fn with_request(self, request: Q) -> PairView<M, Q, B> {
        PairView { request: Some(request), ..self }
    }

    /// A response may be set.
    pub open spec fn takes_response(self) -> bool {
        self.request is Some && self.response is None
    }

    /// The pair with a response.
    pub open spec fn with_response(self, response: Response<B>) -> PairView<M, Q, B> {
        PairView { response: Some(response), ..self }
    }

    /// The response may go over the wire.
    pub open spec fn takes_wire(self) -> bool {
        &&& self.response is Some
        &&& self.response->0.body matches Some(Body::Chunked(_, chunk_size)) ==> chunk_size
            <= usize::MAX
    }

    /// What is sent after the head: nothing for a response without a body, else the stream of
    /// the body, in a pair whose response has no body any more.
    pub open spec fn payload(self) -> PayloadView<M, Q, B> {
        match self.response->0.body {
            None => PayloadView::Empty,
            Some(body) => PayloadView::ReqRes(
                PairView {
                    response: Some(Response { body: None, ..self.response->0 }),
                    stream: Some(body_stream(body)),
                    ..self
                },
            ),
        }
    }

    /// The part that is released next.
    pub open spec fn next_release(self) -> Option<Released<Q, B>> {
        if self.stream is Some {
            Some(Released::Stream(self.stream->0))
        } else if self.response is Some {
            Some(Released::Response(self.response->0))
        } else if self.request is Some {
            Some(Released::Request(self.request->0))
        } else {
            None
        }
    }

    /// The pair without the part that is released next.
    pub open spec fn after_release(self) -> PairView<M, Q, B> {
        if self.stream is Some {
            PairView { stream: None, ..self }
        } else if self.response is Some {
            PairView { response: None, ..self }
        } else {
            PairView { request: None, ..self }
        }
    }

    /// The number of parts that the pair holds besides the manifest.
    pub open spec fn held(self) -> nat {
        (if self.stream is Some { 1nat } else { 0 }) + (if self.response is Some { 1nat } else {
            0
        }) + (if self.request is Some { 1nat } else { 0 })
    }

    /// All that is released of the pair, in order.
    pub open spec fn releases(self) -> Seq<Released<Q, B>>
        decreases self.held(),
    {
        match self.next_release() {
            None => Seq::empty(),
            Some(part) => seq![part] + self.after_release().releases(),
        }
    }
}

/// What a [`PayloadKind`] holds.
#[verifier::ext_equal]
pub enum PayloadView<M, Q, B> {
    Empty,
    ReqRes(PairView<M, Q, B>),
}

/// What is sent after the head of a response.
pub enum PayloadKind<M, Q, B> {
    /// Nothing.
    Empty,
    /// The stream of the pair.
    ReqRes(ReqResPair<M, Q, B>),
}

impl<M, Q, B> View for PayloadKind<M, Q, B> {
    type V = PayloadView<M, Q, B>;

    open spec fn view(&self) -> PayloadView<M, Q, B> {
        match self {
            PayloadKind::Empty => PayloadView::Empty,
            PayloadKind::ReqRes(pair) => PayloadView::ReqRes(pair@),
        }
    }
}

impl<M, Q, B> PayloadView<M, Q, B> {
    /// A payload that is a pair has a stream to be sent.
    pub open spec fn has_source(self) -> bool {
        self matches PayloadView::ReqRes(pair) ==> pair.stream is Some
    }
}

/// Why a response does not go over the wire: an I/O error of no particular kind, which wraps the
/// error that building the head met, and the message that this error displays.
#[derive(Debug)]
pub struct WireError {
    pub text: String,
    pub error: std::io::Error,
}

/// Starts the head of a response: its status and its headers.
fn start_head<B>(response: &Response<B>) -> (builder: hyper::http::response::Builder)
    ensures
        ({
            let head = with_headers(
                Head::empty().with_status(response.status.code),
                response.headers@,
            );
            &&& head.headers.dom().finite()
            &&& head.fault != Some(Fault::Size)
            &&& head.is_built_as(builder_head(builder))
        }),
{
    let mut builder = builder_status(new_builder(), response.status.code);
    let ghost start = Head::empty().with_status(response.status.code);
    let mut i: usize = 0;
    while i < response.headers.len()
        invariant
            i <= response.headers.len(),
            ({
                let head = with_headers(start, response.headers@.take(i as int));
                &&& head.headers.dom().finite()
                &&& head.fault != Some(Fault::Size)
                &&& head.is_built_as(builder_head(builder))
            }),
        decreases response.headers.len() - i,
    {
        let header = &response.headers[i];
        let ghost built = builder_head(builder);
        builder = builder_header(builder, header.name.as_str(), header.value.as_str().as_bytes());
        proof {
            let done = response.headers@.take(i as int);
            let next = response.headers@.take(i + 1);
            assert(next.drop_last() =~= done);
            building_goes_on(
                with_headers(start, done),
                built,
                header.name@,
                encode_utf8(header.value@),
                builder_head(builder),
            );
        }
        i += 1;
    }
    assert(response.headers@.take(i as int) =~= response.headers@);
    builder
}

/// Announces the length of a body.
fn announce_length(
    builder: hyper::http::response::Builder,
    length: u64,
    Ghost(head): Ghost<Head>,
) -> (next: hyper::http::response::Builder)
    requires
        head.headers.dom().finite(),
        head.fault != Some(Fault::Size),
        head.is_built_as(builder_head(builder)),
    ensures
        head.with_header("content-length"@, decimal(length as nat)).is_built_as(
            builder_head(next),
        ),
{
    let digits = decimal_digits(length);
    let next = builder_header(builder, "content-length", digits.as_slice());
    proof {
        building_goes_on(
            head,
            builder_head(builder),
            "content-length"@,
            digits@,
            builder_head(next),
        );
    }
    next
}

impl<M, Q, B> ReqResPair<M, Q, B> {
    /// A pair that holds nothing but the manifest.
    pub fn new(rocket: Arc<M>) -> (pair: Self)
        ensures
            pair@ == PairView::<M, Q, B>::empty(*rocket),
    {
        ReqResPair(Box::new(Inner { stream: None, response: None, request: None, rocket }))
    }

    /// Why no request may be set now, if so.
    pub fn request_refusal(&self) -> (refusal: Option<&'static str>)
        ensures
            refusal is None <==> self@.takes_request(),
            refusal matches Some(text) ==> text@
                == "try_set_request was called after set_response"@,
    {
        if self.0.response.is_none() {
            None
        } else {
            Some("try_set_request was called after set_response")
        }
    }

    /// Sets the request to what `f` makes of the manifest. If `f` fails, so does this, and the
    /// pair stays as it was.
    pub fn try_set_request<F, E>(&mut self, f: F) -> (result: Result<(), E>) where
        F: FnOnce(&M) -> Result<Q, E>,

        requires
            old(self)@.takes_request(),
            f.requires((&old(self)@.rocket,)),
        ensures
            exists|made: Result<Q, E>| #[trigger]
                f.ensures((&old(self)@.rocket,), made) && match made {
                    Ok(request) => result is Ok && final(self)@ == old(self)@.with_request(
                        request,
                    ),
                    Err(error) => result == Err::<(), E>(error) && final(self)@ == old(self)@,
                },
    {
        let made = f(&*self.0.rocket);
        match made {
            Ok(request) => {
                self.0.request = Some(request);
                Ok(())
            },
            Err(error) => Err(error),
        }
    }

    /// Why no response may be set now, if so.
    pub fn response_refusal(&self) -> (refusal: Option<&'static str>)
        ensures
            refusal is None <==> self@.takes_response(),
            refusal matches Some(text) ==> text@ == (if self@.request is None {
                "set_response was called before try_set_request"@
            } else {
                "set_response was called twice"@
            }),
    {
        if self.0.request.is_none() {
            Some("set_response was called before try_set_request")
        } else if !self.0.response.is_none() {
            Some("set_response was called twice")
        } else {
            None
        }
    }

    /// The manifest and the request, from which the response is to be made.
    pub fn response_source(&mut self) -> (source: (&M, &mut Q))
        requires
            old(self)@.takes_response(),
        ensures
            *source.0 == old(self)@.rocket,
            *source.1 == old(self)@.request->0,
            final(self)@ == old(self)@.with_request(*final(source.1)),
    {
        let inner = &mut *self.0;
        (&*inner.rocket, inner.request.as_mut().unwrap())
    }

    /// Sets the response.
    pub fn set_response(&mut self, response: Response<B>)
        requires
            old(self)@.takes_response(),
        ensures
            final(self)@ == old(self)@.with_response(response),
    {
        self.0.response = Some(response);
    }

    /// Why the response may not go over the wire now, if so.
    pub fn wire_refusal(&self) -> (refusal: Option<&'static str>)
        ensures
            refusal is None <==> self@.takes_wire(),
            refusal matches Some(text) ==> text@ == (if self@.response is None {
                "into_hyper_response was called before set_response"@
            } else {
                "u64 -> usize overflow"@
            }),
    {
        match &self.0.response {
            None => Some("into_hyper_response was called before set_response"),
            Some(response) => match &response.body {
                Some(Body::Chunked(_, chunk_size)) => {
                    if *chunk_size > usize::MAX as u64 {
                        Some("u64 -> usize overflow")
                    } else {
                        None
                    }
                },
                _ => None,
            },
        }
    }

    /// The head of the response and what is sent after it.
    ///
    /// The head has the status and the headers of the response, and announces the length of the
    /// body where it is known. It fails if the status or a header is malformed, or if there are
    /// too many headers.
    pub fn into_hyper_response(self) -> (result: Result<
        (hyper::http::response::Parts, PayloadKind<M, Q, B>),
        WireError,
    >)
        requires
            self@.takes_wire(),
        ensures
            match result {
                Ok((parts, payload)) => {
                    &&& wire_head(self@.response->0).fault is None
                    &&& wire_head(self@.response->0).headers.dom().len() <= 24576
                    &&& parts_head(parts) == wire_head(self@.response->0)
                    &&& payload@ == self@.payload()
                    &&& payload@.has_source()
                },
                Err(error) => io_error_of(error.error) == (true, error.text@) && {
                    ||| wire_head(self@.response->0).fault matches Some(fault) && error.text@
                        == fault.text()
                    ||| !wire_head(self@.response->0).has_room() && error.text@
                        == Fault::Size.text()
                },
            },
            wire_head(self@.response->0).has_room() ==> (result is Ok <==> wire_head(
                self@.response->0,
            ).fault is None),
    {
        let mut pair = self;
        let response = pair.0.response.as_mut().unwrap();
        let ghost head = with_headers(
            Head::empty().with_status(response.status.code),
            response.headers@,
        );
        let mut builder = start_head(&*response);
        let payload;
        match response.take_body() {
            None => {
                builder = announce_length(builder, 0, Ghost(head));
                payload = PayloadKind::Empty;
            },
            Some(body) => {
                let (inner, chunk_size): (B, usize) = match body {
                    Body::Chunked(inner, chunk_size) => (inner, chunk_size as usize),
                    Body::Sized(inner, size) => {
                        builder = announce_length(builder, size, Ghost(head));
                        (inner, 4096)
                    },
                };
                pair.0.stream = Some(into_bytes_stream(inner, chunk_size));
                payload = PayloadKind::ReqRes(pair);
            },
        }
        match builder_body(builder) {
            Ok(parts) => Ok((parts, payload)),
            Err((text, error)) => Err(WireError { text, error }),
        }
    }

    /// Releases the next part of the pair: the stream first, then the response, then the
    /// request, from which both may borrow.
    pub fn release_next(&mut self) -> (part: Option<Released<Q, B>>)
        ensures
            part == old(self)@.next_release(),
            final(self)@ == old(self)@.after_release(),
    {
        if let Some(stream) = self.0.stream.take() {
            return Some(Released::Stream(stream));
        }
        if let Some(response) = self.0.response.take() {
            return Some(Released::Response(response));
        }
        if let Some(request) = self.0.request.take() {
            return Some(Released::Request(request));
        }
        None
    }
}

impl<M, Q, B> PayloadKind<M, Q, B> {
    /// Why the payload cannot be sent, if so.
    pub fn source_refusal(&self) -> (refusal: Option<&'static str>)
        ensures
            refusal is None <==> self@.has_source(),
            refusal matches Some(text) ==> text@
                == "internal invariant broken: PayloadKind.stream was None"@,
    {
        match self {
            PayloadKind::Empty => None,
            PayloadKind::ReqRes(pair) => {
                if pair.0.stream.is_some() {
                    None
                } else {
                    Some("internal invariant broken: PayloadKind.stream was None")
                }
            },
        }
    }

    /// The stream that the payload is sent from; none if there is nothing to be sent.
    pub fn source(&mut self) -> (source: Option<&mut BytesStream<B>>)
        requires
            old(self)@.has_source(),
        ensures
            match old(self)@ {
                PayloadView::Empty => source is None && final(self)@ == old(self)@,
                PayloadView::ReqRes(pair) => {
                    &&& source is Some
                    &&& *source->0 == pair.stream->0
                    &&& final(self)@ == PayloadView::ReqRes(
                        PairView { stream: Some(*final(source->0)), ..pair },
                    )
                },
            },
    {
        match self {
            PayloadKind::Empty => None,
            PayloadKind::ReqRes(pair) => pair.0.stream.as_mut(),
        }
    }
}

/// Whatever may borrow from the request is held only while the request is: that holds of a new
/// pair, and setting a request or a response, sending the response and releasing a part keep it.
pub proof fn request_outlives_its_borrowers<M, Q, B>(
    pair: PairView<M, Q, B>,
    request: Q,
    response: Response<B>,
)
    ensures
        PairView::<M, Q, B>::empty(pair.rocket).request_outlives(),
        pair.takes_request() && pair.request_outlives() ==> pair.with_request(
            request,
        ).request_outlives(),
        pair.takes_response() && pair.request_outlives() ==> pair.with_response(
            response,
        ).request_outlives(),
        pair.takes_wire() && pair.request_outlives() ==> (pair.payload() matches PayloadView::ReqRes(
            sent,
        ) ==> sent.request_outlives()),
        pair.request_outlives() ==> pair.after_release().request_outlives(),
{
}

/// The calls are made in order: a response can be set only after a request, and once, and goes
/// over the wire only after it was set; once it is set no other request is taken.
pub proof fn calls_are_made_in_order<M, Q, B>(
    pair: PairView<M, Q, B>,
    rocket: M,
    request: Q,
    response: Response<B>,
)
    ensures
        PairView::<M, Q, B>::empty(rocket).takes_request(),
        !PairView::<M, Q, B>::empty(rocket).takes_response(),
        !PairView::<M, Q, B>::empty(rocket).takes_wire(),
        pair.takes_request() ==> pair.with_request(request).takes_response(),
        !pair.with_response(response).takes_request(),
        !pair.with_response(response).takes_response(),
{
}

/// A pair releases what it holds, each part once: the stream before the response and both before
/// the request, from which they may borrow.
pub proof fn request_is_released_last<M, Q, B>(pair: PairView<M, Q, B>)
    ensures
        pair.releases().len() == pair.held(),
        forall|i: int, j: int|
            0 <= i < j < pair.releases().len() ==> !((#[trigger] pair.releases()[i]) is Request)
                && !((#[trigger] pair.releases()[j]) is Stream),
        pair.stream matches Some(stream) ==> pair.releases().contains(
            Released::<Q, B>::Stream(stream),
        ),
        pair.response matches Some(response) ==> pair.releases().contains(
            Released::<Q, B>::Response(response),
        ),
        pair.request matches Some(request) ==> pair.releases().contains(
            Released::<Q, B>::Request(request),
        ),
{
    reveal_with_fuel(PairView::releases, 4);
    let parts = pair.releases();
    let n = (if pair.stream is Some { 1int } else { 0 });
    let m = n + (if pair.response is Some { 1int } else { 0 });
    if pair.stream is Some {
        assert(parts[0] == Released::<Q, B>::Stream(pair.stream->0));
    }
    if pair.response is Some {
        assert(parts[n] == Released::<Q, B>::Response(pair.response->0));
    }
    if pair.request is Some {
        assert(parts[m] == Released::<Q, B>::Request(pair.request->0));
    }
}

/// The values that the headers give to the name `key`, in order.
pub open spec fn values_of(headers: Seq<Header>, key: Seq<char>) -> Seq<Seq<u8>>
    decreases headers.len(),
{
    if headers.len() == 0 {
        Seq::empty()
    } else if headers.last().name@.map_values(|c: char| lower(c)) == key {
        values_of(headers.drop_last(), key).push(encode_utf8(headers.last().value@))
    } else {
        values_of(headers.drop_last(), key)
    }
}

proof fn added_headers_are_kept(head: Head, headers: Seq<Header>, key: Seq<char>)
    ensures
        with_headers(head, headers).fault is None ==> head.fault is None,
        with_headers(head, headers).fault is None ==> with_headers(head, headers).status
            == head.status,
        with_headers(head, headers).fault is None ==> with_headers(head, headers).values(key)
            == head.values(key) + values_of(headers, key),
        with_headers(head, headers).headers.contains_key(key) ==> head.headers.contains_key(key)
            || with_headers(head, headers).values(key).len() > 0,
    decreases headers.len(),
{
    if headers.len() > 0 {
        added_headers_are_kept(head, headers.drop_last(), key);
    }
}

proof fn content_length_is_a_name()
    ensures
        is_name("content-length"@),
        "content-length"@.map_values(|c: char| lower(c)) == "content-length"@,
{
    reveal_strlit("content-length");
}

proof fn decimal_is_a_value(n: nat)
    ensures
        is_value(decimal(n)),
        decimal(n).len() > 0,
        forall|i: int| 0 <= i < decimal(n).len() ==> 48 <= #[trigger] decimal(n)[i] <= 57,
    decreases n,
{
    if n >= 10 {
        decimal_is_a_value(n / 10);
    }
}

/// What goes over the wire is what the response says: its status, under each name the values
/// that its headers give to it, in order, and nothing else but the length of the body, which
/// comes last under its name and is announced wherever it is known.
pub proof fn wire_head_is_the_response<B>(response: Response<B>, key: Seq<char>)
    requires
        wire_head(response).fault is None,
    ensures
        wire_head(response).status == response.status.code,
        wire_head(response).values(key) == values_of(response.headers@, key) + (
        if key == "content-length"@ && content_length(response.body) is Some {
            seq![decimal(content_length(response.body)->0)]
        } else {
            Seq::empty()
        }),
        wire_head(response).headers.contains_key(key) <==> wire_head(response).values(key).len()
            > 0,
{
    let start = Head::empty().with_status(response.status.code);
    added_headers_are_kept(start, response.headers@, key);
    content_length_is_a_name();
}

/// Each of the headers has a name and a value that may stand in a head.
pub open spec fn are_well_formed(headers: Seq<Header>) -> bool {
    forall|i: int|
        0 <= i < headers.len() ==> is_name((#[trigger] headers[i]).name@) && is_value(
            encode_utf8(headers[i].value@),
        )
}

proof fn headers_take_room(head: Head, headers: Seq<Header>)
    requires
        head.headers.dom().finite(),
    ensures
        with_headers(head, headers).headers.dom().finite(),
        with_headers(head, headers).headers.dom().len() <= head.headers.dom().len()
            + headers.len(),
        with_headers(head, headers).fault is None <==> head.fault is None && are_well_formed(
            headers,
        ),
    decreases headers.len(),
{
    if headers.len() > 0 {
        headers_take_room(head, headers.drop_last());
        assert(forall|i: int|
            0 <= i < headers.len() - 1 ==> headers.drop_last()[i] == #[trigger] headers[i]);
    }
}

/// The status of the response has three digits, and each of its headers is well-formed.
pub open spec fn is_well_formed<B>(response: Response<B>) -> bool {
    100 <= response.status.code < 1000 && are_well_formed(response.headers@)
}

/// A response goes over the wire exactly if it is well-formed: one with a status outside of
/// `100` to `999` or with a single malformed header does not. One with thousands of headers may
/// be refused all the same, but no other.
pub proof fn exactly_well_formed_responses_go_out<B>(response: Response<B>)
    ensures
        wire_head(response).fault is None <==> is_well_formed(response),
        response.headers@.len() < 6553 ==> wire_head(response).has_room(),
{
    let start = Head::empty().with_status(response.status.code);
    headers_take_room(start, response.headers@);
    content_length_is_a_name();
    if content_length(response.body) is Some {
        decimal_is_a_value(content_length(response.body)->0);
    }
}

} // verus!
