//! What goes over the wire for a response that was set.

use vstd::prelude::*;
use vstd::utf8::encode_utf8;

use crate::head::{io_error_of, is_name, is_value, lower, parts_head, Fault, Head};
use crate::laws::response::{decimal_reads_back, is_decimal, number};
use crate::req_res_pair::{
    exactly_well_formed_responses_go_out, values_of, wire_head, wire_head_is_the_response,
    with_headers, PayloadKind, Released, ReqResPair, WireError,
};
use crate::response::{decimal, Body, BytesStream, Header, Response};

verus! {

/// The status on the wire is the status of the response that was set.
pub proof fn status_goes_out<M, Q, B>(
    pair: &mut ReqResPair<M, Q, B>,
    response: Response<B>,
    sent: Result<(hyper::http::response::Parts, PayloadKind<M, Q, B>), WireError>,
)
    requires
        call_ensures(ReqResPair::<M, Q, B>::set_response, (pair, response), ()),
        call_ensures(ReqResPair::<M, Q, B>::into_hyper_response, (*final(pair),), sent),
    ensures
        sent matches Ok((parts, _)) ==> parts_head(parts).status == response.status.code,
{
    if sent is Ok {
        wire_head_is_the_response(response, Seq::empty());
    }
}

/// The values that the headers give to the name `key`, which is in lower case, in order.
pub open spec fn given_values(headers: Seq<Header>, key: Seq<char>) -> Seq<Seq<u8>> {
    headers.filter(|h: Header| h.name@.map_values(|c: char| lower(c)) == key).map_values(
        |h: Header| encode_utf8(h.value@),
    )
}

proof fn given_values_are_kept(headers: Seq<Header>, key: Seq<char>)
    ensures
        given_values(headers, key) == values_of(headers, key),
    decreases headers.len(),
{
    reveal(Seq::filter);
    if headers.len() > 0 {
        given_values_are_kept(headers.drop_last(), key);
    }
    assert(given_values(headers, key) =~= values_of(headers, key));
}

/// Under each name but `content-length`, the head that goes out has the values that the
/// response's own headers give to that name, in order, and no others; a name to which they give
/// none does not stand in it.
pub proof fn headers_go_out<M, Q, B>(
    pair: &mut ReqResPair<M, Q, B>,
    response: Response<B>,
    sent: Result<(hyper::http::response::Parts, PayloadKind<M, Q, B>), WireError>,
    key: Seq<char>,
)
    requires
        call_ensures(ReqResPair::<M, Q, B>::set_response, (pair, response), ()),
        call_ensures(ReqResPair::<M, Q, B>::into_hyper_response, (*final(pair),), sent),
        key != "content-length"@,
    ensures
        sent matches Ok((parts, _)) ==> {
            let own = given_values(response.headers@, key);
            let headers = parts_head(parts).headers;
            if own.len() == 0 {
                !headers.contains_key(key)
            } else {
                headers.contains_key(key) && headers[key] == own
            }
        },
{
    if sent is Ok {
        wire_head_is_the_response(response, key);
        given_values_are_kept(response.headers@, key);
    }
}

/// For a chunked body, whatever the size of its chunks, the head that goes out has no
/// `content-length` besides those that the response's own headers give. For a sized body it
/// gains exactly one, which comes last and reads as the body's size; for no body exactly one,
/// which reads as zero.
pub proof fn known_lengths_go_out<M, Q, B>(
    pair: &mut ReqResPair<M, Q, B>,
    response: Response<B>,
    sent: Result<(hyper::http::response::Parts, PayloadKind<M, Q, B>), WireError>,
)
    requires
        call_ensures(ReqResPair::<M, Q, B>::set_response, (pair, response), ()),
        call_ensures(ReqResPair::<M, Q, B>::into_hyper_response, (*final(pair),), sent),
    ensures
        sent matches Ok((parts, _)) ==> {
            let own = given_values(response.headers@, "content-length"@);
            let headers = parts_head(parts).headers;
            match response.body {
                Some(Body::Chunked(_, _)) => {
                    &&& headers.contains_key("content-length"@) <==> own.len() > 0
                    &&& own.len() > 0 ==> headers["content-length"@] == own
                },
                Some(Body::Sized(_, size)) => {
                    &&& headers.contains_key("content-length"@)
                    &&& headers["content-length"@].drop_last() == own
                    &&& is_decimal(headers["content-length"@].last())
                    &&& number(headers["content-length"@].last()) == size
                },
                None => {
                    &&& headers.contains_key("content-length"@)
                    &&& headers["content-length"@].drop_last() == own
                    &&& headers["content-length"@].last() == seq![48u8]
                },
            }
        },
{
    if sent is Ok {
        let own = given_values(response.headers@, "content-length"@);
        wire_head_is_the_response(response, "content-length"@);
        given_values_are_kept(response.headers@, "content-length"@);
        match response.body {
            Some(Body::Chunked(_, _)) => {
                assert(own + Seq::empty() =~= own);
            },
            Some(Body::Sized(_, size)) => {
                decimal_reads_back(size as nat);
                assert((own + seq![decimal(size as nat)]).drop_last() =~= own);
            },
            None => {
                assert((own + seq![decimal(0)]).drop_last() =~= own);
                assert(decimal(0) =~= seq![48u8]);
            },
        }
    }
}

/// What is sent after the head reads from exactly the body of the response that was set, whatever
/// its status and its headers: nothing is sent only for a response without a body. A chunked body
/// is read in chunks of the size it asks for, and a sized one in chunks of `4096` bytes.
pub proof fn bodies_go_out<M, Q, B>(
    pair: &mut ReqResPair<M, Q, B>,
    response: Response<B>,
    sent: Result<(hyper::http::response::Parts, PayloadKind<M, Q, B>), WireError>,
    payload: &mut PayloadKind<M, Q, B>,
    refusal: Option<&'static str>,
    source: Option<&mut BytesStream<B>>,
)
    requires
        response.body matches Some(Body::Chunked(_, chunk_size)) ==> chunk_size <= usize::MAX,
        call_ensures(ReqResPair::<M, Q, B>::set_response, (pair, response), ()),
        call_ensures(ReqResPair::<M, Q, B>::into_hyper_response, (*final(pair),), sent),
        sent matches Ok((_, sent_payload)) && *payload == sent_payload,
        call_ensures(PayloadKind::<M, Q, B>::source_refusal, (&*payload,), refusal),
        call_ensures(PayloadKind::<M, Q, B>::source, (payload,), source),
    ensures
        sent->Ok_0.1 is Empty <==> response.body is None,
        refusal is None,
        call_requires(PayloadKind::<M, Q, B>::source, (payload,)),
        match response.body {
            None => source is None,
            Some(Body::Chunked(inner, chunk_size)) => {
                &&& source is Some
                &&& source->0.inner == inner
                &&& source->0.chunk_size == chunk_size
            },
            Some(Body::Sized(inner, _)) => {
                &&& source is Some
                &&& source->0.inner == inner
                &&& source->0.chunk_size == 4096
            },
        },
{
}

/// What is read from the stream of a payload is gone from it: whoever asks for the stream again
/// gets it as it was left.
pub proof fn streams_go_on<M, Q, B>(
    payload: &mut PayloadKind<M, Q, B>,
    source: Option<&mut BytesStream<B>>,
    later: &mut PayloadKind<M, Q, B>,
    again: Option<&mut BytesStream<B>>,
)
    requires
        call_ensures(PayloadKind::<M, Q, B>::source, (payload,), source),
        *later == *final(payload),
        call_ensures(PayloadKind::<M, Q, B>::source, (later,), again),
    ensures
        again is Some <==> source is Some,
        source is Some ==> *old(again->0) == *final(source->0),
        *old(payload) is Empty <==> *final(payload) is Empty,
        source is None <==> *old(payload) is Empty,
{
}

/// A payload that is not refused can be read from. An empty one never is; a pair is, exactly if
/// it has no stream to be released.
pub proof fn payloads_without_a_stream_are_refused<M, Q, B>(
    payload: &mut PayloadKind<M, Q, B>,
    refusal: Option<&'static str>,
    pair: &mut ReqResPair<M, Q, B>,
    part: Option<Released<Q, B>>,
)
    requires
        call_ensures(PayloadKind::<M, Q, B>::source_refusal, (&*payload,), refusal),
        *payload matches PayloadKind::ReqRes(held) ==> *pair == held,
        call_ensures(ReqResPair::<M, Q, B>::release_next, (pair,), part),
    ensures
        refusal is None ==> call_requires(PayloadKind::<M, Q, B>::source, (payload,)),
        *old(payload) is Empty ==> refusal is None,
        *old(payload) is ReqRes ==> (refusal is None <==> part matches Some(Released::Stream(_))),
        refusal matches Some(text) ==> text@
            == "internal invariant broken: PayloadKind.stream was None"@,
{
}

/// The header may stand in a head.
pub open spec fn may_stand(header: Header) -> bool {
    is_name(header.name@) && is_value(encode_utf8(header.value@))
}

proof fn first_fault_is_kept(head: Head, headers: Seq<Header>, i: int)
    requires
        0 <= i < headers.len(),
        forall|j: int| 0 <= j < i ==> may_stand(#[trigger] headers[j]),
        !may_stand(headers[i]),
        head.fault is None,
    ensures
        with_headers(head, headers).fault == Some(
            if is_name(headers[i].name@) {
                Fault::Value
            } else {
                Fault::Name
            },
        ),
    decreases headers.len(),
{
    let before = headers.drop_last();
    assert(forall|j: int| 0 <= j < before.len() ==> #[trigger] before[j] == headers[j]);
    if i < headers.len() - 1 {
        first_fault_is_kept(head, before, i);
    } else {
        no_fault_is_met(head, before);
    }
}

proof fn no_fault_is_met(head: Head, headers: Seq<Header>)
    requires
        forall|j: int| 0 <= j < headers.len() ==> may_stand(#[trigger] headers[j]),
        head.fault is None,
    ensures
        with_headers(head, headers).fault is None,
    decreases headers.len(),
{
    if headers.len() > 0 {
        let before = headers.drop_last();
        assert(forall|j: int| 0 <= j < before.len() ==> #[trigger] before[j] == headers[j]);
        no_fault_is_met(head, before);
    }
}

proof fn faulty_head_stays(head: Head, headers: Seq<Header>)
    requires
        head.fault is Some,
    ensures
        with_headers(head, headers) == head,
    decreases headers.len(),
{
    if headers.len() > 0 {
        faulty_head_stays(head, headers.drop_last());
    }
}

/// A response that was set goes out if its status has three digits, each of its headers may stand
/// in a head, and there are not thousands of them.
pub proof fn well_formed_responses_go_out<M, Q, B>(
    pair: &mut ReqResPair<M, Q, B>,
    response: Response<B>,
    sent: Result<(hyper::http::response::Parts, PayloadKind<M, Q, B>), WireError>,
)
    requires
        call_ensures(ReqResPair::<M, Q, B>::set_response, (pair, response), ()),
        call_ensures(ReqResPair::<M, Q, B>::into_hyper_response, (*final(pair),), sent),
        100 <= response.status.code <= 999,
        forall|i: int| 0 <= i < response.headers@.len() ==> may_stand(
            #[trigger] response.headers@[i],
        ),
    ensures
        response.headers@.len() < 6553 ==> sent is Ok,
        sent matches Err(error) ==> error.text@ == "max size reached"@ && io_error_of(error.error)
            == (true, "max size reached"@),
{
    exactly_well_formed_responses_go_out(response);
}

/// A response with a status of other than three digits does not go out, whatever else it holds,
/// and the error says so.
pub proof fn malformed_status_is_refused<M, Q, B>(
    pair: &mut ReqResPair<M, Q, B>,
    response: Response<B>,
    sent: Result<(hyper::http::response::Parts, PayloadKind<M, Q, B>), WireError>,
)
    requires
        call_ensures(ReqResPair::<M, Q, B>::set_response, (pair, response), ()),
        call_ensures(ReqResPair::<M, Q, B>::into_hyper_response, (*final(pair),), sent),
        response.status.code < 100 || 999 < response.status.code,
    ensures
        sent matches Err(error) && error.text@ == "invalid status code"@ && io_error_of(error.error)
            == (true, "invalid status code"@),
{
    let start = Head::empty().with_status(response.status.code);
    faulty_head_stays(start, response.headers@);
}

/// A response with a header that may not stand in a head does not go out, and the error says what
/// was wrong with the first such header: its name, or else its value. Only a response with
/// thousands of headers before it may be refused for their number instead.
pub proof fn malformed_header_is_refused<M, Q, B>(
    pair: &mut ReqResPair<M, Q, B>,
    response: Response<B>,
    sent: Result<(hyper::http::response::Parts, PayloadKind<M, Q, B>), WireError>,
    i: int,
)
    requires
        call_ensures(ReqResPair::<M, Q, B>::set_response, (pair, response), ()),
        call_ensures(ReqResPair::<M, Q, B>::into_hyper_response, (*final(pair),), sent),
        100 <= response.status.code <= 999,
        0 <= i < response.headers@.len(),
        forall|j: int| 0 <= j < i ==> may_stand(#[trigger] response.headers@[j]),
        !may_stand(response.headers@[i]),
    ensures
        sent matches Err(error) && io_error_of(error.error) == (true, error.text@) && {
            ||| error.text@ == (if is_name(response.headers@[i].name@) {
                "failed to parse header value"@
            } else {
                "invalid HTTP header name"@
            })
            ||| response.headers@.len() >= 6553 && error.text@ == "max size reached"@
        },
{
    let start = Head::empty().with_status(response.status.code);
    first_fault_is_kept(start, response.headers@, i);
    exactly_well_formed_responses_go_out(response);
}

} // verus!
