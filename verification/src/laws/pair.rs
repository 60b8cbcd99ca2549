//! The life of a pair of a request and its response.

use std::sync::Arc;

use vstd::prelude::*;

use crate::req_res_pair::{PayloadKind, Released, ReqResPair, WireError};
use crate::response::{Body, Response};

verus! {

/// A new pair takes a request, and neither a response nor the wire before that; there is nothing
/// in it to be released.
pub proof fn new_pairs_take_a_request<M, Q, B>(
    rocket: Arc<M>,
    pair: &mut ReqResPair<M, Q, B>,
    request_refusal: Option<&'static str>,
    response_refusal: Option<&'static str>,
    wire_refusal: Option<&'static str>,
    part: Option<Released<Q, B>>,
)
    requires
        call_ensures(ReqResPair::<M, Q, B>::new, (rocket,), *pair),
        call_ensures(ReqResPair::<M, Q, B>::request_refusal, (&*pair,), request_refusal),
        call_ensures(ReqResPair::<M, Q, B>::response_refusal, (&*pair,), response_refusal),
        call_ensures(ReqResPair::<M, Q, B>::wire_refusal, (&*pair,), wire_refusal),
        call_ensures(ReqResPair::<M, Q, B>::release_next, (pair,), part),
    ensures
        request_refusal is None,
        response_refusal matches Some(text) && text@
            == "set_response was called before try_set_request"@,
        wire_refusal matches Some(text) && text@
            == "into_hyper_response was called before set_response"@,
        part is None,
{
}

/// A call that is not refused may be made: a request is taken, if the manifest may be handed to
/// what makes it; a response is made and taken; and it goes out.
pub proof fn calls_not_refused_may_be_made<M, Q, B, F: FnOnce(&M) -> Result<Q, E>, E>(
    pair: &mut ReqResPair<M, Q, B>,
    f: F,
    response: Response<B>,
    request_refusal: Option<&'static str>,
    response_refusal: Option<&'static str>,
    wire_refusal: Option<&'static str>,
)
    requires
        forall|rocket: &M| #[trigger] call_requires(f, (rocket,)),
        call_ensures(ReqResPair::<M, Q, B>::request_refusal, (&*pair,), request_refusal),
        call_ensures(ReqResPair::<M, Q, B>::response_refusal, (&*pair,), response_refusal),
        call_ensures(ReqResPair::<M, Q, B>::wire_refusal, (&*pair,), wire_refusal),
    ensures
        request_refusal is None ==> call_requires(
            ReqResPair::<M, Q, B>::try_set_request::<F, E>,
            (pair, f),
        ),
        response_refusal is None ==> call_requires(
            ReqResPair::<M, Q, B>::response_source,
            (pair,),
        ),
        response_refusal is None ==> call_requires(
            ReqResPair::<M, Q, B>::set_response,
            (pair, response),
        ),
        wire_refusal is None ==> call_requires(
            ReqResPair::<M, Q, B>::into_hyper_response,
            (*old(pair),),
        ),
{
}

/// A request that was made of the manifest is the one that the response is made from, together
/// with that manifest, and the one that the pair releases. From then on a response is taken, and
/// until one is set another request in place of this one.
pub proof fn requests_are_kept<M, Q, B, F: FnOnce(&M) -> Result<Q, E>, E>(
    rocket: Arc<M>,
    pair: &mut ReqResPair<M, Q, B>,
    f: F,
    request_refusal: Option<&'static str>,
    response_refusal: Option<&'static str>,
    asked: &mut ReqResPair<M, Q, B>,
    source: (&M, &mut Q),
    emptied: &mut ReqResPair<M, Q, B>,
    part: Option<Released<Q, B>>,
)
    requires
        call_ensures(ReqResPair::<M, Q, B>::new, (rocket,), *pair),
        call_ensures(
            ReqResPair::<M, Q, B>::try_set_request::<F, E>,
            (pair, f),
            Ok::<(), E>(()),
        ),
        call_ensures(ReqResPair::<M, Q, B>::request_refusal, (&*final(pair),), request_refusal),
        call_ensures(ReqResPair::<M, Q, B>::response_refusal, (&*final(pair),), response_refusal),
        *asked == *final(pair),
        call_ensures(ReqResPair::<M, Q, B>::response_source, (asked,), source),
        *emptied == *final(pair),
        call_ensures(ReqResPair::<M, Q, B>::release_next, (emptied,), part),
    ensures
        request_refusal is None,
        response_refusal is None,
        *source.0 == *rocket,
        call_ensures(f, (&*rocket,), Ok::<Q, E>(*old(source.1))),
        part matches Some(Released::Request(request)) && request == *old(source.1),
{
}

/// Where no request could be made of the manifest, the failure is the one that was met, and the
/// pair is as good as new: it holds nothing, and takes a request but no response.
pub proof fn failed_requests_leave_nothing<M, Q, B, F: FnOnce(&M) -> Result<Q, E>, E>(
    rocket: Arc<M>,
    pair: &mut ReqResPair<M, Q, B>,
    f: F,
    error: E,
    request_refusal: Option<&'static str>,
    response_refusal: Option<&'static str>,
    emptied: &mut ReqResPair<M, Q, B>,
    part: Option<Released<Q, B>>,
)
    requires
        call_ensures(ReqResPair::<M, Q, B>::new, (rocket,), *pair),
        call_ensures(
            ReqResPair::<M, Q, B>::try_set_request::<F, E>,
            (pair, f),
            Err::<(), E>(error),
        ),
        call_ensures(ReqResPair::<M, Q, B>::request_refusal, (&*final(pair),), request_refusal),
        call_ensures(ReqResPair::<M, Q, B>::response_refusal, (&*final(pair),), response_refusal),
        *emptied == *final(pair),
        call_ensures(ReqResPair::<M, Q, B>::release_next, (emptied,), part),
    ensures
        call_ensures(f, (&*rocket,), Err::<Q, E>(error)),
        request_refusal is None,
        response_refusal matches Some(text) && text@
            == "set_response was called before try_set_request"@,
        part is None,
{
}

/// Where making another request fails, the one that the pair had stays; where it does not, that
/// one is replaced by the one that was made. The manifest stays in both cases.
pub proof fn requests_are_replaced_or_stay<M, Q, B, F: FnOnce(&M) -> Result<Q, E>, E>(
    before: &mut ReqResPair<M, Q, B>,
    source: (&M, &mut Q),
    pair: &mut ReqResPair<M, Q, B>,
    f: F,
    result: Result<(), E>,
    after: &mut ReqResPair<M, Q, B>,
    later: (&M, &mut Q),
)
    requires
        *before == *pair,
        call_ensures(ReqResPair::<M, Q, B>::response_source, (before,), source),
        call_ensures(ReqResPair::<M, Q, B>::try_set_request::<F, E>, (pair, f), result),
        *after == *final(pair),
        call_ensures(ReqResPair::<M, Q, B>::response_source, (after,), later),
    ensures
        *later.0 == *source.0,
        result is Ok ==> call_ensures(f, (later.0,), Ok::<Q, E>(*old(later.1))),
        result matches Err(error) ==> {
            &&& call_ensures(f, (source.0,), Err::<Q, E>(error))
            &&& *old(later.1) == *old(source.1)
        },
{
}

/// What the making of a response leaves of the request is what the pair holds from then on, and
/// the response is still taken.
pub proof fn requests_change_in_place<M, Q, B>(
    pair: &mut ReqResPair<M, Q, B>,
    source: (&M, &mut Q),
    asked: &mut ReqResPair<M, Q, B>,
    later: (&M, &mut Q),
    refusal: Option<&'static str>,
)
    requires
        call_ensures(
            ReqResPair::<M, Q, B>::response_refusal,
            (&*pair,),
            None::<&'static str>,
        ),
        call_ensures(ReqResPair::<M, Q, B>::response_source, (pair,), source),
        *asked == *final(pair),
        call_ensures(ReqResPair::<M, Q, B>::response_source, (asked,), later),
        call_ensures(ReqResPair::<M, Q, B>::response_refusal, (&*final(pair),), refusal),
    ensures
        *later.0 == *source.0,
        *old(later.1) == *final(source.1),
        refusal is None,
{
}

/// Once a response was set, no other and no request is taken; the response goes out unless it is
/// to be read in chunks that are larger than the machine can count.
pub proof fn responses_are_set_once<M, Q, B>(
    pair: &mut ReqResPair<M, Q, B>,
    response: Response<B>,
    request_refusal: Option<&'static str>,
    response_refusal: Option<&'static str>,
    wire_refusal: Option<&'static str>,
)
    requires
        call_ensures(
            ReqResPair::<M, Q, B>::response_refusal,
            (&*pair,),
            None::<&'static str>,
        ),
        call_ensures(ReqResPair::<M, Q, B>::set_response, (pair, response), ()),
        call_ensures(
            ReqResPair::<M, Q, B>::request_refusal,
            (&*final(pair),),
            request_refusal,
        ),
        call_ensures(
            ReqResPair::<M, Q, B>::response_refusal,
            (&*final(pair),),
            response_refusal,
        ),
        call_ensures(ReqResPair::<M, Q, B>::wire_refusal, (&*final(pair),), wire_refusal),
    ensures
        request_refusal matches Some(text) && text@
            == "try_set_request was called after set_response"@,
        response_refusal matches Some(text) && text@ == "set_response was called twice"@,
        match response.body {
            Some(Body::Chunked(_, chunk_size)) if chunk_size > usize::MAX => {
                wire_refusal matches Some(text) && text@ == "u64 -> usize overflow"@
            },
            _ => wire_refusal is None,
        },
{
}

/// Whatever else a pair holds, once a response was set the pair holds that response, in status,
/// headers and body, and all that it held before: a stream is released before the response, and
/// the request after it.
pub proof fn responses_join_what_is_held<M, Q, B>(
    before: &mut ReqResPair<M, Q, B>,
    first_before: Option<Released<Q, B>>,
    pair: &mut ReqResPair<M, Q, B>,
    response: Response<B>,
    after: &mut ReqResPair<M, Q, B>,
    first: Option<Released<Q, B>>,
    later: &mut ReqResPair<M, Q, B>,
    second: Option<Released<Q, B>>,
)
    requires
        *before == *pair,
        call_ensures(ReqResPair::<M, Q, B>::release_next, (before,), first_before),
        call_ensures(
            ReqResPair::<M, Q, B>::response_refusal,
            (&*pair,),
            None::<&'static str>,
        ),
        call_ensures(ReqResPair::<M, Q, B>::set_response, (pair, response), ()),
        *after == *final(pair),
        call_ensures(ReqResPair::<M, Q, B>::release_next, (after,), first),
        *later == *final(after),
        call_ensures(ReqResPair::<M, Q, B>::release_next, (later,), second),
    ensures
        match first_before {
            Some(Released::Stream(stream)) => {
                &&& first matches Some(Released::Stream(released)) && released == stream
                &&& second matches Some(Released::Response(released)) && released == response
            },
            Some(Released::Request(request)) => {
                &&& first matches Some(Released::Response(released)) && released == response
                &&& second matches Some(Released::Request(released)) && released == request
            },
            _ => false,
        },
{
}

/// A pair whose response was set and not sent releases that response first, in status, headers
/// and body the one that was given, then the request as the making of the response left it, and
/// then nothing.
pub proof fn unsent_pairs_release_what_they_hold<M, Q, B, F: FnOnce(&M) -> Result<Q, E>, E>(
    rocket: Arc<M>,
    fresh: &mut ReqResPair<M, Q, B>,
    f: F,
    result: Result<(), E>,
    asked: &mut ReqResPair<M, Q, B>,
    source: (&M, &mut Q),
    pair: &mut ReqResPair<M, Q, B>,
    response: Response<B>,
    full: &mut ReqResPair<M, Q, B>,
    first: Option<Released<Q, B>>,
    half: &mut ReqResPair<M, Q, B>,
    second: Option<Released<Q, B>>,
    empty: &mut ReqResPair<M, Q, B>,
    third: Option<Released<Q, B>>,
)
    requires
        call_ensures(ReqResPair::<M, Q, B>::new, (rocket,), *fresh),
        call_ensures(ReqResPair::<M, Q, B>::try_set_request::<F, E>, (fresh, f), result),
        result is Ok,
        *asked == *final(fresh),
        call_ensures(ReqResPair::<M, Q, B>::response_source, (asked,), source),
        *pair == *final(asked),
        call_ensures(ReqResPair::<M, Q, B>::set_response, (pair, response), ()),
        *full == *final(pair),
        call_ensures(ReqResPair::<M, Q, B>::release_next, (full,), first),
        *half == *final(full),
        call_ensures(ReqResPair::<M, Q, B>::release_next, (half,), second),
        *empty == *final(half),
        call_ensures(ReqResPair::<M, Q, B>::release_next, (empty,), third),
    ensures
        first matches Some(Released::Response(released)) && released == response,
        second matches Some(Released::Request(released)) && released == *final(source.1),
        third is None,
{
}

/// A pair whose response was sent with its body releases the stream of that body first, then the
/// response, in status and headers the one that was set, then the request as the making of the
/// response left it, from which both may borrow, and then nothing.
pub proof fn sent_pairs_release_what_they_hold<M, Q, B, F: FnOnce(&M) -> Result<Q, E>, E>(
    rocket: Arc<M>,
    fresh: &mut ReqResPair<M, Q, B>,
    f: F,
    result: Result<(), E>,
    asked: &mut ReqResPair<M, Q, B>,
    source: (&M, &mut Q),
    pair: &mut ReqResPair<M, Q, B>,
    response: Response<B>,
    sent: Result<(hyper::http::response::Parts, PayloadKind<M, Q, B>), WireError>,
    full: &mut ReqResPair<M, Q, B>,
    first: Option<Released<Q, B>>,
    part: &mut ReqResPair<M, Q, B>,
    second: Option<Released<Q, B>>,
    half: &mut ReqResPair<M, Q, B>,
    third: Option<Released<Q, B>>,
    empty: &mut ReqResPair<M, Q, B>,
    fourth: Option<Released<Q, B>>,
)
    requires
        response.body matches Some(Body::Chunked(_, chunk_size)) ==> chunk_size <= usize::MAX,
        call_ensures(ReqResPair::<M, Q, B>::new, (rocket,), *fresh),
        call_ensures(ReqResPair::<M, Q, B>::try_set_request::<F, E>, (fresh, f), result),
        result is Ok,
        *asked == *final(fresh),
        call_ensures(ReqResPair::<M, Q, B>::response_source, (asked,), source),
        *pair == *final(asked),
        call_ensures(ReqResPair::<M, Q, B>::set_response, (pair, response), ()),
        call_ensures(ReqResPair::<M, Q, B>::into_hyper_response, (*final(pair),), sent),
        sent matches Ok((_, PayloadKind::ReqRes(sent_pair))) && *full == sent_pair,
        call_ensures(ReqResPair::<M, Q, B>::release_next, (full,), first),
        *part == *final(full),
        call_ensures(ReqResPair::<M, Q, B>::release_next, (part,), second),
        *half == *final(part),
        call_ensures(ReqResPair::<M, Q, B>::release_next, (half,), third),
        *empty == *final(half),
        call_ensures(ReqResPair::<M, Q, B>::release_next, (empty,), fourth),
    ensures
        first matches Some(Released::Stream(stream)) && (match response.body {
            Some(Body::Chunked(inner, chunk_size)) => stream.inner == inner && stream.chunk_size
                == chunk_size,
            Some(Body::Sized(inner, _)) => stream.inner == inner && stream.chunk_size == 4096,
            None => false,
        }),
        second matches Some(Released::Response(released)) && released.status == response.status
            && released.headers == response.headers && released.body is None,
        third matches Some(Released::Request(released)) && released == *final(source.1),
        fourth is None,
{
}

/// Whatever a pair holds, a call that releases a part changes nothing once one has released
/// none, and of two parts that are released in turn the later is never the stream and the earlier
/// never the request.
pub proof fn parts_are_released_in_order<M, Q, B>(
    pair: &mut ReqResPair<M, Q, B>,
    part: Option<Released<Q, B>>,
    later: &mut ReqResPair<M, Q, B>,
    next: Option<Released<Q, B>>,
)
    requires
        call_ensures(ReqResPair::<M, Q, B>::release_next, (pair,), part),
        *later == *final(pair),
        call_ensures(ReqResPair::<M, Q, B>::release_next, (later,), next),
    ensures
        part is None ==> next is None,
        next is Some ==> !(part matches Some(Released::Request(_))),
        !(next matches Some(Released::Stream(_))),
        part matches Some(Released::Response(_)) ==> !(next matches Some(Released::Response(_))),
{
}

} // verus!
