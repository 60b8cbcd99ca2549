//! Bodies and their streams, lengths in decimal, texts and outcomes.

use vstd::prelude::*;

use crate::outcome::{into_outcome, Outcome, Status};
use crate::report::{join, Report};
use crate::response::{
    decimal, decimal_digits, into_bytes_stream, Body, BytesStream, Response,
};

verus! {

/// The number that the digits read as.
pub open spec fn number(digits: Seq<u8>) -> nat
    decreases digits.len(),
{
    if digits.len() == 0 {
        0
    } else {
        10 * number(digits.drop_last()) + (digits.last() - 48) as nat
    }
}

/// The bytes are decimal digits, at least one, and start with a zero only if they are one.
pub open spec fn is_decimal(digits: Seq<u8>) -> bool {
    &&& digits.len() > 0
    &&& forall|i: int| 0 <= i < digits.len() ==> 48 <= #[trigger] digits[i] <= 57
    &&& digits.len() > 1 ==> digits[0] != 48
}

pub(crate) proof fn decimal_reads_back(n: nat)
    ensures
        is_decimal(decimal(n)),
        number(decimal(n)) == n,
        n > 0 ==> decimal(n)[0] != 48,
    decreases n,
{
    if n >= 10 {
        decimal_reads_back(n / 10);
        assert(decimal(n).drop_last() =~= decimal(n / 10));
    } else {
        assert(decimal(n).drop_last() =~= Seq::<u8>::empty());
        assert(number(decimal(n).drop_last()) == 0);
    }
}

/// The decimal digits of a number read as that number.
pub proof fn digits_read_back(n: u64, digits: Vec<u8>)
    requires
        call_ensures(decimal_digits, (n,), digits),
    ensures
        is_decimal(digits@),
        number(digits@) == n,
{
    decimal_reads_back(n as nat);
}

/// The body of a response is taken out once, and the response keeps its status and its headers.
pub proof fn body_is_taken_once<B>(
    response: &mut Response<B>,
    body: Option<Body<B>>,
    later: &mut Response<B>,
    again: Option<Body<B>>,
)
    requires
        call_ensures(Response::<B>::take_body, (response,), body),
        *later == *final(response),
        call_ensures(Response::<B>::take_body, (later,), again),
    ensures
        body == old(response).body,
        again is None,
        final(later).body is None,
        final(later).status == old(response).status,
        final(later).headers == old(response).headers,
{
}

/// A stream reads from the body it was made of, in chunks of the size that was asked for.
pub proof fn streams_read_their_body<B>(body: B, chunk_size: usize, stream: BytesStream<B>)
    requires
        call_ensures(into_bytes_stream::<B>, (body, chunk_size), stream),
    ensures
        stream.inner == body,
        stream.chunk_size == chunk_size,
{
}

/// Two texts joined start with the first and end with the second, with nothing in between.
pub proof fn joined_texts_are_whole(first: &str, second: &str, joined: String)
    requires
        call_ensures(join, (first, second), joined),
    ensures
        joined@.len() == first@.len() + second@.len(),
        joined@.take(first@.len() as int) == first@,
        joined@.skip(first@.len() as int) == second@,
{
    assert(joined@.take(first@.len() as int) =~= first@);
    assert(joined@.skip(first@.len() as int) =~= second@);
}

/// A report of one line is that line.
pub proof fn headlines_stand_alone(heading: String, report: Report)
    requires
        call_ensures(Report::headline, (heading,), report),
    ensures
        report.heading@ == heading@,
        report.span is None,
        report.lines@.len() == 0,
{
    assert(report@.lines.len() == report.lines@.len());
}

/// A result is a success exactly if it holds a value, and a failure has the status and the error
/// that were given. No result forwards a request.
pub proof fn outcomes_follow_results<S, E>(
    result: Result<S, E>,
    status: Status,
    outcome: Outcome<S, E>,
)
    requires
        call_ensures(into_outcome::<S, E>, (result, status), outcome),
    ensures
        result matches Ok(value) ==> (outcome matches Outcome::Success(kept) && kept == value),
        result matches Err(error) ==> (outcome matches Outcome::Failure(failure) && failure.0
            == status && failure.1 == error),
{
}

/// The two statuses of a failing guard are those of the server's faults that HTTP numbers `500`
/// and `503`.
pub proof fn failing_statuses(internal: Status, unavailable: Status)
    requires
        call_ensures(Status::internal_server_error, (), internal),
        call_ensures(Status::service_unavailable, (), unavailable),
    ensures
        internal.code == 500,
        unavailable.code == 503,
{
}

} // verus!
