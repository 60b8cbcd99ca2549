//! Responses, as far as they are turned into what goes over the wire.

use vstd::prelude::*;

use crate::outcome::Status;

verus! {

/// One header of a response.
#[derive(Debug)]
pub struct Header {
    pub name: String,
    pub value: String,
}

/// The body of a response, read from a `B`.
#[derive(Debug)]
pub enum Body<B> {
    /// A body of unknown size, to be sent in chunks of at most this size.
    Chunked(B, u64),
    /// A body of this size.
    Sized(B, u64),
}

/// A response.
#[derive(Debug)]
pub struct Response<B> {
    pub status: Status,
    /// The headers, in the order in which they are sent.
    pub headers: Vec<Header>,
    pub body: Option<Body<B>>,
}

impl<B> Response<B> {
    /// Moves the body out of the response, and leaves none.
    pub fn take_body(&mut self) -> (body: Option<Body<B>>)
        ensures
            body == old(self).body,
            *final(self) == (Response { body: None, ..*old(self) }),
    {
        self.body.take()
    }
}

/// A body that is read in chunks of at most `chunk_size` bytes.
#[derive(Debug)]
pub struct BytesStream<B> {
    pub inner: B,
    pub chunk_size: usize,
}

/// Reads `body` in chunks of at most `chunk_size` bytes.
pub fn into_bytes_stream<B>(body: B, chunk_size: usize) -> (stream: BytesStream<B>)
    ensures
        stream == (BytesStream { inner: body, chunk_size }),
{
    BytesStream { inner: body, chunk_size }
}

/// The decimal digits of `n`, in ASCII.
pub open spec fn decimal(n: nat) -> Seq<u8>
    decreases n,
{
    if n < 10 {
        seq![(48 + n) as u8]
    } else {
        decimal(n / 10).push((48 + n % 10) as u8)
    }
}

/// The decimal digits of `n`, in ASCII.
pub fn decimal_digits(n: u64) -> (digits: Vec<u8>)
    ensures
        digits@ == decimal(n as nat),
    decreases n,
{
    if n < 10 {
        vec![48 + n as u8]
    } else {
        let mut digits = decimal_digits(n / 10);
        digits.push(48 + (n % 10) as u8);
        digits
    }
}

} // verus!
