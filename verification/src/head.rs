//! The head of a response in the form that `hyper` takes it: a status and headers.

use vstd::prelude::*;

verus! {

/// The outside type `hyper::http::response::Builder`: the head of a response as it is built, or
/// the error that building it met.
#[verifier::external_type_specification]
#[verifier::external_body]
pub struct ExBuilder(hyper::http::response::Builder);

/// The outside type `std::io::Error`: an error, and the error that caused it.
#[verifier::external_type_specification]
#[verifier::external_body]
pub struct ExIoError(std::io::Error);

/// The outside type `hyper::http::response::Parts`: the head of a response.
#[verifier::external_type_specification]
#[verifier::external_body]
pub struct ExParts(hyper::http::response::Parts);

/// Why a head cannot be built.
pub enum Fault {
    /// The status has not three digits.
    Status,
    /// A header's name is not one.
    Name,
    /// A header's value holds a byte that may not stand there.
    Value,
    /// There are too many headers.
    Size,
}

impl Fault {
    /// What the error displays.
    pub open spec fn text(self) -> Seq<char> {
        match self {
            Fault::Status => "invalid status code"@,
            Fault::Name => "invalid HTTP header name"@,
            Fault::Value => "failed to parse header value"@,
            Fault::Size => "max size reached"@,
        }
    }
}

/// The character may stand in a header's name.
pub open spec fn is_name_char(c: char) -> bool {
    ||| 'a' <= c <= 'z'
    ||| 'A' <= c <= 'Z'
    ||| '0' <= c <= '9'
    ||| '!' <= c <= '\''
    ||| c == '*' || c == '+' || c == '-' || c == '.'
    ||| '^' <= c <= '`'
    ||| c == '|' || c == '~'
}

/// The character in lower case.
pub open spec fn lower(c: char) -> char {
    if 'A' <= c <= 'Z' {
        (c as int + 32) as char
    } else {
        c
    }
}

/// The text is the name of a header.
pub open spec fn is_name(name: Seq<char>) -> bool {
    &&& 0 < name.len() <= 65535
    &&& forall|i: int| 0 <= i < name.len() ==> is_name_char(#[trigger] name[i])
}

/// The bytes are the value of a header.
pub open spec fn is_value(value: Seq<u8>) -> bool {
    forall|i: int|
        0 <= i < value.len() ==> {
            let b = #[trigger] value[i];
            b >= 32 && b != 127 || b == 9
        }
}

/// A head in the making: its status, the values of each header in the order in which they were
/// added, by the header's name in lower case, and the first fault that was met. Once there is a
/// fault, nothing but the fault counts.
#[verifier::ext_equal]
pub struct Head {
    pub status: int,
    pub headers: Map<Seq<char>, Seq<Seq<u8>>>,
    pub fault: Option<Fault>,
}

impl Head {
    /// The head to start from.
    pub open spec fn empty() -> Head {
        Head { status: 200, headers: Map::empty(), fault: None }
    }

    /// The two heads have the same fault, or are the same head without one.
    pub open spec fn agrees(self, other: Head) -> bool {
        &&& self.fault == other.fault
        &&& self.fault is None ==> self == other
    }

    /// The head with a fault, unless it had one before.
    pub open spec fn faulty(self, fault: Fault) -> Head {
        if self.fault is Some {
            self
        } else {
            Head { fault: Some(fault), ..self }
        }
    }

    /// The head with another status.
    pub open spec fn with_status(self, code: u16) -> Head {
        if self.fault is Some {
            self
        } else if 100 <= code < 1000 {
            Head { status: code as int, ..self }
        } else {
            self.faulty(Fault::Status)
        }
    }

    /// The values of the header `name`.
    pub open spec fn values(self, name: Seq<char>) -> Seq<Seq<u8>> {
        if self.headers.contains_key(name) {
            self.headers[name]
        } else {
            Seq::empty()
        }
    }

    /// The head with one more header, if nothing bounded how many there may be.
    pub open spec fn with_header(self, name: Seq<char>, value: Seq<u8>) -> Head {
        if self.fault is Some {
            self
        } else if !is_name(name) {
            self.faulty(Fault::Name)
        } else if !is_value(value) {
            self.faulty(Fault::Value)
        } else {
            let key = name.map_values(|c: char| lower(c));
            Head { headers: self.headers.insert(key, self.values(key).push(value)), ..self }
        }
    }

    /// So few different names are in the head that one more is never refused.
    pub open spec fn has_room(self) -> bool {
        self.headers.dom().finite() && self.headers.dom().len() <= 6553
    }

    /// So many different names are in the head that one more is always refused.
    pub open spec fn is_full(self) -> bool {
        self.headers.dom().finite() && self.headers.dom().len() >= 24576
    }

    /// `next` is the head after one more header was added: there it stands, or, where the head
    /// has no room for sure, the header may have been refused for want of it.
    pub open spec fn gains(self, name: Seq<char>, value: Seq<u8>, next: Head) -> bool {
        let grown = self.with_header(name, value);
        if grown.fault is Some {
            next.agrees(grown)
        } else if self.has_room() {
            next.agrees(grown)
        } else if self.is_full() {
            next.agrees(self.faulty(Fault::Size))
        } else {
            next.agrees(grown) || next.agrees(self.faulty(Fault::Size))
        }
    }
}

impl Head {
    /// `built` is this head, or the building of it stopped at a header for want of room.
    pub open spec fn is_built_as(self, built: Head) -> bool {
        if built.fault == Some(Fault::Size) {
            !self.has_room()
        } else {
            built.agrees(self) && (self.fault is None ==> self.headers.dom().len() <= 24576)
        }
    }
}

/// Adding a header to what was built of a head gives what is built of the head with the header.
pub(crate) proof fn building_goes_on(
    head: Head,
    built: Head,
    name: Seq<char>,
    value: Seq<u8>,
    next: Head,
)
    requires
        head.headers.dom().finite(),
        head.fault != Some(Fault::Size),
        head.is_built_as(built),
        built.gains(name, value, next),
    ensures
        head.with_header(name, value).headers.dom().finite(),
        head.with_header(name, value).fault != Some(Fault::Size),
        head.with_header(name, value).is_built_as(next),
{
}

/// What a builder holds: the head that was built, or the fault that was met, in which case the
/// status and the headers stand for nothing.
pub uninterp spec fn builder_head(builder: hyper::http::response::Builder) -> Head;

/// The status and the headers that the head of a response holds.
pub uninterp spec fn parts_head(parts: hyper::http::response::Parts) -> Head;

/// What an I/O error holds: whether its kind is `Other`, and what the error that it wraps
/// displays.
pub uninterp spec fn io_error_of(error: std::io::Error) -> (bool, Seq<char>);

/// Starts a response.
///
/// Calls `hyper::Response::builder`. What is claimed: the builder starts with the status `200`,
/// no headers and no error.
#[verifier::external_body]
pub(crate) fn new_builder() -> (builder: hyper::http::response::Builder)
    ensures
        builder_head(builder) == Head::empty(),
{
    hyper::Response::builder()
}

/// Sets the status.
///
/// Calls `hyper::http::response::Builder::status`. What is claimed: a builder that met an error
/// keeps that error, and nothing is said of what it held before; else the status becomes `code` if it lies between `100` and `999`, and is
/// recorded as invalid if it does not.
#[verifier::external_body]
pub(crate) fn builder_status(builder: hyper::http::response::Builder, code: u16) -> (next:
    hyper::http::response::Builder)
    ensures
        builder_head(next).agrees(builder_head(builder).with_status(code)),
{
    builder.status(code)
}

/// Adds a header.
///
/// Calls `hyper::http::response::Builder::header`. What is claimed: a builder that met an error
/// keeps that error, and nothing is said of what it held before; else the value is appended to the values of the header, whose name counts in
/// lower case, unless the name or the value is malformed, which is recorded, the name first.
/// The map of the headers refuses an addition when its table would outgrow its bound. That
/// never happens before `6554` different names are in it and always once `24576` are; in
/// between it depends on how their hashes fall, which is left open here.
#[verifier::external_body]
pub(crate) fn builder_header(
    builder: hyper::http::response::Builder,
    name: &str,
    value: &[u8],
) -> (next: hyper::http::response::Builder)
    ensures
        builder_head(builder).gains(name@, value@, builder_head(next)),
{
    builder.header(name, value)
}

/// Ends the building of a head.
///
/// Calls `hyper::http::response::Builder::body`, with an empty body, and keeps the head of the
/// response, which `hyper::Response::into_parts` gives, or what the error displays and the error
/// itself, which `std::io::Error::other` turns into an I/O error. What is claimed: the response
/// has the head that was built; if the builder met an error, the text is what that error displays,
/// and the I/O error has the kind `Other` and wraps an error that displays that text.
#[verifier::external_body]
pub(crate) fn builder_body(builder: hyper::http::response::Builder) -> (result: Result<
    hyper::http::response::Parts,
    (String, std::io::Error),
>)
    ensures
        match (result, builder_head(builder).fault) {
            (Ok(parts), None) => parts_head(parts) == builder_head(builder),
            (Err(error), Some(fault)) => error.0@ == fault.text() && io_error_of(error.1) == (
                true,
                fault.text(),
            ),
            _ => false,
        },
{
    match builder.body(()) {
        Ok(response) => Ok(response.into_parts().0),
        Err(error) => Err((error.to_string(), std::io::Error::other(error))),
    }
}

} // verus!
