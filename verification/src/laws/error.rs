//! Launch errors: what they hold, what they tell, and how they end.

use vstd::prelude::*;

use crate::error::{
    error_from_kind_is_fresh, Abort, Error, ErrorKind, RouteUriError, UriError,
};
use crate::report::{texts, Report};

verus! {

/// A launch error made from a kind by `new` holds that kind: asked for its kind, it gives the
/// one it was made from.
pub proof fn new_keeps_the_kind(kind: ErrorKind, error: &mut Error, told: &ErrorKind)
    requires
        call_ensures(Error::new, (kind,), *error),
        call_ensures(Error::kind, (error,), told),
    ensures
        *told == kind,
{
}

/// A launch error made from a kind by `from` holds that kind: asked for its kind, it gives the
/// one it was made from.
pub proof fn from_keeps_the_kind(kind: ErrorKind, error: &mut Error, told: &ErrorKind)
    requires
        call_ensures(<Error as From<ErrorKind>>::from, (kind,), *error),
        call_ensures(Error::kind, (error,), told),
    ensures
        *told == kind,
{
    error_from_kind_is_fresh(kind);
}

/// However often an error is asked and whatever else it was asked in between, it tells the same
/// kind, and what it displays is what that kind displays.
pub proof fn kind_never_changes(
    error: &mut Error,
    kind: &ErrorKind,
    shown: &mut Error,
    text: String,
    dropped: &mut Error,
    abort: Option<Abort>,
    again: &mut Error,
    kind_again: &ErrorKind,
    kind_text: String,
)
    requires
        call_ensures(Error::kind, (error,), kind),
        *shown == *final(error) || *shown == *error,
        call_ensures(Error::to_text, (shown,), text),
        *dropped == *final(shown),
        call_ensures(Error::on_drop, (dropped,), abort),
        *again == *final(dropped),
        call_ensures(Error::kind, (again,), kind_again),
        call_ensures(ErrorKind::to_text, (kind,), kind_text),
    ensures
        *kind_again == *kind,
        text@ == kind_text@,
{
}

/// An error that was asked for its kind, displayed or dropped before is dropped in silence.
pub proof fn inspection_silences(
    error: &mut Error,
    kind: &ErrorKind,
    text: String,
    abort: Option<Abort>,
    dropped: &mut Error,
    second: Option<Abort>,
)
    requires
        ({
            ||| call_ensures(Error::kind, (error,), kind)
            ||| call_ensures(Error::to_text, (error,), text)
            ||| call_ensures(Error::on_drop, (error,), abort)
        }),
        *dropped == *final(error),
        call_ensures(Error::on_drop, (dropped,), second),
    ensures
        second is None,
{
}

/// What a kind displays names the kind and ends in the cause, where there is one.
pub proof fn kinds_display(kind: ErrorKind, text: String)
    requires
        call_ensures(ErrorKind::to_text, (&kind,), text),
    ensures
        match kind {
            ErrorKind::Bind(cause) => text@ == "binding failed: "@ + cause.text@,
            ErrorKind::Io(cause) => text@ == "I/O error: "@ + cause.text@,
            ErrorKind::Runtime(cause) => text@ == "runtime error: "@ + cause.text@,
            ErrorKind::Collision(_) => text@ == "route collisions detected"@,
            ErrorKind::FailedFairings(_) => text@ == "a launch fairing failed"@,
            ErrorKind::InsecureSecretKey(_) => text@ == "insecure secret key config"@,
        },
{
}

/// The message of the panic tells of which kind an error was, and nothing else of it.
pub proof fn kinds_panic(kind: ErrorKind, message: &'static str)
    requires
        call_ensures(ErrorKind::panic_message, (&kind,), message),
    ensures
        kind is Bind <==> message@ == "aborting due to socket bind error"@,
        kind is Io <==> message@ == "aborting due to i/o error"@,
        kind is Runtime <==> message@ == "aborting due to runtime failure"@,
        kind is Collision <==> message@ == "route collisions detected"@,
        kind is FailedFairings <==> message@ == "aborting due to launch fairing failure"@,
        kind is InsecureSecretKey <==> message@ == "aborting due to insecure configuration"@,
{
    panics_differ();
}

proof fn panics_differ()
    ensures
        "aborting due to socket bind error"@.len() == 33,
        "aborting due to i/o error"@.len() == 25,
        "aborting due to runtime failure"@.len() == 31,
        "route collisions detected"@.len() == 25,
        "aborting due to i/o error"@[0] != "route collisions detected"@[0],
        "aborting due to launch fairing failure"@.len() == 38,
        "aborting due to insecure configuration"@.len() == 38,
        "aborting due to launch fairing failure"@[16]
            != "aborting due to insecure configuration"@[16],
{
    reveal_strlit("aborting due to socket bind error");
    reveal_strlit("aborting due to i/o error");
    reveal_strlit("aborting due to runtime failure");
    reveal_strlit("route collisions detected");
    reveal_strlit("aborting due to launch fairing failure");
    reveal_strlit("aborting due to insecure configuration");
}

/// `report` tells of `kind` and all it holds: every cause, collision, failed fairing or profile,
/// in order. `paints` are the texts that may be painted: the verb of each collision, or the name
/// of the profile.
pub open spec fn tells_of(report: Report, kind: ErrorKind, paints: Seq<Seq<char>>) -> bool {
    match kind {
        ErrorKind::Bind(cause) => {
            &&& report.span matches Some(span) && span@ == "bind_error"@
            &&& report.heading@ == "Rocket failed to bind network socket to given address/port."@
            &&& report.lines@.len() == 1
            &&& report.lines@[0]@ == cause.text@
        },
        ErrorKind::Io(cause) => {
            &&& report.span matches Some(span) && span@ == "io_error"@
            &&& report.heading@ == "Rocket failed to launch due to an I/O error."@
            &&& report.lines@.len() == 1
            &&& report.lines@[0]@ == cause.text@
        },
        ErrorKind::Runtime(cause) => {
            &&& report.span matches Some(span) && span@ == "runtime_error"@
            &&& report.heading@ == "An error occured in the runtime:"@
            &&& report.lines@.len() == 1
            &&& report.lines@[0]@ == cause.text@
        },
        ErrorKind::Collision(pairs) => {
            &&& report.span matches Some(span) && span@ == "collisions"@
            &&& report.heading@
                == "Rocket failed to launch due to the following routing collisions:"@
            &&& paints.len() == pairs@.len()
            &&& report.lines@.len() == pairs@.len() + 1
            &&& forall|i: int|
                0 <= i < pairs@.len() ==> (#[trigger] report.lines@[i])@ == pairs@[i].0.text@
                    + " "@ + paints[i] + " "@ + pairs@[i].1.text@
            &&& report.lines@.last()@
                == "Note: Collisions can usually be resolved by ranking routes."@
        },
        ErrorKind::FailedFairings(failures) => {
            &&& report.span matches Some(span) && span@ == "fairing_error"@
            &&& report.heading@ == "Rocket failed to launch due to failing fairings:"@
            &&& report.lines@.len() == failures@.len()
            &&& forall|i: int|
                0 <= i < failures@.len() ==> (#[trigger] report.lines@[i])@ == failures@[i].name@
        },
        ErrorKind::InsecureSecretKey(_) => {
            &&& report.span matches Some(span) && span@ == "insecure_secret_key"@
            &&& report.heading@ == "secrets enabled in non-debug without `secret_key`"@
            &&& paints.len() == 1
            &&& report.lines@.len() == 2
            &&& report.lines@[0]@ == "selected profile: "@ + paints[0]
            &&& report.lines@[1]@ == "disable `secrets` feature or configure a `secret_key`"@
        },
    }
}

/// Each collision is told with the words `collides with`, plain or in red italics, and a profile
/// by its name, plain or in white.
pub open spec fn are_plain_or_styled(kind: ErrorKind, paints: Seq<Seq<char>>) -> bool {
    match kind {
        ErrorKind::Collision(_) => forall|i: int|
            0 <= i < paints.len() ==> (#[trigger] paints[i]) == "collides with"@ || paints[i]
                == "\u{1b}[3;31m"@ + "collides with"@ + "\u{1b}[0m"@,
        ErrorKind::InsecureSecretKey(profile) => paints[0] == profile.name@ || paints[0]
            == "\u{1b}[37m"@ + profile.name@ + "\u{1b}[0m"@,
        _ => true,
    }
}

proof fn report_of_a_kind_tells(kind: ErrorKind, paints: Seq<Seq<char>>, report: Report)
    requires
        paints.len() == kind.paint_count(),
        report@ == kind.report_of(paints),
    ensures
        tells_of(report, kind, paints),
{
    assert(forall|i: int|
        0 <= i < report.lines@.len() ==> (#[trigger] report.lines@[i])@ == report@.lines[i]);
    assert(report@.lines.len() == report.lines@.len());
}

/// Given as many painted texts as the kind has collisions or profiles, the report on the kind
/// tells of it with these texts, whatever they are.
pub proof fn reports_hold_what_was_painted(kind: ErrorKind, paints: &Vec<String>, report: Report)
    requires
        paints@.len() == (match kind {
            ErrorKind::Collision(pairs) => pairs@.len(),
            ErrorKind::InsecureSecretKey(_) => 1,
            _ => 0,
        }),
        call_ensures(ErrorKind::report_with, (&kind, paints), report),
    ensures
        call_requires(ErrorKind::report_with, (&kind, paints)),
        tells_of(report, kind, paints@.map_values(|paint: String| paint@)),
{
    assert(paints@.map_values(|paint: String| paint@) =~= texts(paints@));
    report_of_a_kind_tells(kind, texts(paints@), report);
}

/// The report on a kind tells of it and all it holds, painted or not.
pub proof fn reports_tell_of_the_kind(kind: ErrorKind, report: Report)
    requires
        call_ensures(ErrorKind::report, (&kind,), report),
    ensures
        exists|paints: Seq<Seq<char>>| #[trigger]
            tells_of(report, kind, paints) && are_plain_or_styled(kind, paints),
{
    let paints = choose|paints: Seq<Seq<char>>|
        kind.are_paints(paints) && report@ == #[trigger] kind.report_of(paints);
    report_of_a_kind_tells(kind, paints, report);
}

/// A launch error made from a kind by `new` or by `from` and dropped uninspected aborts as an
/// error of that kind: it reports all that the kind holds, and panics with the kind's message.
pub proof fn uninspected_error_aborts_as_its_kind(
    kind: ErrorKind,
    error: &mut Error,
    abort: Option<Abort>,
    message: &'static str,
)
    requires
        ({
            ||| call_ensures(Error::new, (kind,), *error)
            ||| call_ensures(<Error as From<ErrorKind>>::from, (kind,), *error)
        }),
        call_ensures(Error::on_drop, (error,), abort),
        call_ensures(ErrorKind::panic_message, (&kind,), message),
    ensures
        abort is Some,
        abort->0.panic@ == message@,
        exists|paints: Seq<Seq<char>>| #[trigger]
            tells_of(abort->0.report, kind, paints) && are_plain_or_styled(kind, paints),
{
    error_from_kind_is_fresh(kind);
    let report = abort->0.report;
    let paints = choose|paints: Seq<Seq<char>>|
        kind.are_paints(paints) && report@ == #[trigger] kind.report_of(paints);
    report_of_a_kind_tells(kind, paints, report);
}

/// An error in a URI displays its message, and goes on to display it once it borrows from
/// nothing.
pub proof fn uri_errors_keep_their_message<'a>(
    error: UriError<'a>,
    text: String,
    owned: UriError<'static>,
    owned_text: String,
)
    requires
        call_ensures(UriError::<'a>::to_text, (&error,), text),
        call_ensures(UriError::<'a>::into_owned, (error,), owned),
        call_ensures(UriError::<'static>::to_text, (&owned,), owned_text),
    ensures
        error matches UriError::Borrowed(message) ==> text@ == message@,
        error matches UriError::Owned(message) ==> text@ == message@,
        owned is Owned,
        owned_text@ == text@,
{
}

/// An error in the URI of a route displays the message of the error it was made from; a dynamic
/// base has a message of its own.
pub proof fn route_uri_errors_tell_the_cause<'a>(
    error: UriError<'a>,
    text: String,
    route_error: RouteUriError,
    route_text: String,
    base_text: String,
)
    requires
        call_ensures(UriError::<'a>::to_text, (&error,), text),
        call_ensures(<RouteUriError as From<UriError<'a>>>::from, (error,), route_error),
        call_ensures(RouteUriError::to_text, (&route_error,), route_text),
        call_ensures(RouteUriError::to_text, (&RouteUriError::DynamicBase,), base_text),
    ensures
        route_error is Uri,
        route_text@ == "Malformed URI: "@ + text@,
        base_text@ == "Mount point contains dynamic parameters."@,
{
}

} // verus!
