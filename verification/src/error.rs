//! Types representing various errors that can occur in a Rocket application.

use vstd::prelude::*;

use crate::report::{join, texts, Report, ReportView};

verus! {

/// An I/O error, by the message it displays.
#[derive(Debug)]
pub struct IoError {
    pub text: String,
}

/// An error of the runtime, by the message it displays.
#[derive(Debug)]
pub struct RuntimeError {
    pub text: String,
}

/// A route, by the line it displays.
#[derive(Debug)]
pub struct Route {
    pub text: String,
}

/// A fairing, by its name.
#[derive(Debug)]
pub struct Info {
    pub name: &'static str,
}

/// A configuration profile, by its name as it was written.
#[derive(Debug)]
pub struct Profile {
    pub name: String,
}

/// The kind of error that occurred.
///
/// In almost every instance, a launch error occurs because of an I/O error;
/// this is represented by the `Io` variant. A launch error may also occur
/// because of ill-defined routes that lead to collisions or because a fairing
/// encountered an error; these are represented by the `Collision` and
/// `FailedFairings` variants, respectively.
#[derive(Debug)]
pub enum ErrorKind {
    /// Binding to the provided address/port failed.
    Bind(IoError),
    /// An I/O error occurred during launch.
    Io(IoError),
    /// An I/O error occurred in the runtime.
    Runtime(RuntimeError),
    /// Route collisions were detected.
    Collision(Vec<(Route, Route)>),
    /// Launch fairing(s) failed.
    FailedFairings(Vec<Info>),
    /// The configuration profile is not debug but no secret key is configured.
    InsecureSecretKey(Profile),
}

/// `painted` is `text`, either as it is or between the escape sequence `style` and the one that
/// ends all styles.
pub open spec fn is_painted(painted: Seq<char>, style: Seq<char>, text: Seq<char>) -> bool {
    painted == text || painted == style + text + "\u{1b}[0m"@
}

/// The text in red italics, as the terminal is to show it.
///
/// Calls `yansi::Paint::red` and `yansi::Paint::italic` and displays what they give. What is
/// claimed: the text stands between the escape sequence for italics and red and the one that
/// resets the style while painting is enabled in the process, and stands alone while it is
/// disabled. Which of the two holds is a setting of the process that anyone may change.
#[verifier::external_body]
fn paint_red_italic(text: &str) -> (painted: String)
    ensures
        is_painted(painted@, "\u{1b}[3;31m"@, text@),
{
    yansi::Paint::red(text).italic().to_string()
}

/// The text in white, as the terminal is to show it.
///
/// Calls `yansi::Paint::white` and displays what it gives. What is claimed: the text stands
/// between the escape sequence for white and the one that resets the style while painting is
/// enabled in the process, and stands alone while it is disabled. Which of the two holds is a
/// setting of the process that anyone may change.
#[verifier::external_body]
fn paint_white(text: &str) -> (painted: String)
    ensures
        is_painted(painted@, "\u{1b}[37m"@, text@),
{
    yansi::Paint::white(text).to_string()
}

/// The line on one collision, where `verb` is the painted text between the two routes.
pub open spec fn collision_line(pair: (Route, Route), verb: Seq<char>) -> Seq<char> {
    pair.0.text@ + " "@ + verb + " "@ + pair.1.text@
}

impl ErrorKind {
    /// What the kind displays.
    pub open spec fn text(self) -> Seq<char> {
        match self {
            ErrorKind::Bind(e) => "binding failed: "@ + e.text@,
            ErrorKind::Io(e) => "I/O error: "@ + e.text@,
            ErrorKind::Collision(_) => "route collisions detected"@,
            ErrorKind::FailedFairings(_) => "a launch fairing failed"@,
            ErrorKind::Runtime(e) => "runtime error: "@ + e.text@,
            ErrorKind::InsecureSecretKey(_) => "insecure secret key config"@,
        }
    }

    /// The message of the panic that an uninspected error of this kind ends in.
    pub open spec fn panic_text(self) -> Seq<char> {
        match self {
            ErrorKind::Bind(_) => "aborting due to socket bind error"@,
            ErrorKind::Io(_) => "aborting due to i/o error"@,
            ErrorKind::Collision(_) => "route collisions detected"@,
            ErrorKind::FailedFairings(_) => "aborting due to launch fairing failure"@,
            ErrorKind::Runtime(_) => "aborting due to runtime failure"@,
            ErrorKind::InsecureSecretKey(_) => "aborting due to insecure configuration"@,
        }
    }

    /// The name of the span under which the error is reported.
    pub open spec fn span(self) -> Seq<char> {
        match self {
            ErrorKind::Bind(_) => "bind_error"@,
            ErrorKind::Io(_) => "io_error"@,
            ErrorKind::Collision(_) => "collisions"@,
            ErrorKind::FailedFairings(_) => "fairing_error"@,
            ErrorKind::Runtime(_) => "runtime_error"@,
            ErrorKind::InsecureSecretKey(_) => "insecure_secret_key"@,
        }
    }

    /// The heading of the report.
    pub open spec fn heading(self) -> Seq<char> {
        match self {
            ErrorKind::Bind(_) =>
                "Rocket failed to bind network socket to given address/port."@,
            ErrorKind::Io(_) => "Rocket failed to launch due to an I/O error."@,
            ErrorKind::Collision(_) =>
                "Rocket failed to launch due to the following routing collisions:"@,
            ErrorKind::FailedFairings(_) =>
                "Rocket failed to launch due to failing fairings:"@,
            ErrorKind::Runtime(_) => "An error occured in the runtime:"@,
            ErrorKind::InsecureSecretKey(_) =>
                "secrets enabled in non-debug without `secret_key`"@,
        }
    }

    /// The number of painted texts that the report holds.
    pub open spec fn paint_count(self) -> nat {
        match self {
            ErrorKind::Collision(collisions) => collisions@.len(),
            ErrorKind::InsecureSecretKey(_) => 1,
            _ => 0,
        }
    }

    /// `paints` are the painted texts of the report, in the order in which they stand there.
    pub open spec fn are_paints(self, paints: Seq<Seq<char>>) -> bool {
        &&& paints.len() == self.paint_count()
        &&& match self {
            ErrorKind::Collision(_) => forall|i: int|
                0 <= i < paints.len() ==> is_painted(
                    #[trigger] paints[i],
                    "\u{1b}[3;31m"@,
                    "collides with"@,
                ),
            ErrorKind::InsecureSecretKey(profile) =>
                is_painted(paints[0], "\u{1b}[37m"@, profile.name@),
            _ => true,
        }
    }

    /// The lines of the report, given the painted texts.
    pub open spec fn lines(self, paints: Seq<Seq<char>>) -> Seq<Seq<char>> {
        match self {
            ErrorKind::Bind(e) => seq![e.text@],
            ErrorKind::Io(e) => seq![e.text@],
            ErrorKind::Collision(collisions) =>
                Seq::new(
                    collisions@.len(),
                    |i: int| collision_line(collisions@[i], paints[i]),
                ).push("Note: Collisions can usually be resolved by ranking routes."@),
            ErrorKind::FailedFairings(failures) =>
                Seq::new(failures@.len(), |i: int| failures@[i].name@),
            ErrorKind::Runtime(e) => seq![e.text@],
            ErrorKind::InsecureSecretKey(_) => seq![
                "selected profile: "@ + paints[0],
                "disable `secrets` feature or configure a `secret_key`"@,
            ],
        }
    }

    /// The report on an error of this kind, given the painted texts.
    pub open spec fn report_of(self, paints: Seq<Seq<char>>) -> ReportView {
        ReportView {
            span: Some(self.span()),
            heading: self.heading(),
            lines: self.lines(paints),
        }
    }

    /// What the kind displays.
    pub fn to_text(&self) -> (text: String)
        ensures
            text@ == self.text(),
    {
        match self {
            ErrorKind::Bind(e) => join("binding failed: ", e.text.as_str()),
            ErrorKind::Io(e) => join("I/O error: ", e.text.as_str()),
            ErrorKind::Collision(_) => "route collisions detected".to_owned(),
            ErrorKind::FailedFairings(_) => "a launch fairing failed".to_owned(),
            ErrorKind::Runtime(e) => join("runtime error: ", e.text.as_str()),
            ErrorKind::InsecureSecretKey(_) => "insecure secret key config".to_owned(),
        }
    }

    /// The message of the panic that an uninspected error of this kind ends in.
    pub fn panic_message(&self) -> (message: &'static str)
        ensures
            message@ == self.panic_text(),
    {
        match self {
            ErrorKind::Bind(_) => "aborting due to socket bind error",
            ErrorKind::Io(_) => "aborting due to i/o error",
            ErrorKind::Collision(_) => "route collisions detected",
            ErrorKind::FailedFairings(_) => "aborting due to launch fairing failure",
            ErrorKind::Runtime(_) => "aborting due to runtime failure",
            ErrorKind::InsecureSecretKey(_) => "aborting due to insecure configuration",
        }
    }

    /// The painted texts of the report, as the process paints at present.
    fn paint(&self) -> (paints: Vec<String>)
        ensures
            self.are_paints(texts(paints@)),
    {
        let mut paints: Vec<String> = Vec::new();
        match self {
            ErrorKind::Collision(collisions) => {
                while paints.len() < collisions.len()
                    invariant
                        paints.len() <= collisions.len(),
                        forall|i: int|
                            0 <= i < paints.len() ==> is_painted(
                                (#[trigger] paints@[i])@,
                                "\u{1b}[3;31m"@,
                                "collides with"@,
                            ),
                    decreases collisions.len() - paints.len(),
                {
                    paints.push(paint_red_italic("collides with"));
                }
            },
            ErrorKind::InsecureSecretKey(profile) => {
                paints.push(paint_white(profile.name.as_str()));
            },
            _ => {},
        }
        paints
    }

    /// The report on an error of this kind, which holds the given painted texts.
    pub fn report_with(&self, paints: &Vec<String>) -> (report: Report)
        requires
            paints@.len() == self.paint_count(),
        ensures
            report@ == self.report_of(texts(paints@)),
    {
        let mut lines: Vec<String> = Vec::new();
        let (span, heading): (&'static str, &'static str) = match self {
            ErrorKind::Bind(e) => {
                lines.push(e.text.clone());
                ("bind_error", "Rocket failed to bind network socket to given address/port.")
            },
            ErrorKind::Io(e) => {
                lines.push(e.text.clone());
                ("io_error", "Rocket failed to launch due to an I/O error.")
            },
            ErrorKind::Collision(collisions) => {
                let mut i: usize = 0;
                while i < collisions.len()
                    invariant
                        i <= collisions.len(),
                        paints@.len() == collisions@.len(),
                        lines@.len() == i,
                        forall|j: int|
                            0 <= j < i ==> (#[trigger] lines@[j])@ == collision_line(
                                collisions@[j],
                                paints@[j]@,
                            ),
                    decreases collisions.len() - i,
                {
                    let pair = &collisions[i];
                    let mut line = join(pair.0.text.as_str(), " ");
                    line.append(paints[i].as_str());
                    line.append(" ");
                    line.append(pair.1.text.as_str());
                    lines.push(line);
                    i += 1;
                }
                lines.push(
                    "Note: Collisions can usually be resolved by ranking routes.".to_owned(),
                );
                (
                    "collisions",
                    "Rocket failed to launch due to the following routing collisions:",
                )
            },
            ErrorKind::FailedFairings(failures) => {
                let mut i: usize = 0;
                while i < failures.len()
                    invariant
                        i <= failures.len(),
                        lines@.len() == i,
                        forall|j: int|
                            0 <= j < i ==> (#[trigger] lines@[j])@ == failures@[j].name@,
                    decreases failures.len() - i,
                {
                    lines.push(failures[i].name.to_owned());
                    i += 1;
                }
                ("fairing_error", "Rocket failed to launch due to failing fairings:")
            },
            ErrorKind::Runtime(e) => {
                lines.push(e.text.clone());
                ("runtime_error", "An error occured in the runtime:")
            },
            ErrorKind::InsecureSecretKey(_) => {
                lines.push(join("selected profile: ", paints[0].as_str()));
                lines.push("disable `secrets` feature or configure a `secret_key`".to_owned());
                ("insecure_secret_key", "secrets enabled in non-debug without `secret_key`")
            },
        };
        Report { span: Some(span), heading: heading.to_owned(), lines }
    }

    /// The report on an error of this kind, painted as the process paints at present.
    pub fn report(&self) -> (report: Report)
        ensures
            exists|paints: Seq<Seq<char>>|
                self.are_paints(paints) && report@ == #[trigger] self.report_of(paints),
    {
        let paints = self.paint();
        self.report_with(&paints)
    }
}

/// An error that occurs during launch.
///
/// An `Error` is returned when launching an application fails or, more rarely, when the runtime
/// fails after launching.
///
/// # Panics
///
/// A value of this type is to panic if it is dropped without first being inspected; its owner
/// asks [`Error::on_drop`] what to do. An _inspection_ occurs when any method is called. When a
/// value panics, the corresponding error message is pretty-printed to the console.
///
/// # Usage
///
/// An `Error` value should usually be allowed to drop without inspection. There are at least two
/// exceptions:
///
///   1. If you are writing a library or high-level application on-top of Rocket, you likely want
///      to inspect the value before it drops to avoid a Rocket-specific panic. This typically
///      means simply printing the value.
///
///   2. You want to display your own error messages.
pub struct Error {
    handled: bool,
    kind: ErrorKind,
}

/// What an [`Error`] holds.
pub struct ErrorView {
    /// Whether the error was inspected.
    pub handled: bool,
    pub kind: ErrorKind,
}

impl View for Error {
    type V = ErrorView;

    closed spec fn view(&self) -> ErrorView {
        ErrorView { handled: self.handled, kind: self.kind }
    }
}

impl ErrorView {
    /// An error that nobody has inspected yet.
    pub open spec fn fresh(kind: ErrorKind) -> ErrorView {
        ErrorView { handled: false, kind }
    }

    /// The error after an inspection.
    pub open spec fn inspected(self) -> ErrorView {
        ErrorView { handled: true, kind: self.kind }
    }

    /// The error panics if it is dropped now.
    pub open spec fn panics_on_drop(self) -> bool {
        !self.handled
    }
}

/// What an error that is dropped uninspected does: it writes the report, then panics.
#[derive(Debug)]
pub struct Abort {
    pub report: Report,
    /// The message of the panic.
    pub panic: &'static str,
}

impl Abort {
    /// This is how an error of kind `kind` aborts, painted in one of the ways the process may
    /// paint.
    pub open spec fn is_for(self, kind: ErrorKind) -> bool {
        &&& self.panic@ == kind.panic_text()
        &&& exists|paints: Seq<Seq<char>>|
            kind.are_paints(paints) && self.report@ == #[trigger] kind.report_of(paints)
    }
}

impl Error {
    /// A launch error of the given kind, not inspected yet.
    pub fn new(kind: ErrorKind) -> (error: Error)
        ensures
            error@ == ErrorView::fresh(kind),
    {
        Error { handled: false, kind }
    }

    /// Whether the error was inspected.
    fn was_handled(&self) -> (handled: bool)
        ensures
            handled == self@.handled,
    {
        self.handled
    }

    /// Marks the error as inspected.
    fn mark_handled(&mut self)
        ensures
            final(self)@ == old(self)@.inspected(),
    {
        self.handled = true;
    }

    /// Retrieves the kind of the launch error, which inspects it.
    pub fn kind(&mut self) -> (kind: &ErrorKind)
        ensures
            *kind == old(self)@.kind,
            final(self)@ == old(self)@.inspected(),
    {
        self.mark_handled();
        &self.kind
    }

    /// What the error displays, which is what its kind displays. Displaying it inspects it.
    pub fn to_text(&mut self) -> (text: String)
        ensures
            text@ == old(self)@.kind.text(),
            final(self)@ == old(self)@.inspected(),
    {
        self.mark_handled();
        self.kind().to_text()
    }

    /// What the owner of the error does as it drops it: nothing if the error was inspected, else
    /// it writes the report and panics.
    pub fn on_drop(&mut self) -> (abort: Option<Abort>)
        ensures
            abort is Some <==> old(self)@.panics_on_drop(),
            abort matches Some(a) ==> a.is_for(old(self)@.kind),
            final(self)@ == old(self)@.inspected(),
    {
        if self.was_handled() {
            return None;
        }
        let kind = self.kind();
        Some(Abort { report: kind.report(), panic: kind.panic_message() })
    }
}

impl From<ErrorKind> for Error {
    fn from(kind: ErrorKind) -> (error: Self) {
        Error::new(kind)
    }
}

impl vstd::std_specs::convert::FromSpecImpl<ErrorKind> for Error {
    open spec fn obeys_from_spec() -> bool {
        true
    }

    closed spec fn from_spec(kind: ErrorKind) -> Error {
        Error { handled: false, kind }
    }
}

/// A launch error made from its kind holds that kind and was not inspected.
pub proof fn error_from_kind_is_fresh(kind: ErrorKind)
    ensures
        <Error as vstd::std_specs::convert::FromSpec<ErrorKind>>::from_spec(kind)@
            == ErrorView::fresh(kind),
{
}

/// A launch error that nobody inspected panics as it is dropped.
pub proof fn uninspected_error_panics(kind: ErrorKind)
    ensures
        ErrorView::fresh(kind).panics_on_drop(),
{
}

/// Once a launch error was inspected it is dropped in silence, and no further inspection
/// changes it; inspecting never changes its kind.
pub proof fn inspected_error_is_silent(error: ErrorView)
    ensures
        !error.inspected().panics_on_drop(),
        error.inspected().inspected() == error.inspected(),
        error.inspected().kind == error.kind,
{
}

/// An error in a URI, by the message it displays.
#[derive(Debug)]
pub enum UriError<'a> {
    /// The message is part of something else.
    Borrowed(&'a str),
    /// The message is the error's own.
    Owned(String),
}

impl<'a> View for UriError<'a> {
    type V = Seq<char>;

    open spec fn view(&self) -> Seq<char> {
        match self {
            UriError::Borrowed(text) => text@,
            UriError::Owned(text) => text@,
        }
    }
}

impl<'a> UriError<'a> {
    /// The same error, which borrows from nothing.
    pub fn into_owned(self) -> (error: UriError<'static>)
        ensures
            error is Owned,
            error@ == self@,
    {
        match self {
            UriError::Borrowed(text) => UriError::Owned(text.to_owned()),
            UriError::Owned(text) => UriError::Owned(text),
        }
    }

    /// What the error displays.
    pub fn to_text(&self) -> (text: String)
        ensures
            text@ == self@,
    {
        match self {
            UriError::Borrowed(text) => (*text).to_owned(),
            UriError::Owned(text) => text.clone(),
        }
    }
}

/// Error returned when a route is mounted at an invalid URI.
#[derive(Debug)]
pub enum RouteUriError {
    /// The route URI is not a valid URI.
    Uri(UriError<'static>),
    /// The base (mount point) contains dynamic segments.
    DynamicBase,
}

impl RouteUriError {
    /// What the error displays.
    pub open spec fn text(self) -> Seq<char> {
        match self {
            RouteUriError::DynamicBase => "Mount point contains dynamic parameters."@,
            RouteUriError::Uri(error) => "Malformed URI: "@ + error@,
        }
    }

    /// What the error displays.
    pub fn to_text(&self) -> (text: String)
        ensures
            text@ == self.text(),
    {
        match self {
            RouteUriError::DynamicBase => "Mount point contains dynamic parameters.".to_owned(),
            RouteUriError::Uri(error) => {
                let message = error.to_text();
                join("Malformed URI: ", message.as_str())
            },
        }
    }
}

impl<'a> From<UriError<'a>> for RouteUriError {
    fn from(error: UriError<'a>) -> (route_error: Self)
        ensures
            route_error is Uri,
            route_error->Uri_0 is Owned,
            route_error->Uri_0@ == error@,
    {
        RouteUriError::Uri(error.into_owned())
    }
}

/// Which of the equal copies of the message an error ends up with is left open, so the
/// conversion is specified by the `ensures` of `from`.
impl<'a> vstd::std_specs::convert::FromSpecImpl<UriError<'a>> for RouteUriError {
    open spec fn obeys_from_spec() -> bool {
        false
    }

    open spec fn from_spec(error: UriError<'a>) -> RouteUriError {
        choose|r: RouteUriError| r is Uri && r->Uri_0 is Owned && r->Uri_0@ == error@
    }
}

} // verus!
