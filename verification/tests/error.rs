use rocket::error::{
    Error, ErrorKind, Info, IoError, Profile, Route, RouteUriError, RuntimeError,
    UriError,
};

fn io(text: &str) -> IoError {
    IoError { text: text.to_string() }
}

fn route(text: &str) -> Route {
    Route { text: text.to_string() }
}

fn profile(name: &str) -> ErrorKind {
    ErrorKind::InsecureSecretKey(Profile { name: name.to_string() })
}

fn collision() -> ErrorKind {
    ErrorKind::Collision(vec![
        (route("GET /a"), route("GET /<b>")),
        (route("POST /"), route("POST /")),
    ])
}

#[test]
fn kinds_display_themselves() {
    assert_eq!(ErrorKind::Bind(io("in use")).to_text(), "binding failed: in use");
    assert_eq!(ErrorKind::Io(io("gone")).to_text(), "I/O error: gone");
    let runtime = RuntimeError { text: "down".to_string() };
    assert_eq!(ErrorKind::Runtime(runtime).to_text(), "runtime error: down");
    assert_eq!(collision().to_text(), "route collisions detected");
    assert_eq!(ErrorKind::FailedFairings(vec![]).to_text(), "a launch fairing failed");
    assert_eq!(profile("release").to_text(), "insecure secret key config");
}

#[test]
fn uninspected_bind_error_aborts() {
    let mut error = Error::new(ErrorKind::Bind(io("address in use")));
    let abort = error.on_drop().unwrap();
    assert_eq!(abort.panic, "aborting due to socket bind error");
    assert_eq!(abort.report.span, Some("bind_error"));
    assert_eq!(
        abort.report.heading,
        "Rocket failed to bind network socket to given address/port."
    );
    assert_eq!(abort.report.lines, vec!["address in use"]);
}

#[test]
fn uninspected_io_and_runtime_errors_abort() {
    let abort = Error::from(ErrorKind::Io(io("pipe"))).on_drop().unwrap();
    assert_eq!(abort.panic, "aborting due to i/o error");
    assert_eq!(abort.report.span, Some("io_error"));
    assert_eq!(abort.report.heading, "Rocket failed to launch due to an I/O error.");
    assert_eq!(abort.report.lines, vec!["pipe"]);

    let runtime = ErrorKind::Runtime(RuntimeError { text: "boom".to_string() });
    let abort = Error::from(runtime).on_drop().unwrap();
    assert_eq!(abort.panic, "aborting due to runtime failure");
    assert_eq!(abort.report.span, Some("runtime_error"));
    assert_eq!(abort.report.heading, "An error occured in the runtime:");
    assert_eq!(abort.report.lines, vec!["boom"]);
}

#[test]
fn uninspected_fairing_error_names_the_fairings() {
    let kind = ErrorKind::FailedFairings(vec![Info { name: "Templates" }, Info { name: "Db" }]);
    let abort = Error::new(kind).on_drop().unwrap();
    assert_eq!(abort.panic, "aborting due to launch fairing failure");
    assert_eq!(abort.report.span, Some("fairing_error"));
    assert_eq!(abort.report.heading, "Rocket failed to launch due to failing fairings:");
    assert_eq!(abort.report.lines, vec!["Templates", "Db"]);
}

#[test]
fn reports_are_painted_while_painting_is_enabled() {
    yansi::Paint::enable();
    let abort = Error::new(collision()).on_drop().unwrap();
    assert_eq!(abort.panic, "route collisions detected");
    assert_eq!(abort.report.span, Some("collisions"));
    assert_eq!(
        abort.report.heading,
        "Rocket failed to launch due to the following routing collisions:"
    );
    assert_eq!(
        abort.report.lines,
        vec![
            "GET /a \u{1b}[3;31mcollides with\u{1b}[0m GET /<b>",
            "POST / \u{1b}[3;31mcollides with\u{1b}[0m POST /",
            "Note: Collisions can usually be resolved by ranking routes.",
        ]
    );
    let abort = Error::new(profile("Release")).on_drop().unwrap();
    assert_eq!(abort.panic, "aborting due to insecure configuration");
    assert_eq!(abort.report.span, Some("insecure_secret_key"));
    assert_eq!(abort.report.heading, "secrets enabled in non-debug without `secret_key`");
    assert_eq!(
        abort.report.lines,
        vec![
            "selected profile: \u{1b}[37mRelease\u{1b}[0m",
            "disable `secrets` feature or configure a `secret_key`",
        ]
    );

    yansi::Paint::disable();
    let abort = Error::new(collision()).on_drop().unwrap();
    assert_eq!(abort.report.lines[0], "GET /a collides with GET /<b>");
    let abort = Error::new(profile("Release")).on_drop().unwrap();
    assert_eq!(abort.report.lines[0], "selected profile: Release");
    yansi::Paint::enable();
}

#[test]
fn report_holds_the_given_paints() {
    let report = collision().report_with(&vec!["vs".to_string(), "~".to_string()]);
    assert_eq!(report.lines[0], "GET /a vs GET /<b>");
    assert_eq!(report.lines[1], "POST / ~ POST /");
    assert_eq!(report.lines.len(), 3);
    let report = profile("x").report_with(&vec!["_x_".to_string()]);
    assert_eq!(report.lines[0], "selected profile: _x_");
}

#[test]
fn inspected_error_drops_in_silence() {
    let mut error = Error::new(ErrorKind::Io(io("a")));
    assert!(matches!(error.kind(), ErrorKind::Io(e) if e.text == "a"));
    assert!(error.on_drop().is_none());

    let mut error = Error::new(ErrorKind::Io(io("b")));
    assert_eq!(error.to_text(), "I/O error: b");
    assert!(error.on_drop().is_none());
}

#[test]
fn error_aborts_once() {
    let mut error = Error::new(ErrorKind::Io(io("a")));
    assert!(error.on_drop().is_some());
    assert!(error.on_drop().is_none());
}

#[test]
fn route_uri_errors_display_themselves() {
    assert_eq!(
        RouteUriError::DynamicBase.to_text(),
        "Mount point contains dynamic parameters."
    );
    let text = String::from("unexpected '<' at index 3");
    let error = RouteUriError::from(UriError::Borrowed(&text));
    assert!(matches!(&error, RouteUriError::Uri(UriError::Owned(t)) if *t == text));
    assert_eq!(error.to_text(), "Malformed URI: unexpected '<' at index 3");
    let error = RouteUriError::from(UriError::Owned("bad".to_string()));
    assert_eq!(error.to_text(), "Malformed URI: bad");
}
