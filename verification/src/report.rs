//! Messages for the log.

use vstd::prelude::*;

verus! {

/// A message for the log: a heading, and the lines that are written under it.
#[derive(Debug)]
pub struct Report {
    /// The name of the span under which the lines are written, if they have one of their own.
    pub span: Option<&'static str>,
    /// What happened.
    pub heading: String,
    /// The details, in the order in which they are written.
    pub lines: Vec<String>,
}

/// The text of a [`Report`].
#[verifier::ext_equal]
pub struct ReportView {
    pub span: Option<Seq<char>>,
    pub heading: Seq<char>,
    pub lines: Seq<Seq<char>>,
}

/// The texts of a list of strings.
pub open spec fn texts(strings: Seq<String>) -> Seq<Seq<char>> {
    strings.map_values(|s: String| s@)
}

impl View for Report {
    type V = ReportView;

    open spec fn view(&self) -> ReportView {
        ReportView {
            span: match self.span {
                Some(name) => Some(name@),
                None => None,
            },
            heading: self.heading@,
            lines: texts(self.lines@),
        }
    }
}

/// A report of one line, in no span of its own.
pub open spec fn headline(heading: Seq<char>) -> ReportView {
    ReportView { span: None, heading, lines: Seq::empty() }
}

impl Report {
    /// A report of one line, in no span of its own.
    pub fn headline(heading: String) -> (report: Report)
        ensures
            report@ == headline(heading@),
    {
        Report { span: None, heading, lines: Vec::new() }
    }
}

/// `first` followed by `second`.
pub fn join(first: &str, second: &str) -> (joined: String)
    ensures
        joined@ == first@ + second@,
{
    let mut joined = String::new();
    joined.append(first);
    joined.append(second);
    joined
}

} // verus!
