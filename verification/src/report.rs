//! Error reports and the rendering of the final error line.
//!
//! A handler failure carries a message and optional hint lines. The core
//! renders the message as one line, `error: <message>`; a host styles the
//! leading `error` token when it writes the line to its output stream.

use vstd::prelude::*;

verus! {

/// A recoverable failure from a handler or from the router itself: a
/// message plus zero or more suggestion lines.
pub struct ErrorReport {
    message: String,
    hints: Vec<String>,
}

/// Mathematical model of an [`ErrorReport`].
pub struct ReportModel {
    pub message: Seq<char>,
    pub hints: Seq<Seq<char>>,
}

impl View for ErrorReport {
    type V = ReportModel;

    closed spec fn view(&self) -> ReportModel {
        ReportModel { message: self.message@, hints: crate::args::string_views(self.hints@) }
    }
}

impl ErrorReport {
    /// A report with the given message and no hints.
    pub fn new(message: String) -> (r: ErrorReport)
        ensures
            r@.message == message@,
            r@.hints == Seq::<Seq<char>>::empty(),
    {
        let r = ErrorReport { message, hints: Vec::new() };
        proof {
            assert(r@.hints =~= Seq::<Seq<char>>::empty());
        }
        r
    }

    /// Attach one more suggestion line to the report.
    pub fn with_hint(self, hint: String) -> (r: ErrorReport)
        ensures
            r@.message == self@.message,
            r@.hints == self@.hints.push(hint@),
    {
        let mut hints = self.hints;
        hints.push(hint);
        let r = ErrorReport { message: self.message, hints };
        proof {
            assert(r@.hints =~= self@.hints.push(hint@));
        }
        r
    }

    /// The report's message.
    pub fn message(&self) -> (r: &str)
        ensures
            r@ == self@.message,
    {
        self.message.as_str()
    }

    /// The report's suggestion lines, in the order they were attached.
    pub fn hints(&self) -> (r: &Vec<String>)
        ensures
            crate::args::string_views(r@) == self@.hints,
    {
        &self.hints
    }
}

/// The one line the reporter emits for a message, styling aside.
pub open spec fn spec_error_line(message: Seq<char>) -> Seq<char> {
    "error: "@ + message
}

/// Render the final error line for a message: the literal token `error`,
/// then `: ` and the message.
pub fn render_error_line(message: &str) -> (r: String)
    ensures
        r@ == spec_error_line(message@),
{
    let mut line = String::from_str("error: ");
    line.append(message);
    line
}

} // verus!
