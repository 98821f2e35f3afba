//! The diagnostics sink: an append-only log of messages about one file.

use vstd::prelude::*;

verus! {

/// How serious a message is.
#[derive(Clone, Copy, Debug, PartialEq, Eq, Structural)]
pub enum Severity {
    /// The file does not conform.
    Error,
    /// Suspicious, but the file may still conform.
    Warning,
}

/// A place inside a file. Rows and columns are counted from one.
#[derive(Clone, Copy, Debug, PartialEq, Eq, Structural)]
pub struct Place {
    pub row: usize,
    pub column: Option<usize>,
}

/// Where a message points: a file, and a place inside it where one is known.
#[derive(Clone, Debug, PartialEq, Eq)]
pub struct Location {
    pub file: String,
    pub place: Option<Place>,
}

/// One entry of a report.
#[derive(Clone, Debug, PartialEq, Eq)]
pub struct Message {
    pub severity: Severity,
    pub location: Location,
    pub text: String,
}

/// Accumulates the messages about one file, in the order in which they were
/// pushed. Messages are never changed, dropped or reordered.
#[derive(Debug)]
pub struct Report {
    path: String,
    messages: Vec<Message>,
}

/// The mathematical value of a [`Location`].
pub struct LocationView {
    pub file: Seq<char>,
    pub place: Option<Place>,
}

/// The mathematical value of a [`Message`].
pub struct MessageView {
    pub severity: Severity,
    pub location: LocationView,
    pub text: Seq<char>,
}

/// The mathematical value of a [`Report`].
#[verifier::ext_equal]
pub struct ReportView {
    pub path: Seq<char>,
    pub messages: Seq<MessageView>,
}

/// How many of `messages` have the given severity.
pub open spec fn count_severity(messages: Seq<MessageView>, severity: Severity) -> nat
    decreases messages.len(),
{
    if messages.len() == 0 {
        0
    } else {
        count_severity(messages.drop_last(), severity) + if messages.last().severity
            == severity {
            1nat
        } else {
            0nat
        }
    }
}

/// The message that a report about `path` stores for a push.
pub open spec fn stamped(
    path: Seq<char>,
    severity: Severity,
    place: Option<Place>,
    text: Seq<char>,
) -> MessageView {
    MessageView { severity, location: LocationView { file: path, place }, text }
}

impl View for Location {
    type V = LocationView;

    open spec fn view(&self) -> LocationView {
        LocationView { file: self.file@, place: self.place }
    }
}

impl View for Message {
    type V = MessageView;

    open spec fn view(&self) -> MessageView {
        MessageView { severity: self.severity, location: self.location@, text: self.text@ }
    }
}

impl View for Report {
    type V = ReportView;

    closed spec fn view(&self) -> ReportView {
        ReportView {
            path: self.path@,
            messages: Seq::new(self.messages@.len(), |i: int| self.messages@[i]@),
        }
    }
}

impl ReportView {
    /// The number of errors in the log.
    pub open spec fn errors(self) -> nat {
        count_severity(self.messages, Severity::Error)
    }

    /// The number of warnings in the log.
    pub open spec fn warnings(self) -> nat {
        count_severity(self.messages, Severity::Warning)
    }

    /// This report with `more` appended to its log.
    pub open spec fn extended(self, more: Seq<MessageView>) -> ReportView {
        ReportView { path: self.path, messages: self.messages + more }
    }

    /// This report after a push.
    pub open spec fn pushed(self, severity: Severity, place: Option<Place>, text: Seq<char>)
        -> ReportView {
        self.extended(seq![stamped(self.path, severity, place, text)])
    }
}

/// Appending nothing leaves a report as it is, and appending twice appends
/// the concatenation.
pub proof fn lemma_extended(report: ReportView, a: Seq<MessageView>, b: Seq<MessageView>)
    ensures
        report.extended(Seq::empty()) == report,
        report.extended(a).extended(b) == report.extended(a + b),
{
    assert(report.extended(Seq::empty()) =~= report);
    assert(report.extended(a).extended(b) =~= report.extended(a + b));
}

/// Counting over a log with one more message.
pub proof fn lemma_count_push(messages: Seq<MessageView>, m: MessageView, severity: Severity)
    ensures
        count_severity(messages.push(m), severity) == count_severity(messages, severity) + if m.severity
            == severity {
            1nat
        } else {
            0nat
        },
{
    assert(messages.push(m).drop_last() =~= messages);
}

/// Counts add up over concatenation, and no count exceeds the length of the log.
pub proof fn lemma_count_concat(a: Seq<MessageView>, b: Seq<MessageView>, severity: Severity)
    ensures
        count_severity(a + b, severity) == count_severity(a, severity) + count_severity(b, severity),
        count_severity(a, severity) <= a.len(),
    decreases b.len(), a.len(),
{
    if a.len() > 0 {
        lemma_count_concat(a.drop_last(), Seq::empty(), severity);
    }
    if b.len() == 0 {
        assert(a + b =~= a);
    } else {
        lemma_count_concat(a, b.drop_last(), severity);
        assert((a + b).drop_last() =~= a + b.drop_last());
    }
}

impl Report {
    /// Creates an empty report about the file at `path`.
    pub fn new(path: String) -> (report: Report)
        ensures
            report@ == (ReportView { path: path@, messages: Seq::empty() }),
    {
        let report = Report { path, messages: Vec::new() };
        assert(report@.messages =~= Seq::empty());
        report
    }

    /// The path of the file that this report is about.
    pub fn path(&self) -> (path: &str)
        ensures
            path@ == self@.path,
    {
        self.path.as_str()
    }

    /// The number of messages in the log.
    pub fn len(&self) -> (n: usize)
        ensures
            n == self@.messages.len(),
    {
        self.messages.len()
    }

    /// The message at index `i` of the log.
    pub fn message(&self, i: usize) -> (m: &Message)
        requires
            i < self@.messages.len(),
        ensures
            m@ == self@.messages[i as int],
    {
        &self.messages[i]
    }

    /// Appends a message. Its location is the file of this report, with
    /// `place` where a place inside the file is given.
    pub fn push(&mut self, severity: Severity, place: Option<Place>, text: String)
        ensures
            final(self)@ == old(self)@.pushed(severity, place, text@),
    {
        let location = Location { file: self.path.clone(), place };
        self.messages.push(Message { severity, location, text });
        assert(self@.messages =~= old(self)@.pushed(severity, place, text@).messages);
    }

    /// Reports an error, which makes the file non-conforming.
    pub fn error(&mut self, text: &str)
        ensures
            final(self)@ == old(self)@.pushed(Severity::Error, None, text@),
    {
        self.push(Severity::Error, None, text.to_owned());
    }

    /// Reports a warning, which lets the file pass with a note.
    pub fn warning(&mut self, text: &str)
        ensures
            final(self)@ == old(self)@.pushed(Severity::Warning, None, text@),
    {
        self.push(Severity::Warning, None, text.to_owned());
    }

    /// Returns how many messages there are of (errors, warnings).
    pub fn count_messages(&self) -> (counts: (usize, usize))
        ensures
            counts.0 == self@.errors(),
            counts.1 == self@.warnings(),
            counts.0 + counts.1 == self@.messages.len(),
    {
        let mut errors: usize = 0;
        let mut warnings: usize = 0;
        let mut i: usize = 0;
        while i < self.messages.len()
            invariant
                i <= self.messages.len(),
                errors == count_severity(self@.messages.take(i as int), Severity::Error),
                warnings == count_severity(self@.messages.take(i as int), Severity::Warning),
                errors + warnings == i,
            decreases self.messages.len() - i,
        {
            proof {
                let seen = self@.messages.take(i as int);
                let m = self@.messages[i as int];
                assert(self@.messages.take(i + 1) =~= seen.push(m));
                lemma_count_push(seen, m, Severity::Error);
                lemma_count_push(seen, m, Severity::Warning);
            }
            match self.messages[i].severity {
                Severity::Error => {
                    errors += 1;
                },
                Severity::Warning => {
                    warnings += 1;
                },
            }
            i += 1;
        }
        assert(self@.messages.take(i as int) =~= self@.messages);
        (errors, warnings)
    }
}

} // verus!
