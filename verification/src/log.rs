//! Diagnostics as text.
//!
//! Nothing here prints. A function that has something to report returns it as
//! a [`LogLine`], or as the lines of a [`LogMessage`], and the caller writes
//! informational lines to standard output and error lines to standard error.

use vstd::prelude::*;
use vstd::string::*;

verus! {

/// What every informational line starts with.
pub open spec fn info_prefix() -> Seq<char> {
    "<allog> [+] "@
}

/// What every error line starts with.
pub open spec fn error_prefix() -> Seq<char> {
    "<allog> [!] "@
}

/// An informational line for standard output, without its trailing newline.
pub fn logln(text: &str) -> (line: String)
    ensures
        line@ == info_prefix() + text@,
{
    let mut line = String::from_str("<allog> [+] ");
    line.append(text);
    line
}

/// An error line for standard error, without its trailing newline.
pub fn elogln(text: &str) -> (line: String)
    ensures
        line@ == error_prefix() + text@,
{
    let mut line = String::from_str("<allog> [!] ");
    line.append(text);
    line
}

/// One diagnostic, by where it goes: the text is what follows the prefix.
#[derive(Debug, PartialEq, Eq)]
pub enum LogLine {
    /// For standard output.
    Info(String),
    /// For standard error.
    Error(String),
}

/// A diagnostic as plain values.
pub enum LogLineView {
    Info(Seq<char>),
    Error(Seq<char>),
}

impl View for LogLine {
    type V = LogLineView;

    open spec fn view(&self) -> LogLineView {
        match self {
            LogLine::Info(text) => LogLineView::Info(text@),
            LogLine::Error(text) => LogLineView::Error(text@),
        }
    }
}

impl LogLineView {
    /// The line as it is written: the prefix of its kind, then the text.
    pub open spec fn rendered(self) -> Seq<char> {
        match self {
            LogLineView::Info(text) => info_prefix() + text,
            LogLineView::Error(text) => error_prefix() + text,
        }
    }
}

impl LogLine {
    /// Whether the line goes to standard error.
    pub fn is_error(&self) -> (error: bool)
        ensures
            error == (self@ is Error),
    {
        match self {
            LogLine::Info(_) => false,
            LogLine::Error(_) => true,
        }
    }

    /// The line as it is written, without its trailing newline.
    pub fn render(&self) -> (line: String)
        ensures
            line@ == self@.rendered(),
    {
        match self {
            LogLine::Info(text) => logln(text.as_str()),
            LogLine::Error(text) => elogln(text.as_str()),
        }
    }
}

/// The lines of a message of several parts: each part on a line of its own
/// behind `prefix`, the parts after the first indented by two spaces.
pub open spec fn message_lines(prefix: Seq<char>, parts: Seq<Seq<char>>) -> Seq<Seq<char>> {
    Seq::new(
        parts.len(),
        |i: int|
            if i == 0 {
                prefix + parts[i]
            } else {
                prefix + "  "@ + parts[i]
            },
    )
}

/// A message of several parts, logged as one block.
pub struct LogMessage(Vec<String>);

impl View for LogMessage {
    type V = Seq<Seq<char>>;

    closed spec fn view(&self) -> Seq<Seq<char>> {
        self.0.deep_view()
    }
}

impl LogMessage {
    /// A message without parts.
    pub fn new() -> (message: Self)
        ensures
            message@ == Seq::<Seq<char>>::empty(),
    {
        let message = LogMessage(Vec::new());
        assert(message@ =~= Seq::empty());
        message
    }

    /// Adds a part at the end.
    pub fn push(&mut self, message: String)
        ensures
            final(self)@ == old(self)@.push(message@),
    {
        self.0.push(message);
        assert(self@ =~= old(self)@.push(message@));
    }

    /// The number of parts.
    pub fn len(&self) -> (len: usize)
        ensures
            len == self@.len(),
    {
        self.0.len()
    }

    /// The part at `index`.
    pub fn part(&self, index: usize) -> (part: &String)
        requires
            index < self@.len(),
        ensures
            part@ == self@[index as int],
    {
        &self.0[index]
    }

    /// Replaces the part at `index`.
    pub fn set_part(&mut self, index: usize, part: String)
        requires
            index < old(self)@.len(),
        ensures
            final(self)@ == old(self)@.update(index as int, part@),
    {
        self.0[index] = part;
        assert(self@ =~= old(self)@.update(index as int, part@));
    }

    fn lines(&self, prefix: &str) -> (lines: Vec<String>)
        ensures
            lines.deep_view() == message_lines(prefix@, self@),
    {
        let mut lines: Vec<String> = Vec::new();
        let mut i: usize = 0;
        while i < self.0.len()
            invariant
                i <= self.0.len(),
                lines.len() == i,
                forall|j: int|
                    0 <= j < i ==> (#[trigger] lines[j])@ == message_lines(prefix@, self@)[j],
            decreases self.0.len() - i,
        {
            let mut line = String::from_str(prefix);
            if i > 0 {
                line.append("  ");
            }
            line.append(self.0[i].as_str());
            lines.push(line);
            i += 1;
        }
        assert(lines.deep_view() =~= message_lines(prefix@, self@));
        lines
    }

    /// The message as informational lines for standard output, in order,
    /// without trailing newlines.
    pub fn log(self) -> (lines: Vec<String>)
        ensures
            lines.deep_view() == message_lines(info_prefix(), self@),
    {
        self.lines("<allog> [+] ")
    }

    /// The message as error lines for standard error, in order, without
    /// trailing newlines.
    pub fn elog(self) -> (lines: Vec<String>)
        ensures
            lines.deep_view() == message_lines(error_prefix(), self@),
    {
        self.lines("<allog> [!] ")
    }
}

} // verus!
