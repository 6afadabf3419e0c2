//! The shell: the one place that decides what reaches the user.
//!
//! A `Shell` collects what is written to the standard output and to the
//! standard error stream in two buffers. Whoever owns the process drains the
//! buffers into the real streams; nothing here touches them.

use vstd::prelude::*;
use crate::cli::text::push_char;

verus! {

/// How much output the user asked for, in the order
/// `Quiet < Normal < Verbose`.
#[derive(Clone, Copy, Debug, PartialEq, Eq, Structural, PartialOrd, Ord, Hash)]
pub enum Verbosity {
    Quiet,
    Normal,
    Verbose,
}

/// Escape sequence that resets every text attribute.
pub const STYLE_RESET: &'static str = "\x1b[0m";

/// Bold green: the label of a status line.
pub const STYLE_STATUS: &'static str = "\x1b[1m\x1b[32m";

/// Bold red: the label of an error.
pub const STYLE_ERROR: &'static str = "\x1b[1m\x1b[31m";

/// Bold yellow: the label of a warning.
pub const STYLE_WARNING: &'static str = "\x1b[1m\x1b[33m";

/// Bold cyan: the label of a note.
pub const STYLE_NOTE: &'static str = "\x1b[1m\x1b[36m";

/// A label as it is written: framed by `style` and a reset when colors are
/// on, bare when they are off.
pub open spec fn styled(label: Seq<char>, style: Seq<char>, color: bool) -> Seq<char> {
    if color {
        style + label + STYLE_RESET@
    } else {
        label
    }
}

/// A status line: the styled label, a space, the message, a line feed.
pub open spec fn status_line(label: Seq<char>, message: Seq<char>, color: bool) -> Seq<char> {
    styled(label, STYLE_STATUS@, color) + seq![' '] + message + seq!['\n']
}

/// A diagnostic line: the styled label, a colon, a space, the message, a
/// line feed.
pub open spec fn labelled_line(
    label: Seq<char>,
    style: Seq<char>,
    message: Seq<char>,
    color: bool,
) -> Seq<char> {
    styled(label, style, color) + seq![':', ' '] + message + seq!['\n']
}

/// The line `error: {message}`.
pub open spec fn error_line(message: Seq<char>, color: bool) -> Seq<char> {
    labelled_line("error"@, STYLE_ERROR@, message, color)
}

/// The line `warning: {message}`.
pub open spec fn warning_line(message: Seq<char>, color: bool) -> Seq<char> {
    labelled_line("warning"@, STYLE_WARNING@, message, color)
}

/// The line `note: {message}`.
pub open spec fn note_line(message: Seq<char>, color: bool) -> Seq<char> {
    labelled_line("note"@, STYLE_NOTE@, message, color)
}

/// What a shell is, as far as its callers can tell.
#[verifier::ext_equal]
pub struct ShellView {
    pub verbosity: Verbosity,
    pub color: bool,
    /// Everything written to the standard output so far and not yet drained.
    pub out: Seq<char>,
    /// Everything written to the standard error stream so far and not yet
    /// drained.
    pub err: Seq<char>,
}

impl ShellView {
    /// The shell after `text` went to the standard output.
    pub open spec fn write_out(self, text: Seq<char>) -> ShellView {
        ShellView { out: self.out + text, ..self }
    }

    /// The shell after `text` went to the standard error stream.
    pub open spec fn write_err(self, text: Seq<char>) -> ShellView {
        ShellView { err: self.err + text, ..self }
    }

    /// The shell after `status(label, message)`: a quiet shell stays as it
    /// is.
    pub open spec fn status(self, label: Seq<char>, message: Seq<char>) -> ShellView {
        if self.verbosity == Verbosity::Quiet {
            self
        } else {
            self.write_out(status_line(label, message, self.color))
        }
    }

    /// The shell after `error(message)`: errors are never suppressed.
    pub open spec fn error(self, message: Seq<char>) -> ShellView {
        self.write_err(error_line(message, self.color))
    }

    /// The shell after `warn(message)`: a quiet shell stays as it is.
    pub open spec fn warn(self, message: Seq<char>) -> ShellView {
        if self.verbosity == Verbosity::Quiet {
            self
        } else {
            self.write_err(warning_line(message, self.color))
        }
    }

    /// The shell after `note(message)`: a quiet shell stays as it is.
    pub open spec fn note(self, message: Seq<char>) -> ShellView {
        if self.verbosity == Verbosity::Quiet {
            self
        } else {
            self.write_err(note_line(message, self.color))
        }
    }
}

/// Output state of the process: verbosity, color policy and the text
/// written so far.
#[derive(Debug)]
pub struct Shell {
    verbosity: Verbosity,
    color: bool,
    out: String,
    err: String,
}

impl View for Shell {
    type V = ShellView;

    closed spec fn view(&self) -> ShellView {
        ShellView {
            verbosity: self.verbosity,
            color: self.color,
            out: self.out@,
            err: self.err@,
        }
    }
}

/// Appends `label`, styled by `style` when `color` is on, to `buf`.
fn push_styled(buf: &mut String, label: &str, style: &str, color: bool)
    ensures
        final(buf)@ == old(buf)@ + styled(label@, style@, color),
{
    if color {
        buf.append(style);
        buf.append(label);
        buf.append(STYLE_RESET);
    } else {
        buf.append(label);
    }
}

/// Appends the diagnostic line of `label` and `message` to `buf`.
fn push_labelled(buf: &mut String, label: &str, style: &str, message: &str, color: bool)
    ensures
        final(buf)@ == old(buf)@ + labelled_line(label@, style@, message@, color),
{
    push_styled(buf, label, style, color);
    push_char(buf, ':');
    push_char(buf, ' ');
    buf.append(message);
    push_char(buf, '\n');
}

impl Shell {
    /// A shell at normal verbosity, without colors, that has written nothing.
    pub fn new() -> (shell: Shell)
        ensures
            shell@ == (ShellView {
                verbosity: Verbosity::Normal,
                color: false,
                out: Seq::empty(),
                err: Seq::empty(),
            }),
    {
        Shell { verbosity: Verbosity::Normal, color: false, out: String::new(), err: String::new() }
    }

    /// The current verbosity.
    pub fn verbosity(&self) -> (v: Verbosity)
        ensures
            v == self@.verbosity,
    {
        self.verbosity
    }

    /// Changes the verbosity and nothing else.
    pub fn set_verbosity(&mut self, verbosity: Verbosity)
        ensures
            final(self)@ == (ShellView { verbosity, ..old(self)@ }),
    {
        self.verbosity = verbosity;
    }

    /// Whether labels are styled.
    pub fn color(&self) -> (c: bool)
        ensures
            c == self@.color,
    {
        self.color
    }

    /// Switches the styling of labels on or off and changes nothing else.
    pub fn set_color(&mut self, color: bool)
        ensures
            final(self)@ == (ShellView { color, ..old(self)@ }),
    {
        self.color = color;
    }

    /// Writes `"{label} {message}"` to the standard output, unless the shell
    /// is quiet.
    pub fn status(&mut self, label: &str, message: &str)
        ensures
            final(self)@ == old(self)@.status(label@, message@),
    {
        match self.verbosity {
            Verbosity::Quiet => {},
            _ => {
                push_styled(&mut self.out, label, STYLE_STATUS, self.color);
                push_char(&mut self.out, ' ');
                self.out.append(message);
                push_char(&mut self.out, '\n');
            },
        }
    }

    /// Writes `"error: {message}"` to the standard error stream, whatever the
    /// verbosity.
    pub fn error(&mut self, message: &str)
        ensures
            final(self)@ == old(self)@.error(message@),
    {
        push_labelled(&mut self.err, "error", STYLE_ERROR, message, self.color);
    }

    /// Writes `"warning: {message}"` to the standard error stream, unless the
    /// shell is quiet.
    pub fn warn(&mut self, message: &str)
        ensures
            final(self)@ == old(self)@.warn(message@),
    {
        match self.verbosity {
            Verbosity::Quiet => {},
            _ => {
                push_labelled(&mut self.err, "warning", STYLE_WARNING, message, self.color);
            },
        }
    }

    /// Writes `"note: {message}"` to the standard error stream, unless the
    /// shell is quiet.
    pub fn note(&mut self, message: &str)
        ensures
            final(self)@ == old(self)@.note(message@),
    {
        match self.verbosity {
            Verbosity::Quiet => {},
            _ => {
                push_labelled(&mut self.err, "note", STYLE_NOTE, message, self.color);
            },
        }
    }

    /// The raw writer of the standard error stream: what is appended to it
    /// reaches the stream as it is, without label and whatever the verbosity.
    pub fn err(&mut self) -> (w: &mut String)
        ensures
            w@ == old(self)@.err,
            final(self)@ == (ShellView { err: final(w)@, ..old(self)@ }),
    {
        &mut self.err
    }

    /// The raw writer of the standard output.
    pub fn out(&mut self) -> (w: &mut String)
        ensures
            w@ == old(self)@.out,
            final(self)@ == (ShellView { out: final(w)@, ..old(self)@ }),
    {
        &mut self.out
    }

    /// What was written to the standard output and not yet drained.
    pub fn out_text(&self) -> (text: &str)
        ensures
            text@ == self@.out,
    {
        self.out.as_str()
    }

    /// What was written to the standard error stream and not yet drained.
    pub fn err_text(&self) -> (text: &str)
        ensures
            text@ == self@.err,
    {
        self.err.as_str()
    }

    /// Hands out what was written to the standard output and empties the
    /// buffer.
    pub fn take_out(&mut self) -> (text: String)
        ensures
            text@ == old(self)@.out,
            final(self)@ == (ShellView { out: Seq::empty(), ..old(self)@ }),
    {
        let mut text = String::new();
        std::mem::swap(&mut self.out, &mut text);
        text
    }

    /// Hands out what was written to the standard error stream and empties
    /// the buffer.
    pub fn take_err(&mut self) -> (text: String)
        ensures
            text@ == old(self)@.err,
            final(self)@ == (ShellView { err: Seq::empty(), ..old(self)@ }),
    {
        let mut text = String::new();
        std::mem::swap(&mut self.err, &mut text);
        text
    }
}

} // verus!
