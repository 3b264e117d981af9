//! The two capabilities the resolution engine talks to: a [`LineSource`] that
//! produces one line of input per request, and a [`MessageSink`] that receives
//! the prompts and confirmation lines the engine emits.
//!
//! Each comes in two forms. The terminal form reads standard input and writes
//! standard output; the scripted and buffered forms work on plain values, so
//! the engine can be driven and observed with no terminal involved.

use std::io::Write;

use vstd::prelude::*;

verus! {

/// One emitted message, as the engine's contracts speak of it.
pub enum Note {
    /// A prompt for one field, written without a trailing newline.
    Prompt(Seq<char>),
    /// The confirmation gate's prompt, written without a trailing newline.
    Confirm(Seq<char>),
    /// A full display line, echoing a value that was supplied explicitly.
    Shown(Seq<char>),
}

/// The class of an emitted message; decides the glyph the terminal shows.
#[derive(Clone, Copy, PartialEq, Eq, Structural, Debug)]
pub enum MessageKind {
    Prompt,
    Confirm,
    Shown,
}

/// One emitted message as a buffered sink records it.
pub struct Message {
    pub kind: MessageKind,
    pub text: String,
}

pub open spec fn note_of(m: Message) -> Note {
    match m.kind {
        MessageKind::Prompt => Note::Prompt(m.text@),
        MessageKind::Confirm => Note::Confirm(m.text@),
        MessageKind::Shown => Note::Shown(m.text@),
    }
}

/// Where one line of input comes from: the terminal, or a script of
/// prepared lines that are handed out in order.
pub struct LineSource {
    scripted: bool,
    lines: Vec<String>,
}

impl LineSource {
    pub closed spec fn is_scripted(self) -> bool {
        self.scripted
    }

    /// The scripted lines not yet handed out; empty for a terminal source.
    pub closed spec fn pending(self) -> Seq<Seq<char>> {
        self.lines.deep_view()
    }

    /// A source that reads from standard input.
    pub fn terminal() -> (r: LineSource)
        ensures
            !r.is_scripted(),
            r.pending() == Seq::<Seq<char>>::empty(),
    {
        let r = LineSource { scripted: false, lines: Vec::new() };
        proof {
            assert(r.pending() =~= Seq::<Seq<char>>::empty());
        }
        r
    }

    /// A source that hands out the given lines in order and then reports
    /// end of input.
    pub fn scripted(lines: Vec<String>) -> (r: LineSource)
        ensures
            r.is_scripted(),
            r.pending() == lines.deep_view(),
    {
        LineSource { scripted: true, lines }
    }

    /// How many scripted lines are left; zero for a terminal source.
    pub fn remaining(&self) -> (r: usize)
        ensures
            r == self.pending().len(),
    {
        self.lines.len()
    }

    /// Produces the next line. A scripted source hands out its next prepared
    /// line, or fails when none is left; the terminal source reads one line
    /// from standard input, and fails on end of input or on a read error.
    pub fn read_line(&mut self) -> (r: Result<String, String>)
        ensures
            final(self).is_scripted() == old(self).is_scripted(),
            old(self).is_scripted() && old(self).pending().len() > 0 ==> {
                &&& r matches Ok(line) && line@ == old(self).pending()[0]
                &&& final(self).pending() == old(self).pending().skip(1)
            },
            old(self).is_scripted() && old(self).pending().len() == 0 ==> {
                &&& r matches Err(m) && m@ == "end of input"@
                &&& *final(self) == *old(self)
            },
            !old(self).is_scripted() ==> *final(self) == *old(self),
    {
        if self.scripted {
            if self.lines.len() > 0 {
                let line = self.lines.remove(0);
                proof {
                    assert(final(self).pending() =~= old(self).pending().skip(1));
                }
                Ok(line)
            } else {
                Err(String::from_str("end of input"))
            }
        } else {
            terminal_read_line()
        }
    }
}

/// Where the engine's messages go: the terminal, or a buffer that records
/// them for inspection.
pub struct MessageSink {
    buffered: bool,
    messages: Vec<Message>,
}

impl MessageSink {
    pub closed spec fn is_buffered(self) -> bool {
        self.buffered
    }

    /// The messages recorded so far; empty for a terminal sink.
    pub closed spec fn log(self) -> Seq<Note> {
        self.messages@.map_values(|m: Message| note_of(m))
    }

    /// A sink that writes to standard output.
    pub fn terminal() -> (r: MessageSink)
        ensures
            !r.is_buffered(),
            r.log() == Seq::<Note>::empty(),
    {
        let r = MessageSink { buffered: false, messages: Vec::new() };
        proof {
            assert(r.log() =~= Seq::<Note>::empty());
        }
        r
    }

    /// A sink that records every message.
    pub fn buffered() -> (r: MessageSink)
        ensures
            r.is_buffered(),
            r.log() == Seq::<Note>::empty(),
    {
        let r = MessageSink { buffered: true, messages: Vec::new() };
        proof {
            assert(r.log() =~= Seq::<Note>::empty());
        }
        r
    }

    /// The recorded messages, in the order they were emitted.
    pub fn recorded(&self) -> (r: &Vec<Message>)
        ensures
            r@.map_values(|m: Message| note_of(m)) == self.log(),
    {
        &self.messages
    }

    /// Emits a field prompt, without a trailing newline; the terminal form
    /// flushes standard output so the prompt appears before input is read.
    pub fn show_prompt(&mut self, text: &str)
        ensures
            final(self).is_buffered() == old(self).is_buffered(),
            old(self).is_buffered() ==> final(self).log() == old(self).log().push(
                Note::Prompt(text@),
            ),
            !old(self).is_buffered() ==> *final(self) == *old(self),
    {
        if self.buffered {
            self.messages.push(Message { kind: MessageKind::Prompt, text: String::from_str(text) });
            proof {
                assert(final(self).log() =~= old(self).log().push(Note::Prompt(text@)));
            }
        } else {
            terminal_prompt(text);
        }
    }

    /// Emits the confirmation gate's prompt, without a trailing newline; the
    /// terminal form flushes standard output before input is read.
    pub fn show_confirm_prompt(&mut self, text: &str)
        ensures
            final(self).is_buffered() == old(self).is_buffered(),
            old(self).is_buffered() ==> final(self).log() == old(self).log().push(
                Note::Confirm(text@),
            ),
            !old(self).is_buffered() ==> *final(self) == *old(self),
    {
        if self.buffered {
            self.messages.push(Message { kind: MessageKind::Confirm, text: String::from_str(text) });
            proof {
                assert(final(self).log() =~= old(self).log().push(Note::Confirm(text@)));
            }
        } else {
            terminal_confirm_prompt(text);
        }
    }

    /// Emits one full display line.
    pub fn show_line(&mut self, text: &str)
        ensures
            final(self).is_buffered() == old(self).is_buffered(),
            old(self).is_buffered() ==> final(self).log() == old(self).log().push(
                Note::Shown(text@),
            ),
            !old(self).is_buffered() ==> *final(self) == *old(self),
    {
        if self.buffered {
            self.messages.push(Message { kind: MessageKind::Shown, text: String::from_str(text) });
            proof {
                assert(final(self).log() =~= old(self).log().push(Note::Shown(text@)));
            }
        } else {
            terminal_line(text);
        }
    }
}

/// Relies on std::io::Stdin::read_line: reads one line from standard input,
/// line terminator included. End of input and read failures both come back
/// as an error message.
#[verifier::external_body]
fn terminal_read_line() -> Result<String, String> {
    let mut buffer = String::new();
    match std::io::stdin().read_line(&mut buffer) {
        Ok(0) => Err("end of input".to_string()),
        Ok(_) => Ok(buffer),
        Err(error) => Err(error.to_string()),
    }
}

/// Relies on std::io::Stdout: writes a field prompt with its glyph, without a
/// trailing newline, and flushes, so the prompt is visible before a read.
#[verifier::external_body]
fn terminal_prompt(text: &str) {
    let mut out = std::io::stdout();
    let _ = write!(out, "\u{2795} {}", text);
    let _ = out.flush();
}

/// Relies on std::io::Stdout: writes the confirmation prompt with its glyph,
/// without a trailing newline, and flushes.
#[verifier::external_body]
fn terminal_confirm_prompt(text: &str) {
    let mut out = std::io::stdout();
    let _ = write!(out, "\u{2611}\u{fe0f} {}", text);
    let _ = out.flush();
}

/// Relies on std::io::Stdout: writes one display line with its glyph.
#[verifier::external_body]
fn terminal_line(text: &str) {
    let mut out = std::io::stdout();
    let _ = writeln!(out, "\u{2796}\u{fe0f}{}", text);
}

} // verus!
