//! Minimal logger: a rolling in-memory ring (for Control Channel log uploads and
//! the diagnostics panel) and the format of a log line.

use std::collections::VecDeque;

use vstd::prelude::*;
use vstd::string::*;

use crate::text;

verus! {

/// How many lines the ring keeps.
pub const RING_CAP: usize = 1000;

#[derive(Debug, Clone, Copy, PartialEq, Eq, Structural)]
pub enum LogLevel {
    Error,
    Warn,
    Info,
    Debug,
    Trace,
}

impl LogLevel {
    pub open spec fn name(self) -> Seq<char> {
        match self {
            LogLevel::Error => "ERROR"@,
            LogLevel::Warn => "WARN"@,
            LogLevel::Info => "INFO"@,
            LogLevel::Debug => "DEBUG"@,
            LogLevel::Trace => "TRACE"@,
        }
    }

    pub open spec fn is_kept(self) -> bool {
        self == LogLevel::Error || self == LogLevel::Warn || self == LogLevel::Info
    }

    pub fn as_str(&self) -> (r: &'static str)
        ensures
            r@ == self.name(),
    {
        match self {
            LogLevel::Error => "ERROR",
            LogLevel::Warn => "WARN",
            LogLevel::Info => "INFO",
            LogLevel::Debug => "DEBUG",
            LogLevel::Trace => "TRACE",
        }
    }

    /// Whether lines of this level are logged at all.
    pub fn enabled(&self) -> (r: bool)
        ensures
            r == self.is_kept(),
    {
        match self {
            LogLevel::Error | LogLevel::Warn | LogLevel::Info => true,
            LogLevel::Debug | LogLevel::Trace => false,
        }
    }
}

/// A log line: the time in seconds since the epoch, the level and the message.
pub open spec fn line_of(secs: u64, level: LogLevel, message: Seq<char>) -> Seq<char> {
    "["@ + text::decimal(secs as nat) + "] "@ + level.name() + ": "@ + message
}

/// The newest lines, as many as the ring keeps.
pub open spec fn newest(lines: Seq<Seq<char>>) -> Seq<Seq<char>> {
    if lines.len() <= RING_CAP {
        lines
    } else {
        lines.skip(lines.len() - RING_CAP)
    }
}

#[derive(Debug)]
pub struct LogBuffer {
    lines: VecDeque<String>,
}

impl View for LogBuffer {
    type V = Seq<Seq<char>>;

    closed spec fn view(&self) -> Seq<Seq<char>> {
        text::texts(self.lines@)
    }
}

impl LogBuffer {
    /// The ring holds no more than its capacity.
    pub open spec fn wf(self) -> bool {
        self@.len() <= RING_CAP
    }

    pub fn new() -> (r: Self)
        ensures
            r@ == Seq::<Seq<char>>::empty(),
            r.wf(),
    {
        let r = LogBuffer { lines: VecDeque::new() };
        assert(r@ =~= Seq::<Seq<char>>::empty());
        r
    }

    /// Add a line; the oldest one leaves a full ring.
    pub fn push(&mut self, line: String)
        requires
            old(self).wf(),
        ensures
            final(self)@ == newest(old(self)@.push(line@)),
            final(self).wf(),
    {
        let ghost before = self@;
        if self.lines.len() >= RING_CAP {
            let _ = self.lines.pop_front();
        }
        self.lines.push_back(line);
        assert(self@ =~= newest(before.push(line@)));
    }

    /// The lines that are kept, oldest first.
    pub fn snapshot(&self) -> (r: Vec<String>)
        ensures
            text::texts(r@) == self@,
    {
        let mut out: Vec<String> = Vec::new();
        let n: usize = self.lines.len();
        for i in 0..n
            invariant
                n == self.lines@.len(),
                out@.len() == i,
                forall|j: int| 0 <= j < i ==> (#[trigger] out@[j])@ == self.lines@[j]@,
        {
            out.push(self.lines[i].clone());
        }
        assert(text::texts(out@) =~= self@);
        out
    }

    /// Log a message: the line that was added, unless the level is not logged.
    pub fn record(&mut self, secs: u64, level: LogLevel, message: &str) -> (r: Option<String>)
        requires
            old(self).wf(),
        ensures
            final(self).wf(),
            match r {
                Some(line) => {
                    &&& level.is_kept()
                    &&& line@ == line_of(secs, level, message@)
                    &&& final(self)@ == newest(old(self)@.push(line@))
                },
                None => !level.is_kept() && final(self)@ == old(self)@,
            },
    {
        if !level.enabled() {
            return None;
        }
        let line = log_line(secs, level, message);
        self.push(line.clone());
        Some(line)
    }
}

/// Format a log line.
pub fn log_line(secs: u64, level: LogLevel, message: &str) -> (r: String)
    ensures
        r@ == line_of(secs, level, message@),
{
    "[".to_string().concat(text::number(secs).as_str()).concat("] ").concat(level.as_str()).concat(
        ": ",
    ).concat(message)
}

/// After any run of lines the ring holds the newest of them: adding a line to what
/// is kept of a history is keeping the history with that line added.
pub proof fn ring_keeps_the_newest(history: Seq<Seq<char>>, line: Seq<char>)
    ensures
        newest(newest(history).push(line)) == newest(history.push(line)),
        newest(history).len() <= RING_CAP,
        newest(history.push(line)).last() == line,
{
    assert(newest(newest(history).push(line)) =~= newest(history.push(line)));
}

/// The ring forgets no line until it is full of a thousand newer ones.
pub proof fn ring_forgets_the_oldest(lines: Seq<Seq<char>>)
    ensures
        newest(lines).len() <= 1000,
        lines.len() <= 1000 ==> newest(lines) == lines,
        lines.len() > 1000 ==> newest(lines).len() == 1000,
        forall|i: int|
            0 <= i < newest(lines).len() ==> #[trigger] newest(lines)[i] == lines[lines.len() - newest(lines).len()
                + i],
{
}

/// A log line says when, how bad and what, in this order: the seconds stand in
/// brackets, then the level, and the message ends the line.
pub proof fn lines_say_when_and_what(secs: u64, level: LogLevel, message: Seq<char>)
    ensures
        ({
            let line = line_of(secs, level, message);
            &&& text::begins_with(line, "["@)
            &&& text::field(line, "["@, ']') == Some(text::decimal(secs as nat))
            &&& text::after_first(line, "] "@) == Some(level.name() + ": "@ + message)
            &&& text::finishes_with(line, message)
        }),
{
    reveal_strlit("[");
    reveal_strlit("] ");
    reveal_strlit(": ");
    let line = line_of(secs, level, message);
    let secs_text = text::decimal(secs as nat);
    let rest = level.name() + ": "@ + message;
    text::decimals_lack(secs as nat, ']');
    text::fields_are_read(Seq::empty(), "["@, secs_text, "] "@ + rest, ']');
    assert(line =~= Seq::empty() + "["@ + secs_text + ("] "@ + rest));
    text::both_lack("["@, secs_text, ']');
    text::keys_are_found("["@ + secs_text, "] "@, rest);
    assert(line =~= ("["@ + secs_text) + "] "@ + rest);
    assert(line.subrange(0, 1) =~= "["@);
    assert(line.subrange(line.len() - message.len(), line.len() as int) =~= message);
}

/// What is worth an operator's attention is logged; what is only for debugging is not.
pub proof fn details_are_not_logged(level: LogLevel)
    ensures
        level.is_kept() <==> level.name() == "ERROR"@ || level.name() == "WARN"@ || level.name() == "INFO"@,
        !level.is_kept() <==> level.name() == "DEBUG"@ || level.name() == "TRACE"@,
{
    reveal_strlit("ERROR");
    reveal_strlit("WARN");
    reveal_strlit("INFO");
    reveal_strlit("DEBUG");
    reveal_strlit("TRACE");
    assert("ERROR"@[0] == 'E' && "WARN"@[0] == 'W' && "INFO"@[0] == 'I' && "DEBUG"@[0] == 'D' && "TRACE"@[0] == 'T');
}

/// Every level is named by its own name, in capitals.
pub proof fn levels_are_named(level: LogLevel)
    ensures
        level.name() == "ERROR"@ <==> level == LogLevel::Error,
        level.name() == "WARN"@ <==> level == LogLevel::Warn,
        level.name() == "INFO"@ <==> level == LogLevel::Info,
        level.name() == "DEBUG"@ <==> level == LogLevel::Debug,
        level.name() == "TRACE"@ <==> level == LogLevel::Trace,
{
    reveal_strlit("ERROR");
    reveal_strlit("WARN");
    reveal_strlit("INFO");
    reveal_strlit("DEBUG");
    reveal_strlit("TRACE");
    assert("ERROR"@[0] == 'E' && "WARN"@[0] == 'W' && "INFO"@[0] == 'I' && "DEBUG"@[0] == 'D' && "TRACE"@[0] == 'T');
}

} // verus!
