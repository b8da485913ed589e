//! A logger that collects the lines of one frame and redraws them in place.
use vstd::prelude::*;
use vstd::string::StringExecFns;

verus! {

/// The severity of a log record, most severe first.
#[derive(Debug, Clone, Copy, PartialEq, Eq, Structural)]
pub enum LogLevel {
    Error,
    Warn,
    Info,
    Debug,
    Trace,
}

/// The rank of a level: 1 for `Error` up to 5 for `Trace`.
pub open spec fn level_rank(level: LogLevel) -> int {
    match level {
        LogLevel::Error => 1,
        LogLevel::Warn => 2,
        LogLevel::Info => 3,
        LogLevel::Debug => 4,
        LogLevel::Trace => 5,
    }
}

/// The terminal color sequence that starts a record of `level`.
pub open spec fn spec_level_color(level: LogLevel) -> Seq<char> {
    match level {
        LogLevel::Error => "\x1B[31m"@,
        LogLevel::Warn => "\x1B[33m"@,
        LogLevel::Info => "\x1B[32m"@,
        LogLevel::Debug => "\x1B[36m"@,
        LogLevel::Trace => "\x1B[90m"@,
    }
}

/// The name a record of `level` is tagged with.
pub open spec fn spec_level_name(level: LogLevel) -> Seq<char> {
    match level {
        LogLevel::Error => "ERROR"@,
        LogLevel::Warn => "WARN"@,
        LogLevel::Info => "INFO"@,
        LogLevel::Debug => "DEBUG"@,
        LogLevel::Trace => "TRACE"@,
    }
}

/// The sequence that resets the terminal color.
pub open spec fn spec_color_reset() -> Seq<char> {
    "\x1B[0m"@
}

/// The buffered line of a record: its color, its level name in brackets,
/// the color reset, a space and the message.
pub open spec fn spec_log_entry(level: LogLevel, message: Seq<char>) -> Seq<char> {
    spec_level_color(level) + "["@ + spec_level_name(level) + "]"@ + spec_color_reset() + " "@
        + message
}

/// The buffered line of a record is a prefix fixed by its level, followed by
/// the whole message: the color, the level name in brackets, the reset and a
/// space, then every character of the message, none cut or added.
pub proof fn lemma_log_entry_keeps_message(level: LogLevel, message: Seq<char>)
    ensures
        ({
            let prefix = match level {
                LogLevel::Error => "\x1B[31m[ERROR]\x1B[0m "@,
                LogLevel::Warn => "\x1B[33m[WARN]\x1B[0m "@,
                LogLevel::Info => "\x1B[32m[INFO]\x1B[0m "@,
                LogLevel::Debug => "\x1B[36m[DEBUG]\x1B[0m "@,
                LogLevel::Trace => "\x1B[90m[TRACE]\x1B[0m "@,
            };
            &&& spec_log_entry(level, message) == prefix + message
            &&& spec_log_entry(level, message).len() == prefix.len() + message.len()
            &&& spec_log_entry(level, message).skip(prefix.len() as int) == message
        }),
{
    reveal_strlit("\x1B[31m");
    reveal_strlit("\x1B[33m");
    reveal_strlit("\x1B[32m");
    reveal_strlit("\x1B[36m");
    reveal_strlit("\x1B[90m");
    reveal_strlit("ERROR");
    reveal_strlit("WARN");
    reveal_strlit("INFO");
    reveal_strlit("DEBUG");
    reveal_strlit("TRACE");
    reveal_strlit("[");
    reveal_strlit("]");
    reveal_strlit("\x1B[0m");
    reveal_strlit(" ");
    reveal_strlit("\x1B[31m[ERROR]\x1B[0m ");
    reveal_strlit("\x1B[33m[WARN]\x1B[0m ");
    reveal_strlit("\x1B[32m[INFO]\x1B[0m ");
    reveal_strlit("\x1B[36m[DEBUG]\x1B[0m ");
    reveal_strlit("\x1B[90m[TRACE]\x1B[0m ");
    let prefix = match level {
        LogLevel::Error => "\x1B[31m[ERROR]\x1B[0m "@,
        LogLevel::Warn => "\x1B[33m[WARN]\x1B[0m "@,
        LogLevel::Info => "\x1B[32m[INFO]\x1B[0m "@,
        LogLevel::Debug => "\x1B[36m[DEBUG]\x1B[0m "@,
        LogLevel::Trace => "\x1B[90m[TRACE]\x1B[0m "@,
    };
    let head = spec_level_color(level) + "["@ + spec_level_name(level) + "]"@ + spec_color_reset()
        + " "@;
    assert(head =~= prefix);
    assert(spec_log_entry(level, message) =~= prefix + message);
    assert((prefix + message).skip(prefix.len() as int) =~= message);
}

/// Collects the log records of a frame.
pub struct FrameLogger;

impl FrameLogger {
    /// Records up to `Info` are kept; `Debug` and `Trace` are dropped.
    pub fn enabled(&self, level: LogLevel) -> (r: bool)
        ensures
            r == (level_rank(level) <= level_rank(LogLevel::Info)),
    {
        match level {
            LogLevel::Error | LogLevel::Warn | LogLevel::Info => true,
            LogLevel::Debug | LogLevel::Trace => false,
        }
    }

    /// The color a record of `level` is shown in: red errors, yellow
    /// warnings, green information, cyan debug output and gray traces.
    pub fn level_color(&self, level: LogLevel) -> (r: &'static str)
        ensures
            r@ == spec_level_color(level),
    {
        match level {
            LogLevel::Error => "\x1B[31m",
            LogLevel::Warn => "\x1B[33m",
            LogLevel::Info => "\x1B[32m",
            LogLevel::Debug => "\x1B[36m",
            LogLevel::Trace => "\x1B[90m",
        }
    }

    /// The name a record of `level` is tagged with.
    pub fn level_name(&self, level: LogLevel) -> (r: &'static str)
        ensures
            r@ == spec_level_name(level),
    {
        match level {
            LogLevel::Error => "ERROR",
            LogLevel::Warn => "WARN",
            LogLevel::Info => "INFO",
            LogLevel::Debug => "DEBUG",
            LogLevel::Trace => "TRACE",
        }
    }

    /// The line that a record of `level` with `message` is buffered as.
    pub fn format_entry(&self, level: LogLevel, message: &str) -> (r: String)
        ensures
            r@ == spec_log_entry(level, message@),
    {
        let mut entry = String::from_str(self.level_color(level));
        entry.append("[");
        entry.append(self.level_name(level));
        entry.append("]");
        entry.append("\x1B[0m");
        entry.append(" ");
        entry.append(message);
        entry
    }
}

/// The lines of one frame: `lines[i]` goes to screen row `i + 1`, and rows
/// `blank_from + 1` up to `blank_to` are cleared.
pub struct Frame {
    pub lines: Vec<String>,
    pub blank_from: usize,
    pub blank_to: usize,
}

/// The buffered records of the current frame.
pub struct FrameLog {
    pub entries: Vec<String>,
}

/// The index of the first buffered record that a screen of `height` rows
/// shows: the last `height` records are shown.
pub open spec fn spec_first_shown(len: nat, height: nat) -> nat {
    if len > height {
        (len - height) as nat
    } else {
        0
    }
}

/// Whether screen row `row` (1-based) receives a line of `frame`.
pub open spec fn row_shows_line(frame: Frame, row: int) -> bool {
    1 <= row <= frame.lines@.len()
}

/// Whether screen row `row` (1-based) is cleared by `frame`.
pub open spec fn row_is_blanked(frame: Frame, row: int) -> bool {
    frame.blank_from < row <= frame.blank_to
}

impl FrameLog {
    pub fn new() -> (r: FrameLog)
        ensures
            r.entries@ == Seq::<String>::empty(),
    {
        FrameLog { entries: Vec::new() }
    }

    /// Buffers a formatted record.
    pub fn push(&mut self, entry: String)
        ensures
            final(self).entries@ == old(self).entries@.push(entry),
    {
        self.entries.push(entry);
    }

    /// Takes the frame for a screen of `height` rows and empties the buffer:
    /// the last `height` records are shown from the top row on, and the rows
    /// below them, down to row `height`, are cleared.
    pub fn flush_frame(&mut self, height: usize) -> (r: Frame)
        ensures
            final(self).entries@ == Seq::<String>::empty(),
            r.lines@ == old(self).entries@.skip(
                spec_first_shown(old(self).entries@.len(), height as nat) as int,
            ),
            r.blank_from == old(self).entries@.len(),
            r.blank_to == height,
    {
        let len = self.entries.len();
        let start = if len > height {
            len - height
        } else {
            0
        };
        let lines = self.entries.split_off(start);
        self.entries.clear();
        proof {
            assert(lines@ =~= old(self).entries@.skip(start as int));
        }
        Frame { lines, blank_from: len, blank_to: height }
    }
}

/// Every row of the screen is either given a line or cleared, never both,
/// and no line goes below the last row.
pub proof fn lemma_frame_covers_screen(entries: Seq<String>, height: usize, frame: Frame)
    requires
        frame.lines@ == entries.skip(spec_first_shown(entries.len(), height as nat) as int),
        frame.blank_from == entries.len(),
        frame.blank_to == height,
    ensures
        frame.lines@.len() <= height,
        forall|row: int|
            1 <= row <= height ==> (row_shows_line(frame, row) != row_is_blanked(frame, row)),
        forall|row: int| row_is_blanked(frame, row) ==> 1 <= row <= height,
{
}

} // verus!
