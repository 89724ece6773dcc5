//! A logger whose lines go over a channel to one background writer.
use vstd::prelude::*;

use crossterm::style::{Color, Stylize};
use std::sync::mpsc::Sender;

verus! {

#[verifier::external_type_specification]
#[verifier::external_body]
#[verifier::reject_recursive_types(T)]
pub struct ExSender<T>(Sender<T>);

/// How much is logged, from least to most.
#[derive(Copy, Clone, PartialEq, Eq, Structural, PartialOrd, Ord, Debug)]
pub enum LogLevel {
    Error,
    Warning,
    Info,
    Debug,
}

/// The position of a level in the order `Error < Warning < Info < Debug`.
pub open spec fn rank_of(l: LogLevel) -> nat {
    match l {
        LogLevel::Error => 0,
        LogLevel::Warning => 1,
        LogLevel::Info => 2,
        LogLevel::Debug => 3,
    }
}

/// The name of a level as it appears in a line.
pub open spec fn level_name(l: LogLevel) -> Seq<char> {
    match l {
        LogLevel::Error => "Error"@,
        LogLevel::Warning => "Warning"@,
        LogLevel::Info => "Info"@,
        LogLevel::Debug => "Debug"@,
    }
}

/// A line of the log: `[<level>] <message>` and a line break.
pub open spec fn line_of(l: LogLevel, message: Seq<char>) -> Seq<char> {
    "["@ + level_name(l) + "] "@ + message + "\n"@
}

impl LogLevel {
    /// The position of this level in the order `Error < Warning < Info < Debug`.
    pub fn rank(&self) -> (r: u8)
        ensures
            r == rank_of(*self),
    {
        match self {
            LogLevel::Error => 0,
            LogLevel::Warning => 1,
            LogLevel::Info => 2,
            LogLevel::Debug => 3,
        }
    }

    /// The name of this level as it appears in a line.
    pub fn name(&self) -> (r: &'static str)
        ensures
            r@ == level_name(*self),
    {
        match self {
            LogLevel::Error => "Error",
            LogLevel::Warning => "Warning",
            LogLevel::Info => "Info",
            LogLevel::Debug => "Debug",
        }
    }
}

/// A colour for a line.
pub enum Hue {
    Red,
    Yellow,
    Green,
    Blue,
}

/// Relies on crossterm's `Stylize::with` and on the `Display` of the
/// `StyledContent` it returns: `text` is written unchanged between the
/// sequences that set and reset the foreground colour. Those sequences hold
/// no colour code when `NO_COLOR` is set, so only their place is promised.
#[verifier::external_body]
fn paint(text: String, hue: Hue) -> (r: String)
    ensures
        exists|pre: Seq<char>, post: Seq<char>| r@ == pre + text@ + post,
{
    let color = match hue {
        Hue::Red => Color::Red,
        Hue::Yellow => Color::Yellow,
        Hue::Green => Color::Green,
        Hue::Blue => Color::Blue,
    };
    text.with(color).to_string()
}

/// Relies on `Sender::send`: hands `line` to the receiving end; `false`
/// when that end is gone.
#[verifier::external_body]
fn send_line(sender: &Sender<String>, line: String) -> (delivered: bool) {
    sender.send(line).is_ok()
}

/// Whether `after` is `before` with one more line: `line` between some
/// leading and trailing colour codes.
pub open spec fn adds_painted(before: Seq<Seq<char>>, after: Seq<Seq<char>>, line: Seq<char>) -> bool {
    exists|pre: Seq<char>, post: Seq<char>| after == before.push(pre + line + post)
}

/// Writes lines up to a level through a channel.
pub struct Logger {
    log_level: LogLevel,
    sender: Sender<String>,
    /// The lines handed to the channel so far.
    handed: Ghost<Seq<Seq<char>>>,
}

impl Logger {
    /// A logger that passes lines up to `log_level` to `sender`.
    pub fn new(log_level: LogLevel, sender: Sender<String>) -> (r: Logger)
        ensures
            r.level() == log_level,
            r.handed() == Seq::<Seq<char>>::empty(),
    {
        Logger { log_level, sender, handed: Ghost(Seq::empty()) }
    }

    /// The most detailed level that this logger passes on.
    pub closed spec fn level(&self) -> LogLevel {
        self.log_level
    }

    /// The lines this logger has handed to its channel, oldest first.
    pub closed spec fn handed(&self) -> Seq<Seq<char>> {
        self.handed@
    }

    /// Whether this logger passes on lines of level `l`.
    pub open spec fn admits(&self, l: LogLevel) -> bool {
        rank_of(l) <= rank_of(self.level())
    }

    /// The most detailed level that this logger passes on.
    pub fn log_level(&self) -> (r: LogLevel)
        ensures
            r == self.level(),
    {
        self.log_level
    }

    /// The line for `message` at level `l`.
    pub fn line(l: LogLevel, message: &str) -> (r: String)
        ensures
            r@ == line_of(l, message@),
    {
        let mut r = String::from_str("[");
        r.append(l.name());
        r.append("] ");
        r.append(message);
        r.append("\n");
        r
    }

    /// Hands `message`, unchanged, to the channel exactly when this logger
    /// admits `log_level`, and nothing otherwise; tells whether the
    /// receiving end took it.
    pub fn log(&mut self, log_level: LogLevel, message: String) -> (sent: bool)
        ensures
            final(self).level() == old(self).level(),
            old(self).admits(log_level) ==> final(self).handed() == old(self).handed().push(message@),
            !old(self).admits(log_level) ==> final(self).handed() == old(self).handed() && !sent,
    {
        if log_level.rank() > self.log_level.rank() {
            return false;
        }
        self.handed = Ghost(self.handed@.push(message@));
        send_line(&self.sender, message)
    }

    /// Logs `message` at level `l`, painted `hue`.
    fn styled(&mut self, l: LogLevel, hue: Hue, message: &str) -> (sent: bool)
        ensures
            final(self).level() == old(self).level(),
            old(self).admits(l) ==> adds_painted(old(self).handed(), final(self).handed(), line_of(l, message@)),
            !old(self).admits(l) ==> final(self).handed() == old(self).handed() && !sent,
    {
        let line = Logger::line(l, message);
        let painted = paint(line, hue);
        self.log(l, painted)
    }

    /// Logs `message` as an error, in red: one line, whatever the level.
    pub fn error(&mut self, message: &str) -> (sent: bool)
        ensures
            final(self).level() == old(self).level(),
            adds_painted(old(self).handed(), final(self).handed(), line_of(LogLevel::Error, message@)),
    {
        self.styled(LogLevel::Error, Hue::Red, message)
    }

    /// Logs `message` as a warning, in yellow; nothing when the level is `Error`.
    pub fn warning(&mut self, message: &str) -> (sent: bool)
        ensures
            final(self).level() == old(self).level(),
            old(self).level() != LogLevel::Error ==> adds_painted(
                old(self).handed(),
                final(self).handed(),
                line_of(LogLevel::Warning, message@),
            ),
            old(self).level() == LogLevel::Error ==> final(self).handed() == old(self).handed() && !sent,
    {
        self.styled(LogLevel::Warning, Hue::Yellow, message)
    }

    /// Logs `message` as information, in green; nothing below level `Info`.
    pub fn info(&mut self, message: &str) -> (sent: bool)
        ensures
            final(self).level() == old(self).level(),
            rank_of(old(self).level()) >= 2 ==> adds_painted(
                old(self).handed(),
                final(self).handed(),
                line_of(LogLevel::Info, message@),
            ),
            rank_of(old(self).level()) < 2 ==> final(self).handed() == old(self).handed() && !sent,
    {
        self.styled(LogLevel::Info, Hue::Green, message)
    }

    /// Logs `message` for debugging, in blue; nothing below level `Debug`.
    pub fn debug(&mut self, message: &str) -> (sent: bool)
        ensures
            final(self).level() == old(self).level(),
            old(self).level() == LogLevel::Debug ==> adds_painted(
                old(self).handed(),
                final(self).handed(),
                line_of(LogLevel::Debug, message@),
            ),
            old(self).level() != LogLevel::Debug ==> final(self).handed() == old(self).handed() && !sent,
    {
        self.styled(LogLevel::Debug, Hue::Blue, message)
    }
}

} // verus!
