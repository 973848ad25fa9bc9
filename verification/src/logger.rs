//! Severity levels, delivery bridges and the logger facade.

use vstd::prelude::*;
use vstd::string::StringExecFns;
use std::io::Write;

use crate::style::DefaultStyle;
use crate::style::Style;

verus! {

/// Level of importance of a message.
#[derive(Clone, Copy, PartialEq, Eq, Structural)]
pub enum Importance {
    Warn,
    Debug,
    Success,
    Fail,
}

impl Importance {
    /// The canonical bracketed tag of this severity, as a sequence of
    /// characters: `[Warn]`, `[Debug]`, `[Success]` or `[Error]`.
    pub open spec fn spec_tag(self) -> Seq<char> {
        match self {
            Importance::Warn => "[Warn]"@,
            Importance::Debug => "[Debug]"@,
            Importance::Success => "[Success]"@,
            Importance::Fail => "[Error]"@,
        }
    }

    /// Renders the canonical bracketed tag of this severity.
    pub fn tag(&self) -> (r: String)
        ensures
            r@ == self.spec_tag(),
    {
        match self {
            Importance::Warn => String::from_str("[Warn]"),
            Importance::Debug => String::from_str("[Debug]"),
            Importance::Success => String::from_str("[Success]"),
            Importance::Fail => String::from_str("[Error]"),
        }
    }
}

/// A bridge receives a rendered line and transfers it to a specific
/// destination (the console, a file, ...), reporting an outcome of the
/// destination's own type `T`. You can make your own bridge by
/// implementing this trait.
pub trait Bridge<T> {
    /// What a delivery outcome may be for a given rendered line. A
    /// bridge that does not refine this promises nothing of its
    /// outcome.
    open spec fn delivers(&self, msg: Seq<char>, r: T) -> bool {
        true
    }

    /// Delivers one rendered line to this bridge's destination.
    fn log(&self, msg: &str) -> (r: T)
        ensures
            self.delivers(msg@, r),
    ;
}

/// Bridge used to log onto the console.
pub struct Console;

impl Default for Console {
    fn default() -> (r: Self)
        ensures
            r == Console,
    {
        Console
    }
}

/// Relies on std::io's `writeln` to standard output: the line goes out
/// followed by a line terminator. A broken stream is outside the
/// console's contract, so the outcome is ignored and the write always
/// returns.
#[verifier::external_body]
fn console_write(msg: &str) {
    let _ = writeln!(std::io::stdout(), "{}", msg);
}

impl Bridge<()> for Console {
    /// Console delivery always succeeds from the caller's view.
    open spec fn delivers(&self, msg: Seq<char>, r: ()) -> bool {
        true
    }

    fn log(&self, msg: &str) -> (r: ()) {
        console_write(msg)
    }
}

/// Configuration of a file destination: the target path and whether a
/// delivery appends to the file or overwrites it. Opening and writing
/// the file is input/output and is performed by the embedding program,
/// which implements [`Bridge`] for a type wrapping this configuration.
pub struct File {
    pub out: String,
    pub append: bool,
}

impl File {
    /// A file destination for the given path, appending by default.
    pub fn new(path: String) -> (r: Self)
        ensures
            r.out == path,
            r.append == true,
    {
        File { out: path, append: true }
    }

    /// Whether to overwrite the file completely or append the logs.
    pub fn append(self, append: bool) -> (r: Self)
        ensures
            r.out == self.out,
            r.append == append,
    {
        File { append, ..self }
    }
}

/// Main logger: the facade that owns one style and one bridge. Every
/// level method renders the message with the style and hands the line
/// to the bridge, whose outcome it returns untouched.
pub struct Logger<S, B> {
    pub style: S,
    pub bridge: B,
}

impl Default for Logger<DefaultStyle, Console> {
    fn default() -> (r: Self)
        ensures
            r.style == (DefaultStyle { date: false, colored: true }),
            r.bridge == Console,
    {
        Logger { style: DefaultStyle::default(), bridge: Console::default() }
    }
}

impl<S: Style, B> Logger<S, B> {
    /// Replaces the style, keeping the bridge.
    pub fn style<S2: Style>(self, style: S2) -> (r: Logger<S2, B>)
        ensures
            r.style == style,
            r.bridge == self.bridge,
    {
        Logger { style, bridge: self.bridge }
    }

    /// Replaces the bridge, keeping the style. The outcome type of the
    /// logger's level methods changes with the bridge.
    pub fn bridge<B2>(self, bridge: B2) -> (r: Logger<S, B2>)
        ensures
            r.bridge == bridge,
            r.style == self.style,
    {
        Logger { bridge, style: self.style }
    }

    /// Renders the message at the given severity and delivers the line.
    fn log<T>(&self, imp: Importance, msg: &str) -> (r: T) where B: Bridge<T>
        ensures
            exists|line: Seq<char>|
                self.style.formats(imp, msg@, line) && self.bridge.delivers(line, r),
    {
        let line = self.style.format(imp, msg);
        self.bridge.log(line.as_str())
    }

    /// Logs the message at severity `Fail`.
    pub fn fail<T>(&self, msg: &str) -> (r: T) where B: Bridge<T>
        ensures
            exists|line: Seq<char>|
                self.style.formats(Importance::Fail, msg@, line)
                    && self.bridge.delivers(line, r),
    {
        self.log(Importance::Fail, msg)
    }

    /// Logs the message at severity `Warn`.
    pub fn warn<T>(&self, msg: &str) -> (r: T) where B: Bridge<T>
        ensures
            exists|line: Seq<char>|
                self.style.formats(Importance::Warn, msg@, line)
                    && self.bridge.delivers(line, r),
    {
        self.log(Importance::Warn, msg)
    }

    /// Logs the message at severity `Debug`.
    pub fn debug<T>(&self, msg: &str) -> (r: T) where B: Bridge<T>
        ensures
            exists|line: Seq<char>|
                self.style.formats(Importance::Debug, msg@, line)
                    && self.bridge.delivers(line, r),
    {
        self.log(Importance::Debug, msg)
    }

    /// Logs the message at severity `Success`.
    pub fn success<T>(&self, msg: &str) -> (r: T) where B: Bridge<T>
        ensures
            exists|line: Seq<char>|
                self.style.formats(Importance::Success, msg@, line)
                    && self.bridge.delivers(line, r),
    {
        self.log(Importance::Success, msg)
    }
}

} // verus!
