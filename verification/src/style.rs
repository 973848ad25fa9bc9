//! Rendering policies for log lines.
//!
//! A [`Style`] turns a severity and a message into one display line.
//! Text assembly is deterministic and fully specified; the optional
//! color pass and the optional current-date token are the only parts
//! that go through outside code, and the contracts here say exactly
//! how they enter the line.

use vstd::prelude::*;
use vstd::string::StringExecFns;
use colored::Colorize;

use crate::logger::Importance;

verus! {

/// The ANSI color-selection code that belongs to a severity:
/// red for `Fail`, yellow for `Warn`, blue for `Debug`, green for
/// `Success`. Every style uses this one mapping.
pub open spec fn color_code(imp: Importance) -> Seq<char> {
    match imp {
        Importance::Fail => "31"@,
        Importance::Warn => "33"@,
        Importance::Debug => "34"@,
        Importance::Success => "32"@,
    }
}

/// A string wrapped in an ANSI escape: `ESC [ code m`, the text, then
/// the reset sequence `ESC [ 0 m`.
pub open spec fn ansi_wrap(code: Seq<char>, s: Seq<char>) -> Seq<char> {
    "\u{1b}["@ + code + "m"@ + s + "\u{1b}[0m"@
}

/// The ANSI reset sequence `ESC [ 0 m`.
pub open spec fn reset_seq() -> Seq<char> {
    "\u{1b}[0m"@
}

/// Whether `s` holds the ANSI reset sequence somewhere inside.
pub open spec fn contains_reset(s: Seq<char>) -> bool {
    exists|i: int| 0 <= i && i + 4 <= s.len() && #[trigger] s.subrange(i, i + 4) == reset_seq()
}

/// How a colored output line relates to the plain line it was made
/// from: it is the plain line unchanged (the color pass may be switched
/// off at run time), or the plain line wrapped in the severity's color.
/// A plain line that itself holds a reset sequence is re-styled inside
/// by the color pass and is left unconstrained here.
pub open spec fn color_applied(imp: Importance, plain: Seq<char>, out: Seq<char>) -> bool {
    ||| out == plain
    ||| out == ansi_wrap(color_code(imp), plain)
    ||| contains_reset(plain)
}

/// How an output line relates to the plain rendering `plain` under the
/// color switch `colored`.
pub open spec fn rendered(colored: bool, imp: Importance, plain: Seq<char>, out: Seq<char>) -> bool {
    if colored {
        color_applied(imp, plain, out)
    } else {
        out == plain
    }
}

/// Relies on colored's `Colorize::red` and `ColoredString`'s `Display`:
/// when the crate's run-time color switch is off the input comes back
/// unchanged; otherwise it is wrapped in the red escape codes, except
/// that an input holding a reset sequence is also re-styled inside.
#[verifier::external_body]
fn paint_red(msg: &str) -> (r: String)
    ensures
        r@ == msg@ || r@ == ansi_wrap("31"@, msg@) || contains_reset(msg@),
{
    msg.red().to_string()
}

/// Relies on colored's `Colorize::yellow` and `ColoredString`'s
/// `Display`, as for the red pass.
#[verifier::external_body]
fn paint_yellow(msg: &str) -> (r: String)
    ensures
        r@ == msg@ || r@ == ansi_wrap("33"@, msg@) || contains_reset(msg@),
{
    msg.yellow().to_string()
}

/// Relies on colored's `Colorize::blue` and `ColoredString`'s
/// `Display`, as for the red pass.
#[verifier::external_body]
fn paint_blue(msg: &str) -> (r: String)
    ensures
        r@ == msg@ || r@ == ansi_wrap("34"@, msg@) || contains_reset(msg@),
{
    msg.blue().to_string()
}

/// Relies on colored's `Colorize::green` and `ColoredString`'s
/// `Display`, as for the red pass.
#[verifier::external_body]
fn paint_green(msg: &str) -> (r: String)
    ensures
        r@ == msg@ || r@ == ansi_wrap("32"@, msg@) || contains_reset(msg@),
{
    msg.green().to_string()
}

/// Wraps an already assembled line in the color that belongs to the
/// severity. Both styles share this single severity-to-color mapping.
fn with_color(imp: Importance, msg: &str) -> (r: String)
    ensures
        color_applied(imp, msg@, r@),
{
    match imp {
        Importance::Fail => paint_red(msg),
        Importance::Warn => paint_yellow(msg),
        Importance::Debug => paint_blue(msg),
        Importance::Success => paint_green(msg),
    }
}

/// Trait used to style the logs.
pub trait Style {
    /// What an output line may be for the given severity and message.
    spec fn formats(&self, imp: Importance, msg: Seq<char>, out: Seq<char>) -> bool;

    /// Renders `msg` at severity `imp` into one display line.
    fn format(&self, imp: Importance, msg: &str) -> (out: String)
        ensures
            self.formats(imp, msg@, out@),
    ;
}

/// The default style's line without a date: the bracketed tag, a colon
/// and a space, then the message.
pub open spec fn default_plain(imp: Importance, msg: Seq<char>) -> Seq<char> {
    imp.spec_tag() + ": "@ + msg
}

/// The default style's line with a date: the bracketed tag, a space,
/// the date in brackets, a colon and a space, then the message.
pub open spec fn default_dated(imp: Importance, date: Seq<char>, msg: Seq<char>) -> Seq<char> {
    imp.spec_tag() + " ["@ + date + "]: "@ + msg
}

/// Assembles the default style's line without a date.
pub fn render_plain(imp: Importance, msg: &str) -> (r: String)
    ensures
        r@ == default_plain(imp, msg@),
{
    let mut r = imp.tag();
    r.append(": ");
    r.append(msg);
    r
}

/// Assembles the default style's line with the given date token.
pub fn render_dated(imp: Importance, date: &str, msg: &str) -> (r: String)
    ensures
        r@ == default_dated(imp, date@, msg@),
{
    let mut r = imp.tag();
    r.append(" [");
    r.append(date);
    r.append("]: ");
    r.append(msg);
    r
}

/// Relies on chrono's `Utc::now`, `DateTime::date_naive` and
/// `NaiveDate`'s `Display` (ISO 8601, year-month-day): the current UTC
/// date rendered as text. Nothing is assumed about the value, which
/// depends on the clock.
#[verifier::external_body]
fn today_string() -> (r: String) {
    chrono::Utc::now().date_naive().to_string()
}

/// Default style used for the logs, e.g. `[Error]: disk full`.
pub struct DefaultStyle {
    pub date: bool,
    pub colored: bool,
}

impl DefaultStyle {
    /// Whether to insert the current date, in brackets, after the tag.
    pub fn date(self, date: bool) -> (r: Self)
        ensures
            r.date == date,
            r.colored == self.colored,
    {
        DefaultStyle { date, ..self }
    }

    /// Whether to wrap the line in the severity's color.
    pub fn colored(self, colored: bool) -> (r: Self)
        ensures
            r.date == self.date,
            r.colored == colored,
    {
        DefaultStyle { colored, ..self }
    }
}

impl Default for DefaultStyle {
    fn default() -> (r: Self)
        ensures
            r.date == false,
            r.colored == true,
    {
        DefaultStyle { date: false, colored: true }
    }
}

impl Style for DefaultStyle {
    /// The line is the plain or dated assembly for some date token,
    /// with the color pass on top when `colored` is set.
    open spec fn formats(&self, imp: Importance, msg: Seq<char>, out: Seq<char>) -> bool {
        if self.date {
            exists|d: Seq<char>| rendered(self.colored, imp, default_dated(imp, d, msg), out)
        } else {
            rendered(self.colored, imp, default_plain(imp, msg), out)
        }
    }

    fn format(&self, imp: Importance, msg: &str) -> (out: String) {
        if self.date {
            let d = today_string();
            let plain = render_dated(imp, d.as_str(), msg);
            if self.colored {
                with_color(imp, plain.as_str())
            } else {
                plain
            }
        } else {
            let plain = render_plain(imp, msg);
            if self.colored {
                with_color(imp, plain.as_str())
            } else {
                plain
            }
        }
    }
}

/// A run of `n` space characters.
pub open spec fn spaces(n: nat) -> Seq<char> {
    Seq::new(n, |i: int| ' ')
}

/// The arrow style's line: the padding spaces, the marker glyph and one
/// space, then the message. Tag and date are deliberately omitted.
pub open spec fn arrow_plain(padding: nat, msg: Seq<char>) -> Seq<char> {
    spaces(padding) + "\u{25b6} "@ + msg
}

/// Assembles the arrow style's line with the given padding.
pub fn render_arrow(padding: usize, msg: &str) -> (r: String)
    ensures
        r@ == arrow_plain(padding as nat, msg@),
{
    let mut r = String::new();
    let mut i: usize = 0;
    proof {
        assert(r@ =~= spaces(0));
    }
    while i < padding
        invariant
            i <= padding,
            r@ == spaces(i as nat),
        decreases padding - i,
    {
        r.append(" ");
        i = i + 1;
        proof {
            reveal_strlit(" ");
            assert(r@ =~= spaces(i as nat));
        }
    }
    r.append("\u{25b6} ");
    r.append(msg);
    r
}

/// Simple and minimalist style, e.g. `▶ This is a message.`
pub struct Arrow {
    pub colored: bool,
    pub padding: usize,
}

impl Arrow {
    /// Whether to wrap the line in the severity's color.
    pub fn colored(self, colored: bool) -> (r: Self)
        ensures
            r.colored == colored,
            r.padding == self.padding,
    {
        Arrow { colored, ..self }
    }

    /// How many spaces stand before the marker glyph.
    pub fn padding(self, padding: usize) -> (r: Self)
        ensures
            r.colored == self.colored,
            r.padding == padding,
    {
        Arrow { padding, ..self }
    }
}

impl Default for Arrow {
    fn default() -> (r: Self)
        ensures
            r.colored == true,
            r.padding == 5,
    {
        Arrow { colored: true, padding: 5 }
    }
}

impl Style for Arrow {
    /// The line is the padded arrow assembly, with the color pass on
    /// top when `colored` is set.
    open spec fn formats(&self, imp: Importance, msg: Seq<char>, out: Seq<char>) -> bool {
        rendered(self.colored, imp, arrow_plain(self.padding as nat, msg), out)
    }

    fn format(&self, imp: Importance, msg: &str) -> (out: String) {
        let plain = render_arrow(self.padding, msg);
        if self.colored {
            with_color(imp, plain.as_str())
        } else {
            plain
        }
    }
}

/// Law: with date and color switched off, the default style renders
/// exactly the bracketed tag, a colon and a space, then the message,
/// for every severity and every message.
pub proof fn lemma_default_plain_exact(imp: Importance, msg: Seq<char>, out: Seq<char>)
    requires
        (DefaultStyle { date: false, colored: false }).formats(imp, msg, out),
    ensures
        out == imp.spec_tag() + ": "@ + msg,
{
}

/// Law: with color off and no padding, the arrow style renders exactly
/// the marker glyph, a space, then the message, for every severity and
/// every message; the severity tag never appears in arrow output.
pub proof fn lemma_arrow_unpadded_exact(imp: Importance, msg: Seq<char>, out: Seq<char>)
    requires
        (Arrow { colored: false, padding: 0 }).formats(imp, msg, out),
    ensures
        out == "\u{25b6} "@ + msg,
{
    assert(spaces(0) + "\u{25b6} "@ =~= "\u{25b6} "@);
}

/// Law: the arrow style reproduces the padding exactly: the line opens
/// with `padding` space characters, the marker glyph stands right after
/// them, then one space, then the message.
pub proof fn lemma_arrow_padding(imp: Importance, padding: usize, msg: Seq<char>, out: Seq<char>)
    requires
        (Arrow { colored: false, padding }).formats(imp, msg, out),
    ensures
        out.len() == padding + 2 + msg.len(),
        forall|i: int| 0 <= i < padding ==> out[i] == ' ',
        out[padding as int] == '\u{25b6}',
        out[padding + 1] == ' ',
{
    reveal_strlit("\u{25b6} ");
}

/// Law: coloring is a wrapping transform for the default style: every
/// colored output relates by `color_applied` alone to a line that the
/// same configuration with color switched off renders.
pub proof fn lemma_default_color_wraps(
    style: DefaultStyle,
    imp: Importance,
    msg: Seq<char>,
    out: Seq<char>,
)
    requires
        style.colored,
        style.formats(imp, msg, out),
    ensures
        exists|plain: Seq<char>|
            (DefaultStyle { colored: false, ..style }).formats(imp, msg, plain)
                && color_applied(imp, plain, out),
{
    let uncolored = DefaultStyle { colored: false, ..style };
    if style.date {
        let d = choose|d: Seq<char>| rendered(true, imp, default_dated(imp, d, msg), out);
        let plain = default_dated(imp, d, msg);
        assert(rendered(false, imp, default_dated(imp, d, msg), plain));
        assert(uncolored.formats(imp, msg, plain) && color_applied(imp, plain, out));
    } else {
        let plain = default_plain(imp, msg);
        assert(uncolored.formats(imp, msg, plain) && color_applied(imp, plain, out));
    }
}

/// Law: coloring is a wrapping transform for the arrow style: every
/// colored output relates by `color_applied` alone to the line that the
/// same configuration with color switched off renders.
pub proof fn lemma_arrow_color_wraps(style: Arrow, imp: Importance, msg: Seq<char>, out: Seq<char>)
    requires
        style.colored,
        style.formats(imp, msg, out),
    ensures
        (Arrow { colored: false, ..style }).formats(
            imp,
            msg,
            arrow_plain(style.padding as nat, msg),
        ),
        color_applied(imp, arrow_plain(style.padding as nat, msg), out),
{
}

/// Law: enabling the date inserts exactly one bracketed token, led by a
/// single space, between the tag and the colon; disabling it removes
/// the token and its space and leaves the same tail after the tag.
pub proof fn lemma_date_token_insertion(imp: Importance, date: Seq<char>, msg: Seq<char>)
    ensures
        default_dated(imp, date, msg) == imp.spec_tag() + (" ["@ + date + "]"@) + (": "@ + msg),
        default_plain(imp, msg) == imp.spec_tag() + (": "@ + msg),
{
    reveal_strlit(" [");
    reveal_strlit("]: ");
    reveal_strlit("]");
    reveal_strlit(": ");
    assert("]: "@ =~= "]"@ + ": "@);
    assert(default_dated(imp, date, msg) =~= imp.spec_tag() + (" ["@ + date + "]"@) + (": "@
        + msg));
    assert(default_plain(imp, msg) =~= imp.spec_tag() + (": "@ + msg));
}

} // verus!
