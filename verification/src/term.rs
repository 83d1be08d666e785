//! What the package manager writes to the terminal: colored status lines
//! and summaries of what a command did.
use crate::text::{cat, cat3, chars_of, owned, push_char, push_str};
use vstd::prelude::*;

verus! {

pub open spec fn reset_code() -> Seq<char> {
    "\x1b[0m"@
}

pub open spec fn red_code() -> Seq<char> {
    "\x1b[38;5;196m"@
}

pub open spec fn green_code() -> Seq<char> {
    "\x1b[38;5;82m"@
}

pub open spec fn yellow_code() -> Seq<char> {
    "\x1b[38;5;220m"@
}

pub open spec fn cyan_code() -> Seq<char> {
    "\x1b[38;5;51m"@
}

pub open spec fn purple_code() -> Seq<char> {
    "\x1b[38;5;141m"@
}

/// The color of the `i`-th letter of the rainbow banner, in a cycle of four.
pub open spec fn rainbow_code(i: int) -> Seq<char> {
    if i % 4 == 0 {
        "\x1b[38;5;197m"@
    } else if i % 4 == 1 {
        "\x1b[38;5;214m"@
    } else if i % 4 == 2 {
        "\x1b[38;5;226m"@
    } else {
        "\x1b[38;5;45m"@
    }
}

/// Escape code that resets the terminal color.
pub fn reset() -> (s: &'static str)
    ensures
        s@ == reset_code(),
{
    "\x1b[0m"
}

pub fn red() -> (s: &'static str)
    ensures
        s@ == red_code(),
{
    "\x1b[38;5;196m"
}

pub fn green() -> (s: &'static str)
    ensures
        s@ == green_code(),
{
    "\x1b[38;5;82m"
}

pub fn yellow() -> (s: &'static str)
    ensures
        s@ == yellow_code(),
{
    "\x1b[38;5;220m"
}

pub fn cyan() -> (s: &'static str)
    ensures
        s@ == cyan_code(),
{
    "\x1b[38;5;51m"
}

pub fn purple() -> (s: &'static str)
    ensures
        s@ == purple_code(),
{
    "\x1b[38;5;141m"
}

/// The color of the `i`-th letter of the rainbow banner.
pub fn rainbow(i: usize) -> (s: &'static str)
    ensures
        s@ == rainbow_code(i as int),
{
    if i % 4 == 0 {
        "\x1b[38;5;197m"
    } else if i % 4 == 1 {
        "\x1b[38;5;214m"
    } else if i % 4 == 2 {
        "\x1b[38;5;226m"
    } else {
        "\x1b[38;5;45m"
    }
}

/// The banner "SLOX" with each letter in the next rainbow color, then a
/// color reset.
pub open spec fn rainbow_banner() -> Seq<char> {
    rainbow_code(0) + seq!['S'] + rainbow_code(1) + seq!['L'] + rainbow_code(2) + seq!['O']
        + rainbow_code(3) + seq!['X'] + reset_code()
}

/// Colors the letters of `word` one after another, starting at color 0.
pub open spec fn rainbow_letters(word: Seq<char>) -> Seq<char>
    decreases word.len(),
{
    if word.len() == 0 {
        Seq::empty()
    } else {
        rainbow_letters(word.drop_last()) + rainbow_code(word.len() - 1) + seq![word.last()]
    }
}

/// The rainbow banner.
pub fn rainbow_prefix() -> (out: String)
    ensures
        out@ == rainbow_banner(),
{
    let word = chars_of("SLOX");
    let mut out = String::new();
    let mut i: usize = 0;
    while i < word.len()
        invariant
            i <= word@.len(),
            out@ == rainbow_letters(word@.take(i as int)),
        decreases word@.len() - i,
    {
        push_str(&mut out, rainbow(i));
        push_char(&mut out, word[i]);
        proof {
            assert(word@.take(i + 1).drop_last() == word@.take(i as int));
        }
        i = i + 1;
    }
    push_str(&mut out, reset());
    proof {
        reveal_strlit("SLOX");
        let w = word@;
        assert(w.len() == 4);
        assert(w.take(4) == w);
        assert(w.take(4).drop_last() == w.take(3));
        assert(w.take(3).drop_last() == w.take(2));
        assert(w.take(2).drop_last() == w.take(1));
        assert(w.take(1).drop_last() == w.take(0));
        assert(rainbow_letters(w.take(0)) == Seq::<char>::empty());
        assert(rainbow_letters(w.take(1)) == rainbow_code(0) + seq!['S']);
        assert(rainbow_letters(w.take(2)) == rainbow_code(0) + seq!['S'] + rainbow_code(1) + seq!['L']);
        assert(rainbow_letters(w.take(3)) == rainbow_code(0) + seq!['S'] + rainbow_code(1) + seq!['L'] + rainbow_code(2) + seq!['O']);
        assert(rainbow_letters(w) == rainbow_code(0) + seq!['S'] + rainbow_code(1) + seq!['L'] + rainbow_code(2) + seq!['O'] + rainbow_code(3) + seq!['X']);
    }
    out
}

/// `s` padded with spaces on the right to at least `width` characters.
pub open spec fn pad_right(s: Seq<char>, width: int) -> Seq<char> {
    if s.len() >= width {
        s
    } else {
        s + Seq::new((width - s.len()) as nat, |i: int| ' ')
    }
}

/// A status line: the label in the given color, padded to five columns,
/// then the message.
pub open spec fn status_text(label: Seq<char>, color: Seq<char>, message: Seq<char>) -> Seq<char> {
    color + pad_right(label, 5) + reset_code() + seq![' '] + message
}

/// A line that celebrates: the rainbow banner, then the message in green.
pub open spec fn sparkle_text(message: Seq<char>) -> Seq<char> {
    rainbow_banner() + seq![' '] + green_code() + message + reset_code()
}

/// The status line for `message` under `label` in `color`.
pub fn status_line(label: &str, color: &str, message: &str) -> (out: String)
    ensures
        out@ == status_text(label@, color@, message@),
{
    let mut out = owned(color);
    push_str(&mut out, label);
    let n = chars_of(label).len();
    let mut k = n;
    while k < 5
        invariant
            n == label@.len(),
            n <= k <= 5 || (n > 5 && k == n),
            out@ == color@ + label@ + Seq::new((k - n) as nat, |i: int| ' '),
        decreases 5 - k,
    {
        push_char(&mut out, ' ');
        assert(Seq::new((k + 1 - n) as nat, |i: int| ' ') == Seq::new((k - n) as nat, |i: int| ' ').push(' '));
        k = k + 1;
    }
    proof {
        if n >= 5 {
            assert(Seq::new((k - n) as nat, |i: int| ' ') == Seq::<char>::empty());
            assert(label@ + Seq::<char>::empty() == label@);
        }
    }
    push_str(&mut out, reset());
    push_char(&mut out, ' ');
    push_str(&mut out, message);
    out
}

/// The celebrating line for `message`.
pub fn sparkle_line(message: &str) -> (out: String)
    ensures
        out@ == sparkle_text(message@),
{
    let mut out = rainbow_prefix();
    push_char(&mut out, ' ');
    push_str(&mut out, green());
    push_str(&mut out, message);
    push_str(&mut out, reset());
    out
}

/// A summary of what a command did, with lines of detail.
#[derive(Debug)]
pub struct Report {
    pub summary: String,
    pub details: Vec<String>,
}

/// A report as plain text.
pub struct ReportView {
    pub summary: Seq<char>,
    pub details: Seq<Seq<char>>,
}

/// The texts of a list of strings.
pub open spec fn texts(v: Seq<String>) -> Seq<Seq<char>> {
    v.map_values(|s: String| s@)
}

impl View for Report {
    type V = ReportView;

    open spec fn view(&self) -> ReportView {
        ReportView { summary: self.summary@, details: texts(self.details@) }
    }
}

impl Report {
    /// A report with the given summary and no details.
    pub fn new(summary: String) -> (r: Report)
        ensures
            r@ == (ReportView { summary: summary@, details: Seq::empty() }),
    {
        let r = Report { summary, details: Vec::new() };
        assert(texts(r.details@) == Seq::<Seq<char>>::empty());
        r
    }

    /// The report with one more line of detail at the end.
    pub fn detail(self, detail: String) -> (r: Report)
        ensures
            r@ == (ReportView { summary: self@.summary, details: self@.details.push(detail@) }),
    {
        let ghost old_details = self.details@;
        let mut details = self.details;
        details.push(detail);
        let r = Report { summary: self.summary, details };
        assert(texts(r.details@) == texts(old_details).push(detail@));
        r
    }
}

/// The lines that show a finished report: the summary with the time it
/// took, then each detail after a dash.
pub open spec fn report_text(r: ReportView, elapsed: Seq<char>) -> Seq<Seq<char>> {
    seq![r.summary + " in "@ + elapsed] + Seq::new(r.details.len(), |i: int| "- "@ + r.details[i])
}

/// The lines that show `report`, finished after `elapsed`.
pub fn report_lines(report: &Report, elapsed: &str) -> (lines: Vec<String>)
    ensures
        texts(lines@) == report_text(report@, elapsed@),
{
    let mut lines: Vec<String> = Vec::new();
    lines.push(cat3(report.summary.as_str(), " in ", elapsed));
    let mut i: usize = 0;
    while i < report.details.len()
        invariant
            i <= report.details@.len(),
            lines@.len() == i + 1,
            lines@[0]@ == report.summary@ + " in "@ + elapsed@,
            forall|k: int| 1 <= k <= i ==> #[trigger] lines@[k]@ == "- "@ + report.details@[k - 1]@,
        decreases report.details@.len() - i,
    {
        let line = cat("- ", report.details[i].as_str());
        lines.push(line);
        i = i + 1;
    }
    assert(texts(lines@) =~= report_text(report@, elapsed@));
    lines
}

} // verus!
