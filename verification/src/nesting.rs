//! How deep a TOML text can nest, found without parsing it.
//!
//! The scan walks the text once, character by character. It tells strings
//! and comments from the rest as a TOML reader does, counts the brackets
//! and braces that stand open and the periods of the statement at hand, and
//! keeps the greatest sum of the two that it meets. Tables, arrays and
//! dotted keys cannot nest deeper than three times that sum plus two.

use crate::text::chars_of;
use vstd::prelude::*;

verus! {

/// Where in a text the scan stands.
#[derive(Debug, Clone, Copy, PartialEq, Eq)]
pub enum Mode {
    /// Outside strings and comments.
    Code,
    /// In a comment, which the line's end closes.
    Comment,
    /// Behind one quote that opened a string.
    Open1,
    /// Behind two quotes: an empty string, or the start of a long one.
    Open2,
    /// In a string that ends on its line.
    Single,
    /// Behind a backslash in such a string.
    SingleEscape,
    /// In a string that may run over several lines.
    Multi,
    /// Behind a backslash in such a string.
    MultiEscape,
    /// Behind one quote in such a string.
    Multi1,
    /// Behind two quotes in such a string.
    Multi2,
    /// Behind the three quotes that close such a string; two more may follow.
    Close2,
    /// Behind four quotes that close such a string; one more may follow.
    Close1,
    /// Behind a line's end inside a string that had to end on its line.
    /// Nothing closes from here on.
    Broken,
}

/// What the scan knows after a prefix of the text.
pub struct Scan {
    pub mode: Mode,
    /// Whether the string at hand is quoted with `"` and knows escapes.
    pub basic: bool,
    /// The brackets and braces that stand open.
    pub depth: nat,
    /// The periods met since the last line's end outside all brackets.
    pub run: nat,
    /// The greatest sum of `depth` and `run` so far.
    pub peak: nat,
}

/// The scan as the executable code holds it.
#[derive(Debug, Clone, Copy, PartialEq, Eq)]
pub struct Scanner {
    pub mode: Mode,
    pub basic: bool,
    pub depth: usize,
    pub run: usize,
    pub peak: usize,
}

impl View for Scanner {
    type V = Scan;

    open spec fn view(&self) -> Scan {
        Scan {
            mode: self.mode,
            basic: self.basic,
            depth: self.depth as nat,
            run: self.run as nat,
            peak: self.peak as nat,
        }
    }
}

/// The quote that closes the string at hand.
pub open spec fn delimiter(basic: bool) -> char {
    if basic {
        '"'
    } else {
        '\''
    }
}

/// The scan before the first character.
pub open spec fn start() -> Scan {
    Scan { mode: Mode::Code, basic: false, depth: 0, run: 0, peak: 0 }
}

/// One character outside strings and comments.
pub open spec fn in_code(s: Scan, c: char) -> Scan {
    if c == '#' {
        Scan { mode: Mode::Comment, ..s }
    } else if c == '"' {
        Scan { mode: Mode::Open1, basic: true, ..s }
    } else if c == '\'' {
        Scan { mode: Mode::Open1, basic: false, ..s }
    } else if c == '[' || c == '{' {
        Scan { mode: Mode::Code, depth: s.depth + 1, ..s }
    } else if c == ']' || c == '}' {
        Scan { mode: Mode::Code, depth: if s.depth > 0 { (s.depth - 1) as nat } else { 0 }, ..s }
    } else if c == '.' {
        Scan { mode: Mode::Code, run: s.run + 1, ..s }
    } else if c == '\n' {
        Scan { mode: Mode::Code, run: if s.depth == 0 { 0 } else { s.run }, ..s }
    } else {
        Scan { mode: Mode::Code, ..s }
    }
}

/// One character of a string's content; `multi` tells whether the string
/// may run over several lines.
pub open spec fn in_string(s: Scan, c: char, multi: bool) -> Scan {
    if c == delimiter(s.basic) {
        Scan { mode: if multi { Mode::Multi1 } else { Mode::Code }, ..s }
    } else if s.basic && c == '\\' {
        Scan { mode: if multi { Mode::MultiEscape } else { Mode::SingleEscape }, ..s }
    } else if !multi && c == '\n' {
        Scan { mode: Mode::Broken, ..s }
    } else {
        Scan { mode: if multi { Mode::Multi } else { Mode::Single }, ..s }
    }
}

/// One character after the scan has lost track: everything that could open
/// counts, and nothing closes.
pub open spec fn in_broken(s: Scan, c: char) -> Scan {
    if c == '[' || c == '{' {
        Scan { depth: s.depth + 1, ..s }
    } else if c == '.' {
        Scan { run: s.run + 1, ..s }
    } else {
        s
    }
}

/// The scan after one more character, before the peak is brought up.
pub open spec fn moved(s: Scan, c: char) -> Scan {
    let quote = c == delimiter(s.basic);
    match s.mode {
        Mode::Code => in_code(s, c),
        Mode::Comment => if c == '\n' {
            in_code(s, c)
        } else {
            s
        },
        Mode::Open1 => if quote {
            Scan { mode: Mode::Open2, ..s }
        } else {
            in_string(s, c, false)
        },
        Mode::Open2 => if quote {
            Scan { mode: Mode::Multi, ..s }
        } else {
            in_code(s, c)
        },
        Mode::Single => in_string(s, c, false),
        Mode::SingleEscape => Scan { mode: Mode::Single, ..s },
        Mode::Multi => in_string(s, c, true),
        Mode::MultiEscape => Scan { mode: Mode::Multi, ..s },
        Mode::Multi1 => if quote {
            Scan { mode: Mode::Multi2, ..s }
        } else {
            in_string(s, c, true)
        },
        Mode::Multi2 => if quote {
            Scan { mode: Mode::Close2, ..s }
        } else {
            in_string(s, c, true)
        },
        Mode::Close2 => if quote {
            Scan { mode: Mode::Close1, ..s }
        } else {
            in_code(s, c)
        },
        Mode::Close1 => if quote {
            Scan { mode: Mode::Code, ..s }
        } else {
            in_code(s, c)
        },
        Mode::Broken => in_broken(s, c),
    }
}

/// The scan after one more character.
pub open spec fn step(s: Scan, c: char) -> Scan {
    let t = moved(s, c);
    Scan { peak: if t.depth + t.run > t.peak { t.depth + t.run } else { t.peak }, ..t }
}

/// The scan after all of `text`.
pub open spec fn scan(text: Seq<char>) -> Scan
    decreases text.len(),
{
    if text.len() == 0 {
        start()
    } else {
        step(scan(text.drop_last()), text.last())
    }
}

/// How deep `text` can nest: the greatest number, over its prefixes, of
/// open brackets and braces plus periods of the statement at hand.
pub open spec fn nesting(text: Seq<char>) -> nat {
    scan(text).peak
}

/// The scan cannot count more than there are characters.
pub proof fn lemma_scan_is_bounded(text: Seq<char>)
    ensures
        scan(text).depth + scan(text).run <= text.len(),
        scan(text).peak <= text.len(),
    decreases text.len(),
{
    if text.len() > 0 {
        lemma_scan_is_bounded(text.drop_last());
    }
}

fn code_char(s: Scanner, c: char) -> (r: Scanner)
    requires
        s.depth < usize::MAX,
        s.run < usize::MAX,
    ensures
        r@ == in_code(s@, c),
{
    let mut r = s;
    r.mode = Mode::Code;
    if c == '#' {
        r.mode = Mode::Comment;
    } else if c == '"' {
        r.mode = Mode::Open1;
        r.basic = true;
    } else if c == '\'' {
        r.mode = Mode::Open1;
        r.basic = false;
    } else if c == '[' || c == '{' {
        r.depth = s.depth + 1;
    } else if c == ']' || c == '}' {
        if s.depth > 0 {
            r.depth = s.depth - 1;
        }
    } else if c == '.' {
        r.run = s.run + 1;
    } else if c == '\n' {
        if s.depth == 0 {
            r.run = 0;
        }
    }
    r
}

fn string_char(s: Scanner, c: char, multi: bool) -> (r: Scanner)
    ensures
        r@ == in_string(s@, c, multi),
{
    let mut r = s;
    let quote = if s.basic { c == '"' } else { c == '\'' };
    if quote {
        r.mode = if multi { Mode::Multi1 } else { Mode::Code };
    } else if s.basic && c == '\\' {
        r.mode = if multi { Mode::MultiEscape } else { Mode::SingleEscape };
    } else if !multi && c == '\n' {
        r.mode = Mode::Broken;
    } else {
        r.mode = if multi { Mode::Multi } else { Mode::Single };
    }
    r
}

fn broken_char(s: Scanner, c: char) -> (r: Scanner)
    requires
        s.depth < usize::MAX,
        s.run < usize::MAX,
    ensures
        r@ == in_broken(s@, c),
{
    let mut r = s;
    if c == '[' || c == '{' {
        r.depth = s.depth + 1;
    } else if c == '.' {
        r.run = s.run + 1;
    }
    r
}

/// Takes the scan over one more character.
pub fn advance(s: Scanner, c: char) -> (r: Scanner)
    requires
        s.depth + s.run < usize::MAX,
    ensures
        r@ == step(s@, c),
{
    let quote = if s.basic { c == '"' } else { c == '\'' };
    let mut r = s;
    match s.mode {
        Mode::Code => {
            r = code_char(s, c);
        },
        Mode::Comment => {
            if c == '\n' {
                r = code_char(s, c);
            }
        },
        Mode::Open1 => {
            if quote {
                r.mode = Mode::Open2;
            } else {
                r = string_char(s, c, false);
            }
        },
        Mode::Open2 => {
            if quote {
                r.mode = Mode::Multi;
            } else {
                r = code_char(s, c);
            }
        },
        Mode::Single => {
            r = string_char(s, c, false);
        },
        Mode::SingleEscape => {
            r.mode = Mode::Single;
        },
        Mode::Multi => {
            r = string_char(s, c, true);
        },
        Mode::MultiEscape => {
            r.mode = Mode::Multi;
        },
        Mode::Multi1 => {
            if quote {
                r.mode = Mode::Multi2;
            } else {
                r = string_char(s, c, true);
            }
        },
        Mode::Multi2 => {
            if quote {
                r.mode = Mode::Close2;
            } else {
                r = string_char(s, c, true);
            }
        },
        Mode::Close2 => {
            if quote {
                r.mode = Mode::Close1;
            } else {
                r = code_char(s, c);
            }
        },
        Mode::Close1 => {
            if quote {
                r.mode = Mode::Code;
            } else {
                r = code_char(s, c);
            }
        },
        Mode::Broken => {
            r = broken_char(s, c);
        },
    }
    if r.depth + r.run > r.peak {
        r.peak = r.depth + r.run;
    }
    r
}

/// Finds how deep `text` can nest.
pub fn nesting_of(text: &str) -> (r: usize)
    ensures
        r == nesting(text@),
{
    let v = chars_of(text);
    let mut s = Scanner { mode: Mode::Code, basic: false, depth: 0, run: 0, peak: 0 };
    let mut i: usize = 0;
    while i < v.len()
        invariant
            i <= v.len(),
            s@ == scan(v@.take(i as int)),
        decreases v.len() - i,
    {
        proof {
            lemma_scan_is_bounded(v@.take(i as int));
            assert(v@.take(i + 1).drop_last() == v@.take(i as int));
        }
        s = advance(s, v[i]);
        i += 1;
    }
    assert(v@.take(v.len() as int) == v@);
    s.peak
}

} // verus!
