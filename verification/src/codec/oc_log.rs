//! OC_LOG format parsing.
//!
//! Parses debug log messages from controller firmware.
//! Format: `[XXXms] LEVEL: message`, for example `[1234ms] INFO: Boot completed`.
//! The firmware colours its output with ANSI escape sequences, which are
//! removed before matching; a line that does not match comes back as given.

use vstd::prelude::*;
use crate::logging::entry::LogLevel;
use crate::text::{is_white_space, is_whitespace, str_to_chars, string_from_chars};

verus! {

pub const ESCAPE: char = '\u{1b}';

// =============================================================================
// Specification
// =============================================================================

/// `s` with ANSI escape sequences removed: an ESC and everything up to and
/// including the next `m` (or to the end, when no `m` follows) is dropped.
/// `in_escape` says whether such a sequence is already open.
pub open spec fn strip_from(s: Seq<char>, in_escape: bool) -> Seq<char>
    decreases s.len(),
{
    if s.len() == 0 {
        Seq::empty()
    } else if in_escape {
        strip_from(s.drop_first(), s[0] != 'm')
    } else if s[0] == ESCAPE {
        strip_from(s.drop_first(), true)
    } else {
        seq![s[0]] + strip_from(s.drop_first(), false)
    }
}

pub open spec fn spec_strip_ansi(s: Seq<char>) -> Seq<char> {
    strip_from(s, false)
}

/// Number of leading characters of `s` that are not `c`.
pub open spec fn run_before(s: Seq<char>, c: char) -> nat
    decreases s.len(),
{
    if s.len() == 0 || s[0] == c {
        0
    } else {
        1 + run_before(s.drop_first(), c)
    }
}

/// Number of leading white-space characters of `s`.
pub open spec fn leading_white_space(s: Seq<char>) -> nat
    decreases s.len(),
{
    if s.len() == 0 || !is_white_space(s[0]) {
        0
    } else {
        1 + leading_white_space(s.drop_first())
    }
}

/// `s` without its leading white space.
pub open spec fn trim_start(s: Seq<char>) -> Seq<char> {
    s.skip(leading_white_space(s) as int)
}

pub open spec fn starts_with(s: Seq<char>, p: Seq<char>) -> bool {
    s.len() >= p.len() && s.take(p.len() as int) == p
}

pub open spec fn debug_tag() -> Seq<char> {
    seq!['D', 'E', 'B', 'U', 'G', ':', ' ']
}

pub open spec fn info_tag() -> Seq<char> {
    seq!['I', 'N', 'F', 'O', ':', ' ']
}

pub open spec fn warn_tag() -> Seq<char> {
    seq!['W', 'A', 'R', 'N', ':', ' ']
}

pub open spec fn error_tag() -> Seq<char> {
    seq!['E', 'R', 'R', 'O', 'R', ':', ' ']
}

/// The level and message of an OC_LOG line: after stripping escapes, the line
/// must open with a bracket whose first `]` closes a `ms]` timestamp, followed
/// (after white space) by one of the level tags; the message is what follows
/// the tag. Any other line has no level and comes back as it was given,
/// escapes included.
pub open spec fn spec_parse(text: Seq<char>) -> (Option<LogLevel>, Seq<char>) {
    let clean = spec_strip_ansi(text);
    let k: int = run_before(clean, ']') as int;
    if clean.len() == 0 || clean[0] != '[' || k == clean.len() {
        (None, text)
    } else if !(k >= 2 && clean[k - 2] == 'm' && clean[k - 1] == 's') {
        (None, text)
    } else {
        let rest = trim_start(clean.skip(k + 1));
        if starts_with(rest, debug_tag()) {
            (Some(LogLevel::Debug), rest.skip(7))
        } else if starts_with(rest, info_tag()) {
            (Some(LogLevel::Info), rest.skip(6))
        } else if starts_with(rest, warn_tag()) {
            (Some(LogLevel::Warn), rest.skip(6))
        } else if starts_with(rest, error_tag()) {
            (Some(LogLevel::Error), rest.skip(7))
        } else {
            (None, text)
        }
    }
}

// =============================================================================
// Lemmas
// =============================================================================

/// A scanned run of characters other than `c`, ending at `c` or at the end, is
/// `run_before`.
pub proof fn lemma_run_before(s: Seq<char>, c: char, r: nat)
    requires
        r <= s.len(),
        forall|i: int| 0 <= i < r ==> s[i] != c,
        r == s.len() || s[r as int] == c,
    ensures
        run_before(s, c) == r,
    decreases s.len(),
{
    if r > 0 {
        assert forall|i: int| 0 <= i < r - 1 implies s.drop_first()[i] != c by {
            assert(s.drop_first()[i] == s[i + 1]);
        }
        if r < s.len() {
            assert(s.drop_first()[r - 1] == s[r as int]);
        }
        lemma_run_before(s.drop_first(), c, (r - 1) as nat);
    }
}

/// A scanned run of white space that ends at the end or at another character
/// is `leading_white_space`.
pub proof fn lemma_leading_white_space(s: Seq<char>, r: nat)
    requires
        r <= s.len(),
        forall|i: int| 0 <= i < r ==> is_white_space(s[i]),
        r == s.len() || !is_white_space(s[r as int]),
    ensures
        leading_white_space(s) == r,
    decreases s.len(),
{
    if r > 0 {
        assert forall|i: int| 0 <= i < r - 1 implies is_white_space(s.drop_first()[i]) by {
            assert(s.drop_first()[i] == s[i + 1]);
        }
        if r < s.len() {
            assert(s.drop_first()[r - 1] == s[r as int]);
        }
        lemma_leading_white_space(s.drop_first(), (r - 1) as nat);
    }
}

/// No character of `s` is `c`.
pub open spec fn lacks(s: Seq<char>, c: char) -> bool {
    forall|i: int| 0 <= i < s.len() ==> s[i] != c
}

/// A run is part of the text.
proof fn lemma_run_before_len(s: Seq<char>, c: char)
    ensures
        run_before(s, c) <= s.len(),
    decreases s.len(),
{
    if s.len() > 0 && s[0] != c {
        lemma_run_before_len(s.drop_first(), c);
    }
}

/// Leading white space is part of the text.
proof fn lemma_leading_white_space_len(s: Seq<char>)
    ensures
        leading_white_space(s) <= s.len(),
    decreases s.len(),
{
    if s.len() > 0 {
        lemma_leading_white_space_len(s.drop_first());
    }
}

/// Stripping escapes only removes characters.
pub proof fn lemma_strip_lacks(s: Seq<char>, in_escape: bool, c: char)
    requires
        lacks(s, c),
    ensures
        lacks(strip_from(s, in_escape), c),
    decreases s.len(),
{
    if s.len() > 0 {
        assert(lacks(s.drop_first(), c)) by {
            assert forall|i: int| 0 <= i < s.drop_first().len() implies s.drop_first()[i] != c by {
                assert(s.drop_first()[i] == s[i + 1]);
            }
        }
        lemma_strip_lacks(s.drop_first(), s[0] != 'm', c);
        lemma_strip_lacks(s.drop_first(), true, c);
        lemma_strip_lacks(s.drop_first(), false, c);
        if !in_escape && s[0] != ESCAPE {
            let t = strip_from(s.drop_first(), false);
            assert forall|i: int| 0 <= i < (seq![s[0]] + t).len() implies (seq![s[0]] + t)[i] != c by {
                if i > 0 {
                    assert((seq![s[0]] + t)[i] == t[i - 1]);
                }
            }
        }
    }
}

/// Parsing never brings in a character the line does not hold: a message
/// parsed from a line without `c` holds no `c`.
pub proof fn lemma_parse_lacks(text: Seq<char>, c: char)
    requires
        lacks(text, c),
    ensures
        lacks(spec_parse(text).1, c),
{
    let clean = spec_strip_ansi(text);
    lemma_strip_lacks(text, false, c);
    let k: int = run_before(clean, ']') as int;
    if clean.len() == 0 || clean[0] != '[' || k == clean.len() {
    } else if !(k >= 2 && clean[k - 2] == 'm' && clean[k - 1] == 's') {
    } else {
        let after = clean.skip(k + 1);
        lemma_run_before_len(clean, ']');
        lemma_leading_white_space_len(after);
        let w: int = leading_white_space(after) as int;
        let rest = trim_start(after);
        assert(rest == after.skip(w));
        assert forall|i: int| 0 <= i < rest.len() implies rest[i] != c by {
            assert(rest[i] == after[w + i]);
            assert(after[w + i] == clean[k + 1 + w + i]);
        }
        if starts_with(rest, debug_tag()) {
            assert(lacks(rest.skip(7), c)) by {
                assert forall|i: int| 0 <= i < rest.skip(7).len() implies rest.skip(7)[i] != c by {
                    assert(rest.skip(7)[i] == rest[7 + i]);
                }
            }
        } else if starts_with(rest, info_tag()) || starts_with(rest, warn_tag()) {
            assert(lacks(rest.skip(6), c)) by {
                assert forall|i: int| 0 <= i < rest.skip(6).len() implies rest.skip(6)[i] != c by {
                    assert(rest.skip(6)[i] == rest[6 + i]);
                }
            }
        } else if starts_with(rest, error_tag()) {
            assert(lacks(rest.skip(7), c)) by {
                assert forall|i: int| 0 <= i < rest.skip(7).len() implies rest.skip(7)[i] != c by {
                    assert(rest.skip(7)[i] == rest[7 + i]);
                }
            }
        }
    }
}

/// Stripping leaves text without escapes as it is.
pub proof fn lemma_strip_plain(s: Seq<char>)
    requires
        lacks(s, ESCAPE),
    ensures
        strip_from(s, false) == s,
    decreases s.len(),
{
    if s.len() > 0 {
        assert(lacks(s.drop_first(), ESCAPE)) by {
            assert forall|i: int| 0 <= i < s.drop_first().len() implies s.drop_first()[i] != ESCAPE by {
                assert(s.drop_first()[i] == s[i + 1]);
            }
        }
        lemma_strip_plain(s.drop_first());
        assert(seq![s[0]] + s.drop_first() =~= s);
    }
}

/// Whether every character of `t` is a decimal digit.
pub open spec fn all_digits(t: Seq<char>) -> bool {
    forall|i: int| 0 <= i < t.len() ==> '0' <= #[trigger] t[i] && t[i] <= '9'
}

/// The word of a level as OC_LOG writes it.
pub open spec fn level_word(level: LogLevel) -> Seq<char> {
    match level {
        LogLevel::Debug => seq!['D', 'E', 'B', 'U', 'G'],
        LogLevel::Info => seq!['I', 'N', 'F', 'O'],
        LogLevel::Warn => seq!['W', 'A', 'R', 'N'],
        LogLevel::Error => seq!['E', 'R', 'R', 'O', 'R'],
    }
}

/// The OC_LOG line `[<t>ms] <LEVEL>: <m>`.
pub open spec fn oc_log_line(t: Seq<char>, level: LogLevel, m: Seq<char>) -> Seq<char> {
    seq!['['] + t + seq!['m', 's', ']', ' '] + level_word(level) + seq![':', ' '] + m
}

/// Every OC_LOG line is recognised, whatever its timestamp: for any digits
/// `t` (of any length), any level and any message `m` without escapes,
/// parsing `[<t>ms] <LEVEL>: <m>` gives that level and `m`.
pub proof fn lemma_parse_oc_log_line(t: Seq<char>, level: LogLevel, m: Seq<char>)
    requires
        all_digits(t),
        lacks(m, ESCAPE),
    ensures
        spec_parse(oc_log_line(t, level, m)) == (Some(level), m),
{
    let w = level_word(level);
    let text = oc_log_line(t, level, m);
    let n = t.len() as int;
    let wl = w.len() as int;
    assert(text.len() == n + 5 + wl + 2 + m.len());
    assert(text[0] == '[');
    assert forall|i: int| 1 <= i < n + 1 implies text[i] == t[i - 1] by {}
    assert(text[n + 1] == 'm' && text[n + 2] == 's' && text[n + 3] == ']' && text[n + 4] == ' ');
    assert forall|i: int| 0 <= i < wl implies text[n + 5 + i] == w[i] by {}
    assert(text[n + 5 + wl] == ':' && text[n + 6 + wl] == ' ');
    assert forall|i: int| 0 <= i < m.len() implies text[n + 7 + wl + i] == m[i] by {}
    assert(lacks(text, ESCAPE)) by {
        assert forall|i: int| 0 <= i < text.len() implies text[i] != ESCAPE by {
            if 1 <= i < n + 1 {
                assert(t[i - 1] <= '9');
            } else if n + 5 <= i < n + 5 + wl {
                assert(text[i] == w[i - n - 5]);
            } else if i >= n + 7 + wl {
                assert(text[i] == m[i - n - 7 - wl]);
            }
        }
    }
    lemma_strip_plain(text);
    let clean = spec_strip_ansi(text);
    assert(clean == text);
    let k = n + 3;
    assert forall|i: int| 0 <= i < k implies clean[i] != ']' by {
        if 1 <= i < n + 1 {
            assert(t[i - 1] <= '9');
        }
    }
    lemma_run_before(clean, ']', k as nat);
    let after = clean.skip(k + 1);
    assert(after[0] == ' ');
    assert(after[1] == w[0]);
    assert(!is_white_space(w[0]));
    lemma_leading_white_space(after, 1);
    let rest = trim_start(after);
    assert(rest =~= w + seq![':', ' '] + m);
    match level {
        LogLevel::Debug => {
            assert(rest.take(7) =~= debug_tag());
            assert(rest.skip(7) =~= m);
        },
        LogLevel::Info => {
            assert(rest[0] != debug_tag()[0]);
            assert(!starts_with(rest, debug_tag()));
            assert(rest.take(6) =~= info_tag());
            assert(rest.skip(6) =~= m);
        },
        LogLevel::Warn => {
            assert(rest[0] != debug_tag()[0]);
            assert(!starts_with(rest, debug_tag()));
            assert(rest[0] != info_tag()[0]);
            assert(!starts_with(rest, info_tag()));
            assert(rest.take(6) =~= warn_tag());
            assert(rest.skip(6) =~= m);
        },
        LogLevel::Error => {
            assert(rest[1] != debug_tag()[1]);
            assert(!starts_with(rest, debug_tag()));
            assert(rest[0] != info_tag()[0]);
            assert(!starts_with(rest, info_tag()));
            assert(rest[0] != warn_tag()[0]);
            assert(!starts_with(rest, warn_tag()));
            assert(rest.take(7) =~= error_tag());
            assert(rest.skip(7) =~= m);
        },
    }
}

// =============================================================================
// Parsing
// =============================================================================

/// Removes ANSI escape sequences.
pub fn strip_ansi_codes(text: &str) -> (s: String)
    ensures
        s@ == spec_strip_ansi(text@),
{
    let chars = str_to_chars(text);
    let clean = strip_chars(&chars);
    string_from_chars(clean.as_slice())
}

fn strip_chars(chars: &Vec<char>) -> (out: Vec<char>)
    ensures
        out@ == spec_strip_ansi(chars@),
{
    let mut out: Vec<char> = Vec::new();
    let mut in_escape = false;
    let mut i: usize = 0;
    assert(chars@.skip(0) =~= chars@);
    assert(out@ + strip_from(chars@, false) =~= strip_from(chars@, false));
    while i < chars.len()
        invariant
            i <= chars@.len(),
            out@ + strip_from(chars@.skip(i as int), in_escape) == spec_strip_ansi(chars@),
        decreases chars@.len() - i,
    {
        let c = chars[i];
        let ghost rest = chars@.skip(i as int);
        assert(rest[0] == c);
        assert(rest.drop_first() =~= chars@.skip(i + 1));
        if in_escape {
            in_escape = c != 'm';
        } else if c == ESCAPE {
            in_escape = true;
        } else {
            assert(out@.push(c) + strip_from(rest.drop_first(), false) =~= out@ + (seq![c]
                + strip_from(rest.drop_first(), false)));
            out.push(c);
        }
        i = i + 1;
    }
    assert(chars@.skip(i as int) =~= Seq::<char>::empty());
    assert(out@ + Seq::<char>::empty() =~= out@);
    out
}

/// Whether `chars[from..]` starts with `tag`.
fn has_tag_at(chars: &Vec<char>, from: usize, tag: &[char]) -> (r: bool)
    requires
        from <= chars@.len(),
    ensures
        r == starts_with(chars@.skip(from as int), tag@),
{
    if chars.len() - from < tag.len() {
        return false;
    }
    let n = chars.len();
    let mut i: usize = 0;
    while i < tag.len()
        invariant
            n == chars@.len(),
            from + tag@.len() <= chars@.len(),
            i <= tag@.len(),
            forall|j: int| 0 <= j < i ==> chars@[from + j] == tag@[j],
        decreases tag@.len() - i,
    {
        if chars[from + i] != tag[i] {
            assert(chars@.skip(from as int).take(tag@.len() as int)[i as int] != tag@[i as int]);
            return false;
        }
        i = i + 1;
    }
    assert(chars@.skip(from as int).take(tag@.len() as int) =~= tag@);
    true
}

/// Parses an OC_LOG line into its level and message. Lines that do not follow
/// the format come back unchanged and without a level.
pub fn parse(text: &str) -> (res: (Option<LogLevel>, String))
    ensures
        res.0 == spec_parse(text@).0,
        res.1@ == spec_parse(text@).1,
{
    let raw = str_to_chars(text);
    let clean = strip_chars(&raw);
    let n = clean.len();
    if n == 0 || clean[0] != '[' {
        return (None, text.to_owned());
    }
    let mut k: usize = 0;
    while k < n && clean[k] != ']'
        invariant
            n == clean@.len(),
            k <= n,
            forall|i: int| 0 <= i < k ==> clean@[i] != ']',
        decreases n - k,
    {
        k = k + 1;
    }
    proof {
        lemma_run_before(clean@, ']', k as nat);
    }
    if k == n {
        return (None, text.to_owned());
    }
    if !(k >= 2 && clean[k - 2] == 'm' && clean[k - 1] == 's') {
        return (None, text.to_owned());
    }
    let mut start: usize = k + 1;
    while start < n && is_whitespace(clean[start])
        invariant
            n == clean@.len(),
            k + 1 <= start <= n,
            forall|i: int| k + 1 <= i < start ==> is_white_space(clean@[i]),
        decreases n - start,
    {
        start = start + 1;
    }
    let ghost after = clean@.skip(k + 1);
    proof {
        assert forall|i: int| 0 <= i < start - (k + 1) implies is_white_space(after[i]) by {
            assert(after[i] == clean@[k + 1 + i]);
        }
        if start < n {
            assert(after[start - (k + 1)] == clean@[start as int]);
        }
        lemma_leading_white_space(after, (start - (k + 1)) as nat);
        assert(trim_start(after) =~= clean@.skip(start as int));
    }
    let debug = ['D', 'E', 'B', 'U', 'G', ':', ' '];
    let info = ['I', 'N', 'F', 'O', ':', ' '];
    let warn = ['W', 'A', 'R', 'N', ':', ' '];
    let error = ['E', 'R', 'R', 'O', 'R', ':', ' '];
    assert(debug@ =~= debug_tag());
    assert(info@ =~= info_tag());
    assert(warn@ =~= warn_tag());
    assert(error@ =~= error_tag());
    if has_tag_at(&clean, start, debug.as_slice()) {
        assert(clean@.skip(start + 7) =~= clean@.skip(start as int).skip(7));
        (Some(LogLevel::Debug), string_from_chars(&clean.as_slice()[start + 7..n]))
    } else if has_tag_at(&clean, start, info.as_slice()) {
        assert(clean@.skip(start + 6) =~= clean@.skip(start as int).skip(6));
        (Some(LogLevel::Info), string_from_chars(&clean.as_slice()[start + 6..n]))
    } else if has_tag_at(&clean, start, warn.as_slice()) {
        assert(clean@.skip(start + 6) =~= clean@.skip(start as int).skip(6));
        (Some(LogLevel::Warn), string_from_chars(&clean.as_slice()[start + 6..n]))
    } else if has_tag_at(&clean, start, error.as_slice()) {
        assert(clean@.skip(start + 7) =~= clean@.skip(start as int).skip(7));
        (Some(LogLevel::Error), string_from_chars(&clean.as_slice()[start + 7..n]))
    } else {
        (None, text.to_owned())
    }
}

} // verus!
