//! Verifies captured debugger output against an ordered list of
//! expectations. An expectation line is a literal, matched as a substring of
//! some output line, unless it begins with `pattern:`, in which case the
//! remainder is a regular-expression source searched for in a line. A single
//! forward-only cursor runs over the output lines: expectations must be
//! satisfied in order, and a consumed line is never revisited.

use vstd::prelude::*;
use vstd::string::StrSliceExecFns;
use vstd::string::StringExecFns;

use crate::text::{
    all_space, contains_seq, contains_sub, is_pattern_line, lemma_trim_all_ws,
    lemma_trim_ws_padding, pattern_source, spec_trim, spec_trimmed_lines, split_trimmed_lines,
    strip_pattern_prefix, trim,
};

verus! {

/// Whether `regex::Regex::new` accepts `pattern`.
pub uninterp spec fn regex_valid(pattern: Seq<char>) -> bool;

/// The rendering of the error `regex::Regex::new` reports for an invalid
/// `pattern`.
pub uninterp spec fn regex_error_text(pattern: Seq<char>) -> Seq<char>;

/// Whether the regular expression `pattern` matches anywhere in `text`.
pub uninterp spec fn regex_match(pattern: Seq<char>, text: Seq<char>) -> bool;

/// Relies on regex::Regex::new: whether a pattern compiles, and how the
/// compile error is rendered, depend on the pattern text alone.
#[verifier::external_body]
fn pattern_compile_error(pattern: &str) -> (r: Option<String>)
    ensures
        r is None <==> regex_valid(pattern@),
        r matches Some(m) ==> m@ == regex_error_text(pattern@),
{
    match regex::Regex::new(pattern) {
        Ok(_) => None,
        Err(e) => Some(e.to_string()),
    }
}

/// Relies on regex::Regex::new and regex::Regex::is_match: the pattern,
/// already known to compile, is compiled afresh and searched for anywhere in
/// the text; the result depends on the pattern and the text alone.
#[verifier::external_body]
fn is_pattern_match(pattern: &str, text: &str) -> (r: bool)
    requires
        regex_valid(pattern@),
    ensures
        r == regex_match(pattern@, text@),
{
    match regex::Regex::new(pattern) {
        Ok(re) => re.is_match(text),
        Err(_) => false,
    }
}

/// One expectation, as the matcher sees it after trimming: a literal to find
/// as a substring of a line, or a regular-expression source to search a line
/// with.
#[derive(Debug)]
pub enum Expectation {
    Literal(String),
    Pattern(String),
}

/// The mathematical counterpart of [`Expectation`].
pub enum SpecExpectation {
    Literal(Seq<char>),
    Pattern(Seq<char>),
}

impl View for Expectation {
    type V = SpecExpectation;

    open spec fn view(&self) -> SpecExpectation {
        match self {
            Expectation::Literal(s) => SpecExpectation::Literal(s@),
            Expectation::Pattern(s) => SpecExpectation::Pattern(s@),
        }
    }
}

/// How one (trimmed, non-empty) expectation line is read: the `pattern:`
/// prefix always makes a pattern of the remainder, anything else is a
/// literal.
pub open spec fn classify(line: Seq<char>) -> SpecExpectation {
    if is_pattern_line(line) {
        SpecExpectation::Pattern(pattern_source(line))
    } else {
        SpecExpectation::Literal(line)
    }
}

/// The expectations a raw list of lines yields: each line is trimmed,
/// whitespace-only lines are dropped, and the rest are classified, in order.
pub open spec fn kept_expectations(raw: Seq<Seq<char>>) -> Seq<SpecExpectation>
    decreases raw.len(),
{
    if raw.len() == 0 {
        Seq::empty()
    } else {
        let t = spec_trim(raw[0]);
        let rest = kept_expectations(raw.drop_first());
        if t.len() == 0 {
            rest
        } else {
            seq![classify(t)] + rest
        }
    }
}

/// Whether one output line satisfies one expectation.
pub open spec fn line_matches(line: Seq<char>, e: SpecExpectation) -> bool {
    match e {
        SpecExpectation::Literal(lit) => contains_seq(line, lit),
        SpecExpectation::Pattern(p) => regex_match(p, line),
    }
}

/// Advances the cursor from line `i` until a line satisfies `e`; the cursor
/// position just past that line, or `None` if the output is exhausted first.
pub open spec fn scan_from(lines: Seq<Seq<char>>, i: int, e: SpecExpectation) -> Option<int>
    decreases lines.len() - i,
{
    if i < 0 || i >= lines.len() {
        None
    } else if line_matches(lines[i], e) {
        Some(i + 1)
    } else {
        scan_from(lines, i + 1, e)
    }
}

/// The outcome of matching: every expectation found in order; or the first
/// expectation the output ran out under; or the first pattern whose source
/// does not compile.
pub enum SpecVerdict {
    Matched,
    NotFound(SpecExpectation),
    BadPattern(Seq<char>),
}

/// Matches `exps` in order against `lines`, the cursor starting at `i`.
pub open spec fn verdict_from(
    lines: Seq<Seq<char>>,
    i: int,
    exps: Seq<SpecExpectation>,
) -> SpecVerdict
    decreases exps.len(),
{
    if exps.len() == 0 {
        SpecVerdict::Matched
    } else {
        match exps[0] {
            SpecExpectation::Pattern(p) => {
                if !regex_valid(p) {
                    SpecVerdict::BadPattern(p)
                } else {
                    match scan_from(lines, i, exps[0]) {
                        Option::None => SpecVerdict::NotFound(exps[0]),
                        Option::Some(j) => verdict_from(lines, j, exps.drop_first()),
                    }
                }
            },
            SpecExpectation::Literal(_) => {
                match scan_from(lines, i, exps[0]) {
                    Option::None => SpecVerdict::NotFound(exps[0]),
                    Option::Some(j) => verdict_from(lines, j, exps.drop_first()),
                }
            },
        }
    }
}

/// What [`parse`] decides for a given output and raw expectation list.
pub open spec fn spec_verdict(output: Seq<char>, raw_exps: Seq<Seq<char>>) -> SpecVerdict {
    verdict_from(spec_trimmed_lines(output), 0, kept_expectations(raw_exps))
}

/// With no expectations, verification succeeds, whatever the output — which
/// it never inspects.
pub proof fn lemma_empty_expectations(output: Seq<char>)
    ensures
        spec_verdict(output, Seq::empty()) == SpecVerdict::Matched,
{
    assert(kept_expectations(Seq::empty()) =~= Seq::<SpecExpectation>::empty());
}

proof fn lemma_scan_exhausted(lines: Seq<Seq<char>>, i: int, e: SpecExpectation)
    requires
        forall|k: int| i <= k < lines.len() ==> !line_matches(#[trigger] lines[k], e),
    ensures
        scan_from(lines, i, e) is None,
    decreases lines.len() - i,
{
    if 0 <= i && i < lines.len() {
        lemma_scan_exhausted(lines, i + 1, e);
    }
}

/// An expectation satisfied by some line at or after the cursor is found: the
/// scan stops at the first such line and leaves the cursor just past it,
/// never revisiting the lines it passed over.
pub proof fn lemma_scan_finds(lines: Seq<Seq<char>>, i: int, e: SpecExpectation, w: int)
    requires
        0 <= i <= w < lines.len(),
        line_matches(lines[w], e),
    ensures
        scan_from(lines, i, e) is Some,
        scan_from(lines, i, e) matches Some(j) ==> i < j <= w + 1 && line_matches(lines[j - 1], e)
            && forall|k: int| i <= k < j - 1 ==> !line_matches(#[trigger] lines[k], e),
    decreases w - i,
{
    if !line_matches(lines[i], e) {
        lemma_scan_finds(lines, i + 1, e, w);
    }
}

/// A literal that occurs within some line at or after the cursor is found:
/// verification of that single expectation succeeds, and the cursor moves
/// past its line.
pub proof fn lemma_found_literal_matches(lines: Seq<Seq<char>>, i: int, lit: Seq<char>, w: int)
    requires
        0 <= i <= w < lines.len(),
        contains_seq(lines[w], lit),
    ensures
        verdict_from(lines, i, seq![SpecExpectation::Literal(lit)]) is Matched,
{
    let e = SpecExpectation::Literal(lit);
    lemma_scan_finds(lines, i, e, w);
    assert(seq![e][0] == e);
    assert(seq![e].drop_first() =~= Seq::<SpecExpectation>::empty());
    match scan_from(lines, i, e) {
        Option::Some(j) => {
            assert(verdict_from(lines, j, Seq::<SpecExpectation>::empty())
                == SpecVerdict::Matched);
            assert(verdict_from(lines, i, seq![e]) == verdict_from(
                lines,
                j,
                seq![e].drop_first(),
            ));
        },
        Option::None => {
            assert(false);
        },
    }
}

/// Ordering is enforced: with the cursor left at `j` by the first
/// expectation, a second expectation whose matching lines all lie strictly
/// before `j` is never found, and the verdict reports it missing.
pub proof fn lemma_ordering_enforced(
    lines: Seq<Seq<char>>,
    a: SpecExpectation,
    b: SpecExpectation,
    j: int,
)
    requires
        a matches SpecExpectation::Pattern(p) ==> regex_valid(p),
        b matches SpecExpectation::Pattern(p) ==> regex_valid(p),
        scan_from(lines, 0, a) == Some(j),
        forall|k: int| j <= k < lines.len() ==> !line_matches(#[trigger] lines[k], b),
    ensures
        verdict_from(lines, 0, seq![a, b]) == SpecVerdict::NotFound(b),
{
    let exps = seq![a, b];
    assert(exps[0] == a);
    assert(exps.drop_first() =~= seq![b]);
    lemma_scan_exhausted(lines, j, b);
    assert(seq![b][0] == b);
    assert(scan_from(lines, j, b) is None);
    assert(verdict_from(lines, j, seq![b]) == SpecVerdict::NotFound(b));
    assert(verdict_from(lines, 0, exps) == verdict_from(lines, j, exps.drop_first()));
}

/// A whitespace-only expectation line is dropped before matching: inserting
/// one anywhere in the raw list leaves the kept expectations unchanged.
pub proof fn lemma_ws_expectation_dropped(raw: Seq<Seq<char>>, k: int, w: Seq<char>)
    requires
        0 <= k <= raw.len(),
        all_space(w),
    ensures
        kept_expectations(raw.insert(k, w)) == kept_expectations(raw),
    decreases raw.len(),
{
    let raw2 = raw.insert(k, w);
    if k == 0 {
        assert(raw2[0] == w);
        lemma_trim_all_ws(w);
        assert(raw2.drop_first() =~= raw);
    } else {
        assert(raw2[0] == raw[0]);
        assert(raw2.drop_first() =~= raw.drop_first().insert(k - 1, w));
        lemma_ws_expectation_dropped(raw.drop_first(), k - 1, w);
    }
}

/// Leading and trailing whitespace on an expectation line is insignificant:
/// padding one line of the raw list with whitespace leaves the kept
/// expectations unchanged.
pub proof fn lemma_padded_expectation(
    raw: Seq<Seq<char>>,
    k: int,
    pad_l: Seq<char>,
    pad_r: Seq<char>,
)
    requires
        0 <= k < raw.len(),
        all_space(pad_l),
        all_space(pad_r),
    ensures
        kept_expectations(raw.update(k, pad_l + raw[k] + pad_r)) == kept_expectations(raw),
    decreases raw.len(),
{
    let raw2 = raw.update(k, pad_l + raw[k] + pad_r);
    if k == 0 {
        assert(raw2[0] == pad_l + raw[0] + pad_r);
        lemma_trim_ws_padding(pad_l, raw[0], pad_r);
        assert(raw2.drop_first() =~= raw.drop_first());
    } else {
        assert(raw2[0] == raw[0]);
        assert(raw2.drop_first() =~= raw.drop_first().update(k - 1, pad_l + raw[k] + pad_r));
        lemma_padded_expectation(raw.drop_first(), k - 1, pad_l, pad_r);
    }
}

/// A line beginning with the `pattern:` prefix is always read as a pattern
/// expectation, its source the remainder of the line, unchanged.
pub proof fn lemma_pattern_prefix_is_pattern(line: Seq<char>)
    requires
        is_pattern_line(line),
    ensures
        classify(line) == SpecExpectation::Pattern(line.subrange(8, line.len() as int)),
{
}

/// An uncompilable source after the `pattern:` prefix is still a pattern
/// expectation: the verdict is the invalid-pattern failure carrying the
/// source untouched, whatever the output holds and whatever expectations
/// follow.
pub proof fn lemma_invalid_pattern_reported(
    lines: Seq<Seq<char>>,
    i: int,
    p: Seq<char>,
    rest: Seq<SpecExpectation>,
)
    requires
        !regex_valid(p),
    ensures
        verdict_from(lines, i, seq![SpecExpectation::Pattern(p)] + rest)
            == SpecVerdict::BadPattern(p),
{
    let exps = seq![SpecExpectation::Pattern(p)] + rest;
    assert(exps[0] == SpecExpectation::Pattern(p));
}

/// Advances the cursor from `start` to just past the first line satisfying
/// `e`, or reports that the output is exhausted.
fn scan(lines: &Vec<String>, start: usize, e: &Expectation) -> (r: Option<usize>)
    requires
        start <= lines@.len(),
        e@ matches SpecExpectation::Pattern(p) ==> regex_valid(p),
    ensures
        ({
            let lv = lines@.map_values(|l: String| l@);
            match r {
                Some(j) => start <= j <= lines@.len() && scan_from(lv, start as int, e@) == Some(
                    j as int,
                ),
                None => scan_from(lv, start as int, e@) is None,
            }
        }),
{
    let ghost lv = lines@.map_values(|l: String| l@);
    let mut idx = start;
    while idx < lines.len()
        invariant
            start <= idx <= lines@.len(),
            lv == lines@.map_values(|l: String| l@),
            e@ matches SpecExpectation::Pattern(p) ==> regex_valid(p),
            scan_from(lv, start as int, e@) == scan_from(lv, idx as int, e@),
        decreases lines@.len() - idx,
    {
        let line: &String = &lines[idx];
        let hit = match e {
            Expectation::Literal(l) => contains_sub(line.as_str(), l.as_str()),
            Expectation::Pattern(p) => is_pattern_match(p.as_str(), line.as_str()),
        };
        if hit {
            assert(line_matches(lv[idx as int], e@));
            return Some(idx + 1);
        }
        assert(!line_matches(lv[idx as int], e@));
        idx = idx + 1;
    }
    None
}

/// Parses the captured output of a debugger and verifies that the expected
/// contents are found, in order: each expectation line is trimmed,
/// whitespace-only lines are dropped, the rest must each match some output
/// line at or after the line that satisfied the previous expectation. The
/// first expectation the output runs out under, or the first `pattern:` line
/// whose remainder does not compile as a regular expression, stops the scan
/// and is returned as the error.
pub fn parse(debugger_output: String, expected_contents: Vec<&str>) -> (r: Result<(), ParseError>)
    ensures
        ({
            let verdict = spec_verdict(
                debugger_output@,
                expected_contents@.map_values(|s: &str| s@),
            );
            match r {
                Ok(_) => verdict is Matched,
                Err(e) => !(verdict is Matched) && e@ == spec_error_of(verdict),
            }
        }),
{
    let ghost raw = expected_contents@.map_values(|s: &str| s@);
    let lines = split_trimmed_lines(debugger_output.as_str());
    let ghost lv = lines@.map_values(|l: String| l@);
    let n = expected_contents.len();
    proof {
        assert(raw.subrange(0, n as int) =~= raw);
    }
    let mut k: usize = 0;
    let mut idx: usize = 0;
    while k < n
        invariant
            0 <= k <= n,
            0 <= idx <= lines@.len(),
            n == expected_contents@.len(),
            raw == expected_contents@.map_values(|s: &str| s@),
            lv == lines@.map_values(|l: String| l@),
            lv == spec_trimmed_lines(debugger_output@),
            verdict_from(lv, idx as int, kept_expectations(raw.subrange(k as int, n as int)))
                == spec_verdict(debugger_output@, raw),
        decreases n - k,
    {
        let ghost tail = raw.subrange(k as int, n as int);
        proof {
            assert(tail[0] == raw[k as int]);
            assert(tail.drop_first() =~= raw.subrange(k as int + 1, n as int));
        }
        let t: &str = trim(expected_contents[k]);
        if t.is_empty() {
            // a whitespace-only expectation line is dropped
        } else {
            let e: Expectation = match strip_pattern_prefix(t) {
                Some(p) => Expectation::Pattern(p),
                None => Expectation::Literal(t.to_owned()),
            };
            assert(e@ == classify(spec_trim(raw[k as int])));
            let ghost kept = kept_expectations(tail);
            proof {
                assert(kept =~= seq![e@] + kept_expectations(tail.drop_first()));
                assert(kept[0] == e@);
                assert(kept.drop_first() =~= kept_expectations(tail.drop_first()));
            }
            if let Expectation::Pattern(p) = &e {
                if let Some(msg) = pattern_compile_error(p.as_str()) {
                    let err = ParseError::InvalidPattern { pattern: p.clone(), message: msg };
                    return Err(err);
                }
            }
            match scan(&lines, idx, &e) {
                Some(j) => {
                    idx = j;
                },
                None => {
                    return Err(ParseError::NotFound(e));
                },
            }
        }
        k = k + 1;
    }
    proof {
        assert(raw.subrange(n as int, n as int) =~= Seq::<Seq<char>>::empty());
    }
    Ok(())
}

/// Why verification failed: an expectation never matched before the output
/// was exhausted, or a pattern expectation whose source does not compile.
#[derive(Debug)]
pub enum ParseError {
    NotFound(Expectation),
    InvalidPattern { pattern: String, message: String },
}

/// The mathematical counterpart of [`ParseError`].
pub enum SpecParseError {
    NotFound(SpecExpectation),
    InvalidPattern { pattern: Seq<char>, message: Seq<char> },
}

impl View for ParseError {
    type V = SpecParseError;

    open spec fn view(&self) -> SpecParseError {
        match self {
            ParseError::NotFound(e) => SpecParseError::NotFound(e@),
            ParseError::InvalidPattern { pattern, message } => SpecParseError::InvalidPattern {
                pattern: pattern@,
                message: message@,
            },
        }
    }
}

/// The error a failed verdict is reported as.
pub open spec fn spec_error_of(v: SpecVerdict) -> SpecParseError
    recommends
        !(v is Matched),
{
    match v {
        SpecVerdict::Matched => SpecParseError::NotFound(SpecExpectation::Literal(Seq::empty())),
        SpecVerdict::NotFound(e) => SpecParseError::NotFound(e),
        SpecVerdict::BadPattern(p) => SpecParseError::InvalidPattern {
            pattern: p,
            message: regex_error_text(p),
        },
    }
}

/// The human-readable text of a [`ParseError`].
pub open spec fn spec_error_message(e: SpecParseError) -> Seq<char> {
    match e {
        SpecParseError::NotFound(SpecExpectation::Literal(l)) =>
            "Unable to find expected content in the debugger output. Missing line: `"@ + l + "`"@,
        SpecParseError::NotFound(SpecExpectation::Pattern(p)) =>
            "Unable to find expected content in the debugger output. Found 0 matches for pattern: `"@
            + p + "`"@,
        SpecParseError::InvalidPattern { pattern, message } => "Invalid regex pattern: "@ + pattern
            + "\n"@ + message,
    }
}

impl ParseError {
    /// Renders the failure for display, self-contained: it carries the
    /// offending literal or pattern source.
    pub fn message(&self) -> (r: String)
        ensures
            r@ == spec_error_message(self@),
    {
        match self {
            ParseError::NotFound(Expectation::Literal(l)) => {
                let mut m = String::from_str(
                    "Unable to find expected content in the debugger output. Missing line: `",
                );
                m.append(l.as_str());
                m.append("`");
                assert(m@ =~= spec_error_message(self@));
                m
            },
            ParseError::NotFound(Expectation::Pattern(p)) => {
                let mut m = String::from_str(
                    "Unable to find expected content in the debugger output. Found 0 matches for pattern: `",
                );
                m.append(p.as_str());
                m.append("`");
                assert(m@ =~= spec_error_message(self@));
                m
            },
            ParseError::InvalidPattern { pattern, message } => {
                let mut m = String::from_str("Invalid regex pattern: ");
                m.append(pattern.as_str());
                m.append("\n");
                m.append(message.as_str());
                assert(m@ =~= spec_error_message(self@));
                m
            },
        }
    }
}

} // verus!
