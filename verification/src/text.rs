//! Text primitives the matcher and the script builder are specified with:
//! whitespace trimming, line splitting, substring search and decimal
//! rendering, each proved against a direct mathematical definition.

use vstd::prelude::*;
use vstd::string::StrSliceExecFns;

verus! {

/// The characters `str::trim` treats as whitespace (the Unicode
/// `White_Space` property).
pub open spec fn is_space(c: char) -> bool {
    ||| c == ' '
    ||| c == '\t'
    ||| c == '\n'
    ||| c == '\r'
    ||| c == '\u{0b}'
    ||| c == '\u{0c}'
    ||| c == '\u{85}'
    ||| c == '\u{a0}'
    ||| c == '\u{1680}'
    ||| ('\u{2000}' <= c && c <= '\u{200a}')
    ||| c == '\u{2028}'
    ||| c == '\u{2029}'
    ||| c == '\u{202f}'
    ||| c == '\u{205f}'
    ||| c == '\u{3000}'
}

fn is_space_exec(c: char) -> (r: bool)
    ensures
        r == is_space(c),
{
    c == ' ' || c == '\t' || c == '\n' || c == '\r' || c == '\u{0b}' || c == '\u{0c}'
        || c == '\u{85}' || c == '\u{a0}' || c == '\u{1680}' || ('\u{2000}' <= c && c
        <= '\u{200a}') || c == '\u{2028}' || c == '\u{2029}' || c == '\u{202f}' || c == '\u{205f}'
        || c == '\u{3000}'
}

/// The sequence without its leading whitespace.
pub open spec fn trim_start_rec(s: Seq<char>) -> Seq<char>
    decreases s.len(),
{
    if s.len() == 0 {
        s
    } else if is_space(s[0]) {
        trim_start_rec(s.drop_first())
    } else {
        s
    }
}

/// The sequence without its trailing whitespace.
pub open spec fn trim_end_rec(s: Seq<char>) -> Seq<char>
    decreases s.len(),
{
    if s.len() == 0 {
        s
    } else if is_space(s.last()) {
        trim_end_rec(s.drop_last())
    } else {
        s
    }
}

/// The sequence without leading and trailing whitespace: what `str::trim`
/// returns.
pub open spec fn spec_trim(s: Seq<char>) -> Seq<char> {
    trim_end_rec(trim_start_rec(s))
}

proof fn lemma_trim_start_at(s: Seq<char>, i: int)
    requires
        0 <= i <= s.len(),
        forall|k: int| 0 <= k < i ==> is_space(s[k]),
        i == s.len() || !is_space(s[i]),
    ensures
        trim_start_rec(s) == s.subrange(i, s.len() as int),
    decreases i,
{
    if i == 0 {
        assert(s.subrange(0, s.len() as int) =~= s);
    } else {
        let t = s.drop_first();
        assert(is_space(s[0]));
        assert(forall|k: int| 0 <= k < i - 1 ==> is_space(t[k]));
        lemma_trim_start_at(t, i - 1);
        assert(t.subrange(i - 1, t.len() as int) =~= s.subrange(i, s.len() as int));
    }
}

proof fn lemma_trim_end_at(s: Seq<char>, j: int)
    requires
        0 <= j <= s.len(),
        forall|k: int| j <= k < s.len() ==> is_space(s[k]),
        j == 0 || !is_space(s[j - 1]),
    ensures
        trim_end_rec(s) == s.subrange(0, j),
    decreases s.len() - j,
{
    if j == s.len() {
        if s.len() == 0 {
            assert(s.subrange(0, 0) =~= s);
        } else if is_space(s.last()) {
            let t = s.drop_last();
            lemma_trim_end_at(t, j - 1);
            assert(false);
        } else {
            assert(s.subrange(0, j) =~= s);
        }
    } else {
        assert(is_space(s.last()));
        let t = s.drop_last();
        assert(forall|k: int| j <= k < t.len() ==> is_space(t[k]));
        lemma_trim_end_at(t, j);
        assert(t.subrange(0, j) =~= s.subrange(0, j));
    }
}

/// Index of the first newline in `s`, or `s.len()` if there is none.
pub open spec fn first_nl(s: Seq<char>) -> int
    decreases s.len(),
{
    if s.len() == 0 {
        0
    } else if s[0] == '\n' {
        0
    } else {
        1 + first_nl(s.drop_first())
    }
}

proof fn lemma_first_nl_bounds(s: Seq<char>)
    ensures
        0 <= first_nl(s) <= s.len(),
        forall|k: int| 0 <= k < first_nl(s) ==> s[k] != '\n',
        first_nl(s) < s.len() ==> s[first_nl(s)] == '\n',
    decreases s.len(),
{
    if s.len() != 0 && s[0] != '\n' {
        let t = s.drop_first();
        lemma_first_nl_bounds(t);
        assert forall|k: int| 0 <= k < first_nl(s) implies s[k] != '\n' by {
            if k > 0 {
                assert(s[k] == t[k - 1]);
            }
        }
    }
}

/// `s` split at each newline; the separators are dropped. A sequence without
/// a newline splits into itself alone, so the empty sequence splits into one
/// empty piece.
pub open spec fn spec_split_nl(s: Seq<char>) -> Seq<Seq<char>>
    decreases s.len(),
    via spec_split_nl_decreases
{
    let i = first_nl(s);
    if i >= s.len() {
        seq![s]
    } else {
        seq![s.subrange(0, i)] + spec_split_nl(s.subrange(i + 1, s.len() as int))
    }
}

#[via_fn]
proof fn spec_split_nl_decreases(s: Seq<char>) {
    lemma_first_nl_bounds(s);
}

/// The lines of `s`, as the matcher scans them: the empty text has no lines,
/// any other text is split at each newline.
pub open spec fn spec_lines(s: Seq<char>) -> Seq<Seq<char>> {
    if s.len() == 0 {
        Seq::empty()
    } else {
        spec_split_nl(s)
    }
}

proof fn lemma_first_nl_concat(a: Seq<char>, b: Seq<char>)
    requires
        forall|k: int| 0 <= k < a.len() ==> a[k] != '\n',
    ensures
        first_nl(a + seq!['\n'] + b) == a.len(),
    decreases a.len(),
{
    let s = a + seq!['\n'] + b;
    if a.len() == 0 {
        assert(s[0] == '\n');
    } else {
        assert(s[0] == a[0]);
        lemma_first_nl_concat(a.drop_first(), b);
        assert(s.drop_first() =~= a.drop_first() + seq!['\n'] + b);
    }
}

proof fn lemma_first_nl_none(a: Seq<char>)
    requires
        forall|k: int| 0 <= k < a.len() ==> a[k] != '\n',
    ensures
        first_nl(a) == a.len(),
    decreases a.len(),
{
    if a.len() != 0 {
        lemma_first_nl_none(a.drop_first());
    }
}

proof fn lemma_split_nl_concat(a: Seq<char>, b: Seq<char>)
    requires
        forall|k: int| 0 <= k < a.len() ==> a[k] != '\n',
    ensures
        spec_split_nl(a + seq!['\n'] + b) == seq![a] + spec_split_nl(b),
{
    let s = a + seq!['\n'] + b;
    lemma_first_nl_concat(a, b);
    assert(s.subrange(0, a.len() as int) =~= a);
    assert(s.subrange(a.len() as int + 1, s.len() as int) =~= b);
}

proof fn lemma_split_nl_whole(a: Seq<char>)
    requires
        forall|k: int| 0 <= k < a.len() ==> a[k] != '\n',
    ensures
        spec_split_nl(a) == seq![a],
{
    lemma_first_nl_none(a);
}

/// Splits `s` at each newline. The empty string yields no lines; otherwise
/// the pieces between newlines, in order, separators dropped.
pub fn split_lines(s: &str) -> (r: Vec<String>)
    ensures
        r@.map_values(|l: String| l@) == spec_lines(s@),
{
    let mut lines: Vec<String> = Vec::new();
    if s.is_empty() {
        assert(lines@.map_values(|l: String| l@) =~= spec_lines(s@));
        return lines;
    }
    let len = s.unicode_len();
    proof {
        assert(s@.subrange(0, len as int) =~= s@);
        assert(lines@.map_values(|l: String| l@) =~= Seq::<Seq<char>>::empty());
    }
    let mut start: usize = 0;
    let mut i: usize = 0;
    while i < len
        invariant
            0 <= start <= i <= len,
            len == s@.len(),
            forall|k: int| start <= k < i ==> s@[k] != '\n',
            lines@.map_values(|l: String| l@) + spec_split_nl(
                s@.subrange(start as int, len as int),
            ) =~= spec_split_nl(s@),
        decreases len - i,
    {
        if s.get_char(i) == '\n' {
            let line = s.substring_char(start, i);
            let ghost old_lines = lines@.map_values(|l: String| l@);
            lines.push(line.to_owned());
            proof {
                let rest = s@.subrange(start as int, len as int);
                let a = s@.subrange(start as int, i as int);
                let b = s@.subrange(i + 1, len as int);
                assert(rest =~= a + seq!['\n'] + b);
                lemma_split_nl_concat(a, b);
                assert(lines@.map_values(|l: String| l@) =~= old_lines + seq![a]);
            }
            start = i + 1;
        }
        i = i + 1;
    }
    let last = s.substring_char(start, len);
    let ghost old_lines = lines@.map_values(|l: String| l@);
    lines.push(last.to_owned());
    proof {
        let a = s@.subrange(start as int, len as int);
        lemma_split_nl_whole(a);
        assert(lines@.map_values(|l: String| l@) =~= old_lines + seq![a]);
        assert(lines@.map_values(|l: String| l@) =~= spec_split_nl(s@));
    }
    lines
}

/// Trims leading and trailing whitespace, as `str::trim` does.
pub fn trim(s: &str) -> (r: &str)
    ensures
        r@ == spec_trim(s@),
{
    let len = s.unicode_len();
    let mut start: usize = 0;
    while start < len && is_space_exec(s.get_char(start))
        invariant
            0 <= start <= len,
            len == s@.len(),
            forall|k: int| 0 <= k < start ==> is_space(s@[k]),
        decreases len - start,
    {
        start = start + 1;
    }
    let mut end: usize = len;
    while end > start && is_space_exec(s.get_char(end - 1))
        invariant
            start <= end <= len,
            len == s@.len(),
            forall|k: int| end <= k < len ==> is_space(s@[k]),
        decreases end,
    {
        end = end - 1;
    }
    proof {
        lemma_trim_start_at(s@, start as int);
        let t = s@.subrange(start as int, len as int);
        lemma_trim_end_at(t, end - start);
        assert(t.subrange(0, end - start) =~= s@.subrange(start as int, end as int));
    }
    s.substring_char(start, end)
}

/// Whether every character of `s` is whitespace.
pub open spec fn all_space(s: Seq<char>) -> bool {
    forall|k: int| 0 <= k < s.len() ==> is_space(s[k])
}

proof fn lemma_trim_start_ws_prefix(pad: Seq<char>, s: Seq<char>)
    requires
        all_space(pad),
    ensures
        trim_start_rec(pad + s) == trim_start_rec(s),
    decreases pad.len(),
{
    if pad.len() == 0 {
        assert(pad + s =~= s);
    } else {
        assert((pad + s)[0] == pad[0]);
        assert((pad + s).drop_first() =~= pad.drop_first() + s);
        lemma_trim_start_ws_prefix(pad.drop_first(), s);
    }
}

proof fn lemma_trim_start_all_ws(s: Seq<char>)
    requires
        all_space(s),
    ensures
        trim_start_rec(s) == Seq::<char>::empty(),
    decreases s.len(),
{
    if s.len() == 0 {
        assert(s =~= Seq::<char>::empty());
    } else {
        lemma_trim_start_all_ws(s.drop_first());
    }
}

proof fn lemma_trim_start_append(s: Seq<char>, pad: Seq<char>)
    requires
        !all_space(s),
    ensures
        trim_start_rec(s + pad) == trim_start_rec(s) + pad,
    decreases s.len(),
{
    let w = choose|k: int| 0 <= k < s.len() && !is_space(s[k]);
    if is_space(s[0]) {
        let t = s.drop_first();
        assert(!is_space(t[w - 1]));
        assert((s + pad)[0] == s[0]);
        assert((s + pad).drop_first() =~= t + pad);
        lemma_trim_start_append(t, pad);
    } else {
        assert((s + pad)[0] == s[0]);
        assert(trim_start_rec(s + pad) == s + pad);
    }
}

proof fn lemma_trim_end_ws_suffix(s: Seq<char>, pad: Seq<char>)
    requires
        all_space(pad),
    ensures
        trim_end_rec(s + pad) == trim_end_rec(s),
    decreases pad.len(),
{
    if pad.len() == 0 {
        assert(s + pad =~= s);
    } else {
        assert((s + pad).last() == pad.last());
        assert((s + pad).drop_last() =~= s + pad.drop_last());
        assert(all_space(pad.drop_last()));
        lemma_trim_end_ws_suffix(s, pad.drop_last());
    }
}

/// Leading and trailing whitespace is insignificant: padding a string with
/// whitespace on either side does not change what it trims to.
pub proof fn lemma_trim_ws_padding(pad_l: Seq<char>, s: Seq<char>, pad_r: Seq<char>)
    requires
        all_space(pad_l),
        all_space(pad_r),
    ensures
        spec_trim(pad_l + s + pad_r) == spec_trim(s),
{
    assert(pad_l + s + pad_r =~= pad_l + (s + pad_r));
    lemma_trim_start_ws_prefix(pad_l, s + pad_r);
    if all_space(s) {
        assert(all_space(s + pad_r));
        lemma_trim_start_all_ws(s + pad_r);
        lemma_trim_start_all_ws(s);
    } else {
        lemma_trim_start_append(s, pad_r);
        lemma_trim_end_ws_suffix(trim_start_rec(s), pad_r);
    }
}

/// A whitespace-only string trims to nothing.
pub proof fn lemma_trim_all_ws(s: Seq<char>)
    requires
        all_space(s),
    ensures
        spec_trim(s) == Seq::<char>::empty(),
{
    lemma_trim_start_all_ws(s);
}

/// The whole text trimmed, split into lines, each line trimmed: the lines the
/// matcher scans, and the command lines a raw block of text yields.
pub open spec fn spec_trimmed_lines(s: Seq<char>) -> Seq<Seq<char>> {
    spec_lines(spec_trim(s)).map_values(|l: Seq<char>| spec_trim(l))
}

/// Trims `s`, splits it into lines and trims each line.
pub fn split_trimmed_lines(s: &str) -> (r: Vec<String>)
    ensures
        r@.map_values(|l: String| l@) == spec_trimmed_lines(s@),
{
    let whole = trim(s);
    let lines = split_lines(whole);
    let mut out: Vec<String> = Vec::new();
    let n = lines.len();
    let ghost line_views = lines@.map_values(|l: String| l@);
    let mut i: usize = 0;
    while i < n
        invariant
            0 <= i <= n,
            n == lines.len(),
            line_views == lines@.map_values(|l: String| l@),
            line_views == spec_lines(spec_trim(s@)),
            out@.map_values(|l: String| l@) =~= line_views.subrange(0, i as int).map_values(
                |l: Seq<char>| spec_trim(l),
            ),
        decreases n - i,
    {
        let t = trim(lines[i].as_str());
        out.push(t.to_owned());
        proof {
            assert(line_views.subrange(0, i + 1).drop_last() =~= line_views.subrange(0, i as int));
            assert(line_views.subrange(0, i + 1).map_values(|l: Seq<char>| spec_trim(l)) =~= line_views.subrange(
                0,
                i as int,
            ).map_values(|l: Seq<char>| spec_trim(l)).push(spec_trim(line_views[i as int])));
        }
        i = i + 1;
    }
    proof {
        assert(line_views.subrange(0, n as int) =~= line_views);
        assert(out@.map_values(|l: String| l@) =~= spec_trimmed_lines(s@));
    }
    out
}

/// Whether some piece of `hay` equals `needle`: substring containment, as
/// `str::contains` decides it.
pub open spec fn contains_seq(hay: Seq<char>, needle: Seq<char>) -> bool {
    exists|i: int|
        0 <= i && i + needle.len() <= hay.len() && #[trigger] hay.subrange(i, i + needle.len())
            == needle
}

fn matches_at(hay: &str, needle: &str, i: usize) -> (r: bool)
    requires
        i + needle@.len() <= hay@.len(),
        hay@.len() <= usize::MAX,
    ensures
        r == (hay@.subrange(i as int, i + needle@.len()) == needle@),
{
    let nl = needle.unicode_len();
    let mut j: usize = 0;
    while j < nl
        invariant
            0 <= j <= nl,
            nl == needle@.len(),
            i + nl <= hay@.len(),
            hay@.len() <= usize::MAX,
            forall|k: int| 0 <= k < j ==> hay@[i + k] == needle@[k],
        decreases nl - j,
    {
        if hay.get_char(i + j) != needle.get_char(j) {
            proof {
                assert(hay@.subrange(i as int, i + needle@.len())[j as int] == hay@[i + j]);
            }
            return false;
        }
        j = j + 1;
    }
    proof {
        assert(hay@.subrange(i as int, i + needle@.len()) =~= needle@);
    }
    true
}

/// Whether `needle` occurs anywhere within `hay`.
pub fn contains_sub(hay: &str, needle: &str) -> (r: bool)
    ensures
        r == contains_seq(hay@, needle@),
{
    let hl = hay.unicode_len();
    let nl = needle.unicode_len();
    if nl > hl {
        proof {
            assert forall|i: int|
                !(0 <= i && i + needle@.len() <= hay@.len() && #[trigger] hay@.subrange(
                    i,
                    i + needle@.len(),
                ) == needle@) by {}
        }
        return false;
    }
    if nl == 0 {
        proof {
            assert(hay@.subrange(0, 0 + needle@.len() as int) =~= needle@);
            assert(contains_seq(hay@, needle@));
        }
        return true;
    }
    let mut i: usize = 0;
    while i <= hl - nl
        invariant
            0 <= i <= hl - nl + 1,
            1 <= nl,
            nl <= hl,
            hl == hay@.len(),
            nl == needle@.len(),
            forall|k: int| 0 <= k < i ==> #[trigger] hay@.subrange(k, k + needle@.len()) != needle@,
        decreases hl - nl + 1 - i,
    {
        if matches_at(hay, needle, i) {
            return true;
        }
        i = i + 1;
    }
    proof {
        assert forall|k: int|
            !(0 <= k && k + needle@.len() <= hay@.len() && #[trigger] hay@.subrange(
                k,
                k + needle@.len(),
            ) == needle@) by {
            if 0 <= k && k + needle@.len() <= hay@.len() {
                assert(k < i);
            }
        }
    }
    false
}

/// The reserved prefix that marks a pattern expectation.
pub open spec fn spec_pattern_prefix() -> Seq<char> {
    seq!['p', 'a', 't', 't', 'e', 'r', 'n', ':']
}

/// Whether a line begins with the `pattern:` prefix.
pub open spec fn is_pattern_line(s: Seq<char>) -> bool {
    s.len() >= 8 && s.subrange(0, 8) == spec_pattern_prefix()
}

/// The regular-expression source of a pattern line: everything after the
/// prefix, untouched.
pub open spec fn pattern_source(s: Seq<char>) -> Seq<char> {
    s.subrange(8, s.len() as int)
}

/// Strips the `pattern:` prefix from `s`, returning the remainder, or `None`
/// where `s` does not begin with it.
pub fn strip_pattern_prefix(s: &str) -> (r: Option<String>)
    ensures
        r is Some <==> is_pattern_line(s@),
        r matches Some(rest) ==> rest@ == pattern_source(s@),
{
    let len = s.unicode_len();
    if len < 8 {
        return None;
    }
    if s.get_char(0) == 'p' && s.get_char(1) == 'a' && s.get_char(2) == 't' && s.get_char(3) == 't'
        && s.get_char(4) == 'e' && s.get_char(5) == 'r' && s.get_char(6) == 'n' && s.get_char(7)
        == ':' {
        proof {
            assert(s@.subrange(0, 8) =~= spec_pattern_prefix());
        }
        let rest = s.substring_char(8, len);
        Some(rest.to_owned())
    } else {
        proof {
            if is_pattern_line(s@) {
                assert(s@.subrange(0, 8)[0] == 'p');
                assert(s@.subrange(0, 8)[1] == 'a');
                assert(s@.subrange(0, 8)[2] == 't');
                assert(s@.subrange(0, 8)[3] == 't');
                assert(s@.subrange(0, 8)[4] == 'e');
                assert(s@.subrange(0, 8)[5] == 'r');
                assert(s@.subrange(0, 8)[6] == 'n');
                assert(s@.subrange(0, 8)[7] == ':');
            }
        }
        None
    }
}

/// The decimal digit for a value below ten.
pub open spec fn spec_digit(d: int) -> char {
    if d == 0 {
        '0'
    } else if d == 1 {
        '1'
    } else if d == 2 {
        '2'
    } else if d == 3 {
        '3'
    } else if d == 4 {
        '4'
    } else if d == 5 {
        '5'
    } else if d == 6 {
        '6'
    } else if d == 7 {
        '7'
    } else if d == 8 {
        '8'
    } else {
        '9'
    }
}

/// The decimal rendering of `n`, most significant digit first, without
/// leading zeros (zero itself is `"0"`).
pub open spec fn spec_dec(n: nat) -> Seq<char>
    decreases n,
{
    if n < 10 {
        seq![spec_digit(n as int)]
    } else {
        spec_dec(n / 10) + seq![spec_digit((n % 10) as int)]
    }
}

fn digit_str(d: u64) -> (r: &'static str)
    requires
        d < 10,
    ensures
        r@ =~= seq![spec_digit(d as int)],
{
    proof {
        reveal_strlit("0");
        reveal_strlit("1");
        reveal_strlit("2");
        reveal_strlit("3");
        reveal_strlit("4");
        reveal_strlit("5");
        reveal_strlit("6");
        reveal_strlit("7");
        reveal_strlit("8");
        reveal_strlit("9");
    }
    if d == 0 {
        "0"
    } else if d == 1 {
        "1"
    } else if d == 2 {
        "2"
    } else if d == 3 {
        "3"
    } else if d == 4 {
        "4"
    } else if d == 5 {
        "5"
    } else if d == 6 {
        "6"
    } else if d == 7 {
        "7"
    } else if d == 8 {
        "8"
    } else {
        "9"
    }
}

/// Renders `n` in decimal.
pub fn fmt_u64(n: u64) -> (r: String)
    ensures
        r@ == spec_dec(n as nat),
    decreases n,
{
    let d = n % 10;
    let digit = digit_str(d);
    if n < 10 {
        digit.to_owned()
    } else {
        let mut prefix = fmt_u64(n / 10);
        prefix.append(digit);
        assert(prefix@ =~= spec_dec(n as nat));
        prefix
    }
}

} // verus!
