use vstd::prelude::*;
use vstd::seq_lib::*;
use vstd::string::*;

verus! {

/// ASCII whitespace, the separators between the tokens of the build
/// tool's version report.
pub open spec fn is_space(c: char) -> bool {
    c == ' ' || c == '\t' || c == '\n' || c == '\r'
}

/// The longest whitespace-free prefix of `s`.
pub open spec fn leading_token(s: Seq<char>) -> Seq<char>
    decreases s.len(),
{
    if s.len() == 0 || is_space(s[0]) {
        Seq::empty()
    } else {
        seq![s[0]] + leading_token(s.drop_first())
    }
}

proof fn lemma_leading_token_len(s: Seq<char>)
    ensures
        leading_token(s).len() <= s.len(),
        s.len() > 0 && !is_space(s[0]) ==> leading_token(s).len() >= 1,
    decreases s.len(),
{
    if s.len() > 0 && !is_space(s[0]) {
        lemma_leading_token_len(s.drop_first());
    }
}

/// The whitespace-separated tokens of `s`, in order.
pub open spec fn tokens(s: Seq<char>) -> Seq<Seq<char>>
    decreases s.len(),
    via tokens_decreases
{
    if s.len() == 0 {
        Seq::empty()
    } else if is_space(s[0]) {
        tokens(s.drop_first())
    } else {
        seq![leading_token(s)] + tokens(s.skip(leading_token(s).len() as int))
    }
}

#[via_fn]
proof fn tokens_decreases(s: Seq<char>) {
    if s.len() > 0 && !is_space(s[0]) {
        lemma_leading_token_len(s);
    }
}

/// The longest whitespace-free prefix is the run of characters up to the
/// first separator (or the whole of `s` when it has none).
proof fn lemma_leading_token_chars(s: Seq<char>, k: int)
    requires
        0 <= k <= s.len(),
        forall|m: int| 0 <= m < k ==> !is_space(s[m]),
        k == s.len() || is_space(s[k]),
    ensures
        leading_token(s) =~= s.take(k),
    decreases k,
{
    if k == 0 {
    } else {
        lemma_leading_token_chars(s.drop_first(), k - 1);
        assert(s.drop_first().take(k - 1) =~= s.take(k).drop_first());
    }
}

/// True of a decimal digit.
pub open spec fn is_digit(c: char) -> bool {
    '0' as int <= c as int && c as int <= '9' as int
}

/// The numeric value of a digit character.
pub open spec fn digit_val(c: char) -> int {
    c as int - '0' as int
}

pub open spec fn all_digits(s: Seq<char>) -> bool {
    forall|i: int| 0 <= i < s.len() ==> is_digit(s[i])
}

/// The value of a digit string, most significant digit first.
pub open spec fn digits_val(s: Seq<char>) -> int
    decreases s.len(),
{
    if s.len() == 0 {
        0
    } else {
        digits_val(s.drop_last()) * 10 + digit_val(s.last())
    }
}

proof fn lemma_digits_val_nonneg(s: Seq<char>)
    requires
        all_digits(s),
    ensures
        digits_val(s) >= 0,
    decreases s.len(),
{
    if s.len() > 0 {
        assert(forall|i: int| 0 <= i < s.drop_last().len() ==> is_digit(#[trigger] s.drop_last()[i]));
        lemma_digits_val_nonneg(s.drop_last());
    }
}

/// A digit string is worth at least any of its prefixes.
proof fn lemma_digits_val_prefix(s: Seq<char>, j: int)
    requires
        all_digits(s),
        0 <= j <= s.len(),
    ensures
        digits_val(s.subrange(0, j)) <= digits_val(s),
    decreases s.len() - j,
{
    if j < s.len() {
        lemma_digits_val_prefix(s, j + 1);
        assert(s.subrange(0, j + 1).drop_last() =~= s.subrange(0, j));
        assert(forall|i: int|
            0 <= i < s.subrange(0, j).len() ==> is_digit(#[trigger] s.subrange(0, j)[i]));
        lemma_digits_val_nonneg(s.subrange(0, j));
        assert(digits_val(s.subrange(0, j + 1)) == digits_val(s.subrange(0, j)) * 10 + digit_val(
            s.subrange(0, j + 1).last(),
        ));
    } else {
        assert(s.subrange(0, j) =~= s);
    }
}

/// What parsing a decimal numeral as a 32-bit unsigned integer returns:
/// a value for a nonempty all-digit string whose value fits, nothing for
/// anything else.
pub open spec fn parsed_u32(s: Seq<char>) -> Option<u32> {
    if s.len() > 0 && all_digits(s) && digits_val(s) <= u32::MAX as int {
        Some(digits_val(s) as u32)
    } else {
        None
    }
}

/// Parses a decimal numeral: digits only, no sign, value within `u32`.
pub fn parse_u32(s: &str) -> (r: Option<u32>)
    ensures
        r == parsed_u32(s@),
{
    let n = s.unicode_len();
    if n == 0 {
        return None;
    }
    let mut acc: u32 = 0;
    let mut i: usize = 0;
    while i < n
        invariant
            0 < n == s@.len(),
            i <= n,
            all_digits(s@.subrange(0, i as int)),
            acc == digits_val(s@.subrange(0, i as int)),
        decreases n - i,
    {
        let c = s.get_char(i);
        let v = c as u32;
        if v < 48 || v > 57 {
            proof {
                assert(!is_digit(s@[i as int]));
            }
            return None;
        }
        let d: u32 = v - 48;
        let wide: u64 = acc as u64 * 10 + d as u64;
        proof {
            assert(s@.subrange(0, i + 1).drop_last() =~= s@.subrange(0, i as int));
            assert(s@.subrange(0, i + 1).last() == s@[i as int]);
            assert(forall|j: int|
                0 <= j < i + 1 ==> is_digit(#[trigger] s@.subrange(0, i + 1)[j]));
        }
        if wide > u32::MAX as u64 {
            proof {
                if all_digits(s@) {
                    lemma_digits_val_prefix(s@, i + 1);
                }
            }
            return None;
        }
        acc = wide as u32;
        i += 1;
    }
    proof {
        assert(s@.subrange(0, n as int) =~= s@);
    }
    Some(acc)
}

/// The segments of `s` between `.` separators, in order; consecutive
/// separators yield empty segments, and a string without a separator is
/// one segment.
pub open spec fn dot_parts(s: Seq<char>) -> Seq<Seq<char>>
    decreases s.len(),
{
    if s.len() == 0 {
        seq![Seq::empty()]
    } else if s[0] == '.' {
        seq![Seq::<char>::empty()] + dot_parts(s.drop_first())
    } else {
        let rest = dot_parts(s.drop_first());
        seq![seq![s[0]] + rest[0]] + rest.drop_first()
    }
}

proof fn lemma_dot_parts_nonempty(s: Seq<char>)
    ensures
        dot_parts(s).len() >= 1,
    decreases s.len(),
{
    if s.len() > 0 {
        lemma_dot_parts_nonempty(s.drop_first());
    }
}

/// A separator-free string is a single segment.
proof fn lemma_dot_parts_nodot(s: Seq<char>)
    requires
        forall|i: int| 0 <= i < s.len() ==> s[i] != '.',
    ensures
        dot_parts(s) =~= seq![s],
    decreases s.len(),
{
    if s.len() == 0 {
        assert(s =~= Seq::<char>::empty());
    } else {
        lemma_dot_parts_nodot(s.drop_first());
        assert(seq![s[0]] + s.drop_first() =~= s);
        assert(dot_parts(s.drop_first()).drop_first() =~= Seq::<Seq<char>>::empty());
        assert(dot_parts(s) =~= seq![seq![s[0]] + s.drop_first()]);
    }
}

/// Splitting at the first separator: everything before it is the first
/// segment, and the rest splits on its own.
proof fn lemma_dot_parts_split(s: Seq<char>, k: int)
    requires
        0 <= k < s.len(),
        forall|m: int| 0 <= m < k ==> s[m] != '.',
        s[k] == '.',
    ensures
        dot_parts(s) =~= seq![s.take(k)] + dot_parts(s.skip(k + 1)),
    decreases k,
{
    if k == 0 {
        assert(s.take(0) =~= Seq::<char>::empty());
        assert(s.drop_first() =~= s.skip(1));
        assert(dot_parts(s) =~= seq![s.take(0)] + dot_parts(s.skip(1)));
    } else {
        lemma_dot_parts_split(s.drop_first(), k - 1);
        assert(s.drop_first().take(k - 1) =~= s.take(k).drop_first());
        assert(s.drop_first().skip(k) =~= s.skip(k + 1));
        let rest = dot_parts(s.drop_first());
        let tail = dot_parts(s.drop_first().skip(k));
        assert(rest == seq![s.take(k).drop_first()] + tail);
        assert(rest[0] == s.take(k).drop_first());
        assert(rest.drop_first() =~= tail);
        assert(seq![s[0]] + rest[0] =~= s.take(k));
        assert(dot_parts(s) == seq![seq![s[0]] + rest[0]] + rest.drop_first());
        assert(dot_parts(s) =~= seq![s.take(k)] + dot_parts(s.skip(k + 1)));
    }
}

/// Splits a string at every `.` separator.
pub fn dot_split(s: &str) -> (parts: Vec<String>)
    ensures
        parts.deep_view() == dot_parts(s@),
{
    let n = s.unicode_len();
    let mut parts: Vec<String> = Vec::new();
    let mut start: usize = 0;
    let mut i: usize = 0;
    proof {
        assert(parts.deep_view() =~= Seq::<Seq<char>>::empty());
        assert(s@.subrange(0, n as int) =~= s@);
        assert(parts.deep_view() + dot_parts(s@) =~= dot_parts(s@));
    }
    while i < n
        invariant
            start <= i <= n,
            n == s@.len(),
            dot_parts(s@) =~= parts.deep_view() + dot_parts(s@.subrange(start as int, n as int)),
            forall|j: int| start <= j < i ==> s@[j] != '.',
        decreases n - i,
    {
        let c = s.get_char(i);
        if c == '.' {
            let piece = s.substring_char(start, i).to_owned();
            proof {
                let suffix = s@.subrange(start as int, n as int);
                lemma_dot_parts_split(suffix, i - start);
                assert(suffix.take(i - start) =~= s@.subrange(start as int, i as int));
                assert(suffix.skip(i - start + 1) =~= s@.subrange(i + 1, n as int));
            }
            let ghost prev = parts.deep_view();
            parts.push(piece);
            proof {
                assert(parts.deep_view() =~= prev.push(s@.subrange(start as int, i as int)));
                assert(parts.deep_view() + dot_parts(s@.subrange(i + 1, n as int)) =~= dot_parts(
                    s@,
                ));
            }
            start = i + 1;
        }
        i += 1;
    }
    let last = s.substring_char(start, n).to_owned();
    proof {
        lemma_dot_parts_nodot(s@.subrange(start as int, n as int));
    }
    let ghost prev = parts.deep_view();
    parts.push(last);
    proof {
        assert(parts.deep_view() =~= prev.push(s@.subrange(start as int, n as int)));
        assert(parts.deep_view() =~= dot_parts(s@));
    }
    parts
}

/// What the build tool's version token must satisfy before assembly
/// optimizations stay enabled: exactly three dot-separated decimal
/// components, with a major of at least 3 and a minor of at least 13.
/// The minor test is a plain numeric floor, not a semantic-version
/// comparison: a hypothetical `4.0.0` report fails it.
pub open spec fn version_token_ok(t: Seq<char>) -> bool {
    let parts = dot_parts(t);
    &&& parts.len() == 3
    &&& parsed_u32(parts[0]) is Some
    &&& parsed_u32(parts[1]) is Some
    &&& parsed_u32(parts[2]) is Some
    &&& parsed_u32(parts[0])->Some_0 >= 3
    &&& parsed_u32(parts[1])->Some_0 >= 13
}

/// The floor test over the whole version report: its third
/// whitespace-separated token is the version numeral and must satisfy
/// `version_token_ok`.
pub open spec fn version_floor_met(report: Seq<char>) -> bool {
    let ts = tokens(report);
    ts.len() >= 3 && version_token_ok(ts[2])
}

fn is_space_char(c: char) -> (r: bool)
    ensures
        r == is_space(c),
{
    c == ' ' || c == '\t' || c == '\n' || c == '\r'
}

/// Splits a string into its whitespace-separated tokens.
pub fn split_tokens(s: &str) -> (ts: Vec<String>)
    ensures
        ts.deep_view() == tokens(s@),
{
    let n = s.unicode_len();
    let mut ts: Vec<String> = Vec::new();
    let mut i: usize = 0;
    proof {
        assert(ts.deep_view() =~= Seq::<Seq<char>>::empty());
        assert(s@.skip(0) =~= s@);
        assert(ts.deep_view() + tokens(s@) =~= tokens(s@));
    }
    while i < n
        invariant
            i <= n,
            n == s@.len(),
            tokens(s@) =~= ts.deep_view() + tokens(s@.skip(i as int)),
        decreases n - i,
    {
        let c = s.get_char(i);
        if is_space_char(c) {
            proof {
                assert(s@.skip(i as int).drop_first() =~= s@.skip(i + 1));
            }
            i += 1;
        } else {
            let mut j: usize = i + 1;
            while j < n && !is_space_char(s.get_char(j))
                invariant
                    i < j <= n,
                    n == s@.len(),
                    forall|m: int| i <= m < j ==> !is_space(s@[m]),
                decreases n - j,
            {
                j += 1;
            }
            let piece = s.substring_char(i, j).to_owned();
            proof {
                let suffix = s@.skip(i as int);
                lemma_leading_token_chars(suffix, j - i);
                assert(suffix.take(j - i) =~= s@.subrange(i as int, j as int));
                lemma_leading_token_len(suffix);
                assert(suffix.skip(j - i) =~= s@.skip(j as int));
                assert(tokens(suffix) =~= seq![s@.subrange(i as int, j as int)] + tokens(
                    s@.skip(j as int),
                ));
            }
            let ghost prev = ts.deep_view();
            ts.push(piece);
            proof {
                assert(ts.deep_view() =~= prev.push(s@.subrange(i as int, j as int)));
                assert(tokens(s@) =~= ts.deep_view() + tokens(s@.skip(j as int)));
            }
            i = j;
        }
    }
    proof {
        assert(s@.skip(n as int) =~= Seq::<char>::empty());
        assert(ts.deep_view() =~= tokens(s@));
    }
    ts
}

/// Checks one version token against the assembly floor.
pub fn token_meets_floor(t: &str) -> (r: bool)
    ensures
        r == version_token_ok(t@),
{
    let parts = dot_split(t);
    if parts.len() != 3 {
        return false;
    }
    let p0 = parse_u32(parts[0].as_str());
    let p1 = parse_u32(parts[1].as_str());
    let p2 = parse_u32(parts[2].as_str());
    match (p0, p1, p2) {
        (Some(major), Some(minor), Some(_)) => major >= 3 && minor >= 13,
        _ => false,
    }
}

/// Checks the build tool's full version report against the assembly
/// floor.
pub fn report_meets_floor(report: &str) -> (r: bool)
    ensures
        r == version_floor_met(report@),
{
    let ts = split_tokens(report);
    if ts.len() < 3 {
        return false;
    }
    token_meets_floor(ts[2].as_str())
}

} // verus!
