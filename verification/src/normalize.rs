//! Normalization of time expressions: shorthand such as `2d` or `3h` becomes
//! the spelled-out form `2 days` / `3 hours` that the version-control tool
//! understands; anything else passes through unchanged apart from trimming.

use vstd::prelude::*;

verus! {

/// A character with the Unicode White_Space property: what trimming removes
/// at the ends of an input.
pub open spec fn is_space(c: char) -> bool {
    ('\t' <= c && c <= '\r') || c == ' ' || c == '\u{85}' || c == '\u{a0}' || c == '\u{1680}' || (
    '\u{2000}' <= c && c <= '\u{200a}') || c == '\u{2028}' || c == '\u{2029}' || c == '\u{202f}'
        || c == '\u{205f}' || c == '\u{3000}'
}

/// An ASCII decimal digit.
pub open spec fn is_ascii_digit(c: char) -> bool {
    '0' <= c && c <= '9'
}

/// A single-letter unit code that the normalizer expands.
pub open spec fn is_unit_char(c: char) -> bool {
    c == 's' || c == 'm' || c == 'h' || c == 'd' || c == 'w'
}

/// The spelled-out unit word for a unit code.
pub open spec fn unit_word(c: char) -> Seq<char>
    recommends
        is_unit_char(c),
{
    if c == 's' {
        "seconds"@
    } else if c == 'm' {
        "minutes"@
    } else if c == 'h' {
        "hours"@
    } else if c == 'd' {
        "days"@
    } else {
        "weeks"@
    }
}

/// The input with blank space removed from both ends.
pub open spec fn spec_trim(s: Seq<char>) -> Seq<char>
    decreases s.len(),
{
    if s.len() == 0 {
        s
    } else if is_space(s[0]) {
        spec_trim(s.drop_first())
    } else if is_space(s[s.len() - 1]) {
        spec_trim(s.drop_last())
    } else {
        s
    }
}

/// How many characters of `s`, from the front, are ASCII digits.
pub open spec fn digit_prefix_len(s: Seq<char>) -> nat
    decreases s.len(),
{
    if s.len() == 0 || !is_ascii_digit(s[0]) {
        0
    } else {
        (1 + digit_prefix_len(s.drop_first())) as nat
    }
}

/// What `normalize_ago` returns: the trimmed input, with a recognized
/// `<digits><unit-letter>` shorthand rewritten as `<digits> <unit-word>`.
pub open spec fn spec_normalize(s: Seq<char>) -> Seq<char> {
    let t = spec_trim(s);
    let k = digit_prefix_len(t) as int;
    if 0 < k && k + 1 == t.len() && is_unit_char(t[k]) {
        t.subrange(0, k) + " "@ + unit_word(t[k])
    } else {
        t
    }
}

/// `spec_trim` is exactly the subrange that strips a blank prefix and a blank
/// suffix down to the first and last non-blank characters.
proof fn lemma_trim_is_subrange(s: Seq<char>, i: int, j: int)
    requires
        0 <= i <= j <= s.len(),
        forall|k: int| 0 <= k < i ==> is_space(s[k]),
        forall|k: int| j <= k < s.len() ==> is_space(s[k]),
        i == j || (!is_space(s[i]) && !is_space(s[j - 1])),
    ensures
        spec_trim(s) == s.subrange(i, j),
    decreases s.len(),
{
    if s.len() == 0 {
        assert(spec_trim(s) =~= s.subrange(i, j));
    } else if is_space(s[0]) {
        let d = s.drop_first();
        if i == 0 {
            // the whole string is blank: j == 0, and every character is blank
            assert(j == 0);
            assert(forall|k: int| 0 <= k < d.len() ==> is_space(d[k]));
            lemma_trim_is_subrange(d, 0, 0);
            assert(spec_trim(s) =~= s.subrange(i, j));
        } else {
            lemma_trim_is_subrange(d, i - 1, j - 1);
            assert(spec_trim(s) =~= s.subrange(i, j));
        }
    } else if is_space(s[s.len() - 1]) {
        // the first character is not blank, so i == 0 and i < j, hence j < s.len()
        assert(i == 0);
        assert(i < j);
        assert(j < s.len());
        let d = s.drop_last();
        lemma_trim_is_subrange(d, i, j);
        assert(spec_trim(s) =~= s.subrange(i, j));
    } else {
        assert(i == 0);
        assert(i < j);
        assert(j == s.len());
        assert(spec_trim(s) =~= s.subrange(i, j));
    }
}

/// `digit_prefix_len` is the unique split point: digits before it, and either
/// the end of the string or a non-digit at it.
proof fn lemma_digit_prefix_fix(s: Seq<char>, k: int)
    requires
        0 <= k <= s.len(),
        forall|i: int| 0 <= i < k ==> is_ascii_digit(s[i]),
        k == s.len() || !is_ascii_digit(s[k]),
    ensures
        digit_prefix_len(s) == k,
    decreases s.len(),
{
    if k == 0 {
    } else {
        let d = s.drop_first();
        lemma_digit_prefix_fix(d, k - 1);
    }
}

/// Every character before the digit prefix's end is a digit, and the prefix
/// ends at the string's end or at a non-digit.
proof fn lemma_digit_prefix_props(s: Seq<char>)
    ensures
        digit_prefix_len(s) <= s.len(),
        forall|i: int| 0 <= i < digit_prefix_len(s) ==> is_ascii_digit(s[i]),
        digit_prefix_len(s) < s.len() ==> !is_ascii_digit(s[digit_prefix_len(s) as int]),
    decreases s.len(),
{
    if s.len() == 0 || !is_ascii_digit(s[0]) {
    } else {
        let d = s.drop_first();
        lemma_digit_prefix_props(d);
        assert forall|i: int| 0 <= i < digit_prefix_len(s) implies is_ascii_digit(s[i]) by {
            if i > 0 {
                assert(d[i - 1] == s[i]);
            }
        }
    }
}

/// Law: a shorthand input — one or more ASCII digits followed by exactly one
/// recognized unit letter — normalizes to the digits, a space, and the
/// spelled-out unit word.
pub proof fn lemma_normalize_shorthand(digits: Seq<char>, c: char)
    requires
        digits.len() > 0,
        forall|i: int| 0 <= i < digits.len() ==> is_ascii_digit(digits[i]),
        is_unit_char(c),
    ensures
        spec_normalize(digits + seq![c]) == digits + " "@ + unit_word(c),
{
    let s = digits + seq![c];
    lemma_trim_is_subrange(s, 0, s.len() as int);
    assert(s.subrange(0, s.len() as int) =~= s);
    lemma_digit_prefix_fix(s, digits.len() as int);
    assert(s.subrange(0, digits.len() as int) =~= digits);
}

/// Law: an input whose trimmed form contains a blank character, or whose
/// trimmed form does not end in a recognized unit letter, passes through
/// unchanged apart from trimming.
pub proof fn lemma_normalize_passthrough(s: Seq<char>)
    requires
        ({
            let t = spec_trim(s);
            (exists|i: int| 0 <= i < t.len() && is_space(t[i])) || (t.len() > 0 && !is_unit_char(
                t[t.len() - 1],
            ))
        }),
    ensures
        spec_normalize(s) == spec_trim(s),
{
    let t = spec_trim(s);
    let k = digit_prefix_len(t) as int;
    lemma_digit_prefix_props(t);
    if 0 < k && k + 1 == t.len() && is_unit_char(t[k]) {
        // the shorthand shape is impossible under either premise: all of t is
        // digits then one unit letter, and none of those characters is blank
        if exists|i: int| 0 <= i < t.len() && is_space(t[i]) {
            let i = choose|i: int| 0 <= i < t.len() && is_space(t[i]);
            assert(i < k ==> is_ascii_digit(t[i]));
            assert(false);
        } else {
            assert(!is_unit_char(t[t.len() - 1]));
            assert(false);
        }
    }
}

fn is_space_char(c: char) -> (r: bool)
    ensures
        r == is_space(c),
{
    ('\t' <= c && c <= '\r') || c == ' ' || c == '\u{85}' || c == '\u{a0}' || c == '\u{1680}' || (
    '\u{2000}' <= c && c <= '\u{200a}') || c == '\u{2028}' || c == '\u{2029}' || c == '\u{202f}'
        || c == '\u{205f}' || c == '\u{3000}'
}

fn is_digit_char(c: char) -> (r: bool)
    ensures
        r == is_ascii_digit(c),
{
    '0' <= c && c <= '9'
}

/// Strip blank space from both ends of `s`.
pub(crate) fn trim_str<'a>(s: &'a str) -> (r: &'a str)
    ensures
        r@ == spec_trim(s@),
{
    let n = s.unicode_len();
    let mut i: usize = 0;
    loop
        invariant
            n == s@.len(),
            0 <= i <= n,
            forall|k: int| 0 <= k < i ==> is_space(s@[k]),
        ensures
            0 <= i <= n,
            forall|k: int| 0 <= k < i ==> is_space(s@[k]),
            i == n || !is_space(s@[i as int]),
        decreases n - i,
    {
        if i < n {
            if is_space_char(s.get_char(i)) {
                i = i + 1;
            } else {
                break;
            }
        } else {
            break;
        }
    }
    let mut j: usize = n;
    loop
        invariant
            n == s@.len(),
            0 <= i <= j <= n,
            i == n || !is_space(s@[i as int]),
            forall|k: int| j <= k < n ==> is_space(s@[k]),
        ensures
            0 <= i <= j <= n,
            forall|k: int| j <= k < n ==> is_space(s@[k]),
            i == j || !is_space(s@[j - 1]),
        decreases j - i,
    {
        if j > i {
            if is_space_char(s.get_char(j - 1)) {
                j = j - 1;
            } else {
                break;
            }
        } else {
            break;
        }
    }
    let r = s.substring_char(i, j);
    proof {
        lemma_trim_is_subrange(s@, i as int, j as int);
    }
    r
}

fn unit_word_str(c: char) -> (r: &'static str)
    requires
        is_unit_char(c),
    ensures
        r@ == unit_word(c),
{
    if c == 's' {
        "seconds"
    } else if c == 'm' {
        "minutes"
    } else if c == 'h' {
        "hours"
    } else if c == 'd' {
        "days"
    } else {
        "weeks"
    }
}

/// Rewrite shorthand like `2d`, `3h`, `1w` into the spelled-out form the
/// version-control tool accepts (`2 days`, `3 hours`, `1 weeks`). An input
/// that is not such shorthand comes back unchanged apart from trimming.
pub fn normalize_ago(input: &str) -> (r: String)
    ensures
        r@ == spec_normalize(input@),
{
    let t = trim_str(input);
    let n = t.unicode_len();
    let mut k: usize = 0;
    loop
        invariant
            n == t@.len(),
            0 <= k <= n,
            forall|p: int| 0 <= p < k ==> is_ascii_digit(t@[p]),
        ensures
            0 <= k <= n,
            forall|p: int| 0 <= p < k ==> is_ascii_digit(t@[p]),
            k == n || !is_ascii_digit(t@[k as int]),
        decreases n - k,
    {
        if k < n {
            if is_digit_char(t.get_char(k)) {
                k = k + 1;
            } else {
                break;
            }
        } else {
            break;
        }
    }
    proof {
        lemma_digit_prefix_fix(t@, k as int);
    }
    if 0 < k && k < n && k + 1 == n {
        let c = t.get_char(k);
        if c == 's' || c == 'm' || c == 'h' || c == 'd' || c == 'w' {
            let number = t.substring_char(0, k);
            let mut out = String::from_str(number);
            out.append(" ");
            out.append(unit_word_str(c));
            return out;
        }
    }
    t.to_owned()
}

} // verus!
