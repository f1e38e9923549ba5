//! Text operations that the generated headers and functions are built with.

use vstd::prelude::*;
use vstd::string::{StrSliceExecFns, StringExecFns};

verus! {

/// The characters of each string.
pub open spec fn texts(strings: Seq<String>) -> Seq<Seq<char>> {
    strings.map_values(|s: String| s@)
}

/// The decimal digit with the value `d`.
pub open spec fn digit(d: nat) -> char
    recommends
        d < 10,
{
    ('0' as nat + d) as char
}

/// `n` written in decimal, without leading zeros.
pub open spec fn decimal(n: nat) -> Seq<char>
    decreases n,
{
    if n < 10 {
        seq![digit(n)]
    } else {
        decimal(n / 10).push(digit(n % 10))
    }
}

/// `parts` in their order, with `separator` between neighbours.
pub open spec fn joined(parts: Seq<Seq<char>>, separator: Seq<char>) -> Seq<char>
    decreases parts.len(),
{
    if parts.len() == 0 {
        seq![]
    } else if parts.len() == 1 {
        parts[0]
    } else {
        joined(parts.drop_last(), separator) + separator + parts.last()
    }
}

/// `s` with `by` in place of every occurrence of `pattern`.
///
/// Occurrences are taken from left to right and do not overlap. The empty
/// pattern occurs before every character and at the end.
pub open spec fn replaced(s: Seq<char>, pattern: Seq<char>, by: Seq<char>) -> Seq<char>
    decreases s.len(),
{
    if pattern.len() == 0 {
        if s.len() == 0 {
            by
        } else {
            by.push(s[0]) + replaced(s.skip(1), pattern, by)
        }
    } else if s.len() == 0 {
        seq![]
    } else if pattern.is_prefix_of(s) {
        by + replaced(s.skip(pattern.len() as int), pattern, by)
    } else {
        seq![s[0]] + replaced(s.skip(1), pattern, by)
    }
}

/// The name of the argument number `i` of an exported function.
pub open spec fn argument_name(i: nat) -> Seq<char> {
    "a_"@ + decimal(i)
}

/// The names of the first `n` arguments of an exported function.
pub open spec fn argument_names(n: nat) -> Seq<Seq<char>> {
    Seq::new(n, |i: int| argument_name(i as nat))
}

/// One directive line for each of `includes`.
pub open spec fn include_lines(includes: Seq<Seq<char>>) -> Seq<char>
    decreases includes.len(),
{
    if includes.len() == 0 {
        seq![]
    } else {
        include_lines(includes.drop_last()) + ("#include "@ + includes.last() + "\n"@)
    }
}

/// Tells whether two strings hold the same characters.
pub fn same_text(a: &str, b: &str) -> (same: bool)
    ensures
        same == (a@ == b@),
{
    a.to_string() == b.to_string()
}

/// Writes one decimal digit.
fn digit_text(d: usize) -> (text: &'static str)
    requires
        d < 10,
    ensures
        text@ == seq![digit(d as nat)],
{
    proof {
        reveal_strlit("0");
        reveal_strlit("1");
        reveal_strlit("2");
        reveal_strlit("3");
        reveal_strlit("4");
        reveal_strlit("5");
        reveal_strlit("6");
        reveal_strlit("7");
        reveal_strlit("8");
        reveal_strlit("9");
    }
    match d {
        0 => "0",
        1 => "1",
        2 => "2",
        3 => "3",
        4 => "4",
        5 => "5",
        6 => "6",
        7 => "7",
        8 => "8",
        _ => "9",
    }
}

/// Writes `n` in decimal.
pub fn decimal_text(n: usize) -> (text: String)
    ensures
        text@ == decimal(n as nat),
    decreases n,
{
    if n < 10 {
        digit_text(n).to_string()
    } else {
        let text = decimal_text(n / 10).concat(digit_text(n % 10));
        assert(text@ =~= decimal(n as nat));
        text
    }
}

/// Joins `parts` with `separator` between neighbours.
pub fn join(parts: &Vec<String>, separator: &str) -> (text: String)
    ensures
        text@ == joined(texts(parts@), separator@),
{
    let mut text = String::new();
    let ghost all = texts(parts@);
    for i in 0..parts.len()
        invariant
            all == texts(parts@),
            text@ == joined(all.take(i as int), separator@),
    {
        proof {
            assert(all.take(i + 1).drop_last() =~= all.take(i as int));
            assert(all.take(i + 1).last() == parts@[i as int]@);
        }
        if i > 0 {
            text.append(separator);
        } else {
            assert(text@ + parts@[i as int]@ =~= parts@[i as int]@);
        }
        text.append(parts[i].as_str());
    }
    proof {
        assert(all.take(parts@.len() as int) =~= all);
    }
    text
}

/// Names the first `n` arguments of an exported function.
pub fn name_arguments(n: usize) -> (names: Vec<String>)
    ensures
        texts(names@) == argument_names(n as nat),
{
    let mut names: Vec<String> = Vec::new();
    for i in 0..n
        invariant
            texts(names@) == argument_names(i as nat),
    {
        let ghost before = names@;
        let name = "a_".to_string().concat(decimal_text(i).as_str());
        names.push(name);
        proof {
            assert(texts(before).len() == argument_names(i as nat).len());
            assert forall|k: int| 0 <= k < i implies #[trigger] texts(names@)[k] == argument_name(
                k as nat,
            ) by {
                assert(texts(before)[k] == argument_names(i as nat)[k]);
            }
            assert(texts(names@) =~= argument_names((i + 1) as nat));
        }
    }
    names
}

/// Writes one directive line for each of `includes`.
pub fn render_include_lines(includes: &Vec<String>) -> (text: String)
    ensures
        text@ == include_lines(texts(includes@)),
{
    let mut text = String::new();
    let ghost all = texts(includes@);
    for i in 0..includes.len()
        invariant
            all == texts(includes@),
            text@ == include_lines(all.take(i as int)),
    {
        proof {
            assert(all.take(i + 1).drop_last() =~= all.take(i as int));
            assert(all.take(i + 1).last() == includes@[i as int]@);
        }
        let line = "#include ".to_string().concat(includes[i].as_str()).concat("\n");
        text.append(line.as_str());
    }
    proof {
        assert(all.take(includes@.len() as int) =~= all);
    }
    text
}

/// The characters of `s`, one by one.
fn characters(s: &str) -> (chars: Vec<char>)
    ensures
        chars@ == s@,
{
    let mut chars: Vec<char> = Vec::new();
    for c in it: s.chars()
        invariant
            it.seq() == s@,
            chars@ == s@.take(it.index() as int),
    {
        chars.push(c);
        assert(chars@ =~= s@.take(it.index() + 1));
    }
    assert(s@.take(s@.len() as int) =~= s@);
    chars
}

/// Tells whether `pattern` occurs in `chars` at position `at`.
fn occurs_at(chars: &Vec<char>, pattern: &Vec<char>, at: usize) -> (occurs: bool)
    requires
        at <= chars@.len(),
    ensures
        occurs == pattern@.is_prefix_of(chars@.skip(at as int)),
{
    let total = chars.len();
    if pattern.len() > total - at {
        return false;
    }
    for k in 0..pattern.len()
        invariant
            total == chars@.len(),
            at + pattern@.len() <= total,
            forall|j: int| 0 <= j < k ==> pattern@[j] == chars@[at + j],
    {
        if pattern[k] != chars[at + k] {
            assert(chars@.skip(at as int)[k as int] != pattern@[k as int]);
            return false;
        }
    }
    assert(chars@.skip(at as int).subrange(0, pattern@.len() as int) =~= pattern@);
    true
}

/// Puts `by` in place of every occurrence of `pattern` in `s`.
pub fn replace(s: &str, pattern: &str, by: &str) -> (text: String)
    ensures
        text@ == replaced(s@, pattern@, by@),
{
    let chars = characters(s);
    let pattern_chars = characters(pattern);
    let mut text = String::new();
    let n = chars.len();
    let m = pattern_chars.len();
    let mut i: usize = 0;
    assert(s@.skip(0) =~= s@);
    if m == 0 {
        assert(text@ + replaced(s@, pattern@, by@) =~= replaced(s@, pattern@, by@));
        while i < n
            invariant
                n == s@.len(),
                pattern@.len() == 0,
                i <= n,
                replaced(s@, pattern@, by@) == text@ + replaced(s@.skip(i as int), pattern@, by@),
            decreases n - i,
        {
            let ghost rest = s@.skip(i as int);
            let ghost before = text@;
            text.append(by);
            text.append(s.substring_char(i, i + 1));
            proof {
                assert(rest.skip(1) =~= s@.skip(i + 1));
                assert(s@.subrange(i as int, i + 1) =~= seq![rest[0]]);
                assert(text@ + replaced(s@.skip(i + 1), pattern@, by@) =~= before + replaced(
                    rest,
                    pattern@,
                    by@,
                ));
            }
            i = i + 1;
        }
        text.append(by);
        return text;
    }
    let mut start: usize = 0;
    assert(text@ + s@.subrange(0, 0) + replaced(s@, pattern@, by@) =~= replaced(
        s@,
        pattern@,
        by@,
    ));
    while i < n
        invariant
            n == s@.len(),
            chars@ == s@,
            pattern_chars@ == pattern@,
            m == pattern@.len(),
            m > 0,
            start <= i <= n,
            replaced(s@, pattern@, by@) == text@ + s@.subrange(start as int, i as int) + replaced(
                s@.skip(i as int),
                pattern@,
                by@,
            ),
        decreases n - i,
    {
        let ghost rest = s@.skip(i as int);
        let ghost before = text@;
        let ghost kept = s@.subrange(start as int, i as int);
        if occurs_at(&chars, &pattern_chars, i) {
            text.append(s.substring_char(start, i));
            text.append(by);
            proof {
                assert(rest.skip(m as int) =~= s@.skip(i + m));
                assert(text@ + s@.subrange(i + m, i + m) + replaced(s@.skip(i + m), pattern@, by@)
                    =~= before + kept + replaced(rest, pattern@, by@));
            }
            i = i + m;
            start = i;
        } else {
            proof {
                assert(rest.skip(1) =~= s@.skip(i + 1));
                assert(s@.subrange(start as int, i + 1) =~= kept.push(rest[0]));
                assert(before + s@.subrange(start as int, i + 1) + replaced(
                    s@.skip(i + 1),
                    pattern@,
                    by@,
                ) =~= before + kept + replaced(rest, pattern@, by@));
            }
            i = i + 1;
        }
    }
    text.append(s.substring_char(start, n));
    proof {
        assert(s@.skip(n as int) =~= seq![]);
        assert(text@ + replaced(s@.skip(n as int), pattern@, by@) =~= text@);
    }
    text
}

} // verus!
