//! Splitting a one-line command template into tokens and resolving its
//! positional `{N}` placeholders.
use vstd::prelude::*;

use crate::chars::{find_char, find_first, is_space, is_space_char, lemma_take_step};

verus! {

/// The whitespace-separated words of `s`, left to right: the maximal runs of
/// characters that are not whitespace.
pub open spec fn words(s: Seq<char>) -> Seq<Seq<char>>
    decreases s.len(),
{
    if s.len() == 0 {
        seq![]
    } else {
        let before = words(s.drop_last());
        let c = s.last();
        if is_space(c) {
            before
        } else if s.len() >= 2 && !is_space(s[s.len() - 2]) {
            before.update(before.len() - 1, before.last().push(c))
        } else {
            before.push(seq![c])
        }
    }
}

pub open spec fn is_digit(c: char) -> bool {
    '0' <= c && c <= '9'
}

/// The number that a sequence of decimal digits writes.
pub open spec fn digits_value(d: Seq<char>) -> nat
    decreases d.len(),
{
    if d.len() == 0 {
        0
    } else {
        digits_value(d.drop_last()) * 10 + ((d.last() as u32 - '0' as u32) as nat)
    }
}

/// What follows the optional leading `+` of an unsigned number.
pub open spec fn unsigned_digits(t: Seq<char>) -> Seq<char> {
    if t.len() > 0 && t[0] == '+' {
        t.drop_first()
    } else {
        t
    }
}

pub open spec fn all_digits(d: Seq<char>) -> bool {
    forall|i: int| 0 <= i < d.len() ==> is_digit(#[trigger] d[i])
}

/// What `usize`'s `from_str` reads in `t`: an optional `+`, then at least one
/// decimal digit, with a value that fits in a `usize`.
pub open spec fn parse_usize(t: Seq<char>) -> Option<nat> {
    let d = unsigned_digits(t);
    if d.len() > 0 && all_digits(d) && digits_value(d) <= usize::MAX {
        Some(digits_value(d))
    } else {
        None
    }
}

/// The index that a placeholder token names: the text between its first `{`
/// and its first `}`, when that `}` stands after the `{`, read as a `usize`.
pub open spec fn placeholder_index(t: Seq<char>) -> Option<nat> {
    match (find_char(t, '{'), find_char(t, '}')) {
        (Some(open), Some(close)) => if open < close {
            parse_usize(t.subrange(open + 1, close))
        } else {
            None
        },
        _ => None,
    }
}

/// A whole token is replaced by the substitution it names; a token that names
/// none in range is kept as it is.
pub open spec fn substitute(t: Seq<char>, subs: Seq<Seq<char>>) -> Seq<char> {
    match placeholder_index(t) {
        Some(i) => if i < subs.len() {
            subs[i as int]
        } else {
            t
        },
        None => t,
    }
}

pub open spec fn str_views(v: Seq<&str>) -> Seq<Seq<char>> {
    v.map_values(|t: &str| t@)
}

pub open spec fn string_views(v: Seq<String>) -> Seq<Seq<char>> {
    v.map_values(|t: String| t@)
}

/// The words of `s`, each a slice of it.
fn split_words<'a>(s: &'a str) -> (r: Vec<&'a str>)
    ensures
        str_views(r@) == words(s@),
{
    let n = s.unicode_len();
    let mut out: Vec<&'a str> = Vec::new();
    let mut start: usize = 0;
    let mut in_word = false;
    let mut i: usize = 0;
    while i < n
        invariant
            n == s@.len(),
            i <= n,
            start <= i,
            !in_word ==> str_views(out@) == words(s@.take(i as int)),
            !in_word ==> (i == 0 || is_space(s@[i - 1])),
            in_word ==> start < i && !is_space(s@[i - 1]) && str_views(out@).push(
                s@.subrange(start as int, i as int),
            ) == words(s@.take(i as int)),
        decreases n - i,
    {
        let c = s.get_char(i);
        proof {
            lemma_take_step(s@, i as int);
        }
        if is_space_char(c) {
            if in_word {
                let w = s.substring_char(start, i);
                proof {
                    assert(str_views(out@.push(w)) =~= str_views(out@).push(w@));
                }
                out.push(w);
                in_word = false;
            }
        } else {
            if in_word {
                assert(s@.subrange(start as int, i as int).push(c) =~= s@.subrange(
                    start as int,
                    i as int + 1,
                ));
            } else {
                start = i;
                in_word = true;
                assert(s@.subrange(i as int, i as int + 1) =~= seq![c]);
            }
        }
        i += 1;
    }
    if in_word {
        let w = s.substring_char(start, n);
        proof {
            assert(str_views(out@.push(w)) =~= str_views(out@).push(w@));
        }
        out.push(w);
    }
    proof {
        assert(s@.take(n as int) =~= s@);
    }
    out
}

/// Splits a command line into the program, its first word, and the words
/// after it, its arguments; `None` where the line holds no word.
pub fn split_command<'a>(value: &'a str) -> (r: Option<(&'a str, Vec<&'a str>)>)
    ensures
        match r {
            None => words(value@).len() == 0,
            Some((command, args)) => {
                &&& words(value@).len() > 0
                &&& command@ == words(value@)[0]
                &&& str_views(args@) == words(value@).drop_first()
            },
        },
{
    let all = split_words(value);
    if all.len() == 0 {
        return None;
    }
    let mut args: Vec<&'a str> = Vec::new();
    let mut i: usize = 1;
    while i < all.len()
        invariant
            1 <= i <= all@.len(),
            str_views(all@) == words(value@),
            str_views(args@) =~= str_views(all@).subrange(1, i as int),
        decreases all@.len() - i,
    {
        proof {
            assert(str_views(args@.push(all@[i as int])) =~= str_views(args@).push(all@[i as int]@));
        }
        args.push(all[i]);
        i += 1;
    }
    proof {
        assert(str_views(all@).subrange(1, all@.len() as int) =~= str_views(all@).drop_first());
    }
    Some((all[0], args))
}

proof fn lemma_digits_step(d: Seq<char>, k: int)
    requires
        0 <= k < d.len(),
    ensures
        digits_value(d.take(k + 1)) == digits_value(d.take(k)) * 10 + ((d[k] as u32 - '0' as u32) as nat),
{
    lemma_take_step(d, k);
}

/// Reads `t` as `usize`'s `from_str` does.
fn parse_index(t: &str) -> (r: Option<usize>)
    ensures
        match r {
            Some(v) => parse_usize(t@) == Some(v as nat),
            None => parse_usize(t@) is None,
        },
{
    let n = t.unicode_len();
    let start: usize = if n > 0 && t.get_char(0) == '+' {
        1
    } else {
        0
    };
    let ghost d = t@.subrange(start as int, n as int);
    proof {
        if start == 1 {
            assert(d =~= t@.drop_first());
        } else {
            assert(d =~= t@);
        }
    }
    if start == n {
        return None;
    }
    let mut value: usize = 0;
    let mut overflow = false;
    let mut j: usize = start;
    while j < n
        invariant
            n == t@.len(),
            start < n,
            start <= j <= n,
            d == t@.subrange(start as int, n as int),
            d == unsigned_digits(t@),
            forall|k: int| 0 <= k < j - start ==> is_digit(#[trigger] d[k]),
            !overflow ==> value as nat == digits_value(d.take(j - start)),
            overflow ==> digits_value(d.take(j - start)) > usize::MAX,
        decreases n - j,
    {
        let c = t.get_char(j);
        if !('0' <= c && c <= '9') {
            assert(!is_digit(d[j - start]));
            return None;
        }
        proof {
            lemma_digits_step(d, j - start);
        }
        let digit = (c as u32 - '0' as u32) as usize;
        if !overflow {
            match value.checked_mul(10) {
                Some(m) => match m.checked_add(digit) {
                    Some(v) => {
                        value = v;
                    },
                    None => {
                        overflow = true;
                    },
                },
                None => {
                    overflow = true;
                },
            }
        }
        j += 1;
    }
    proof {
        assert(d.take(n - start) =~= d);
    }
    if overflow {
        None
    } else {
        Some(value)
    }
}

/// The index that a placeholder token names, if it names one.
fn parse_format(t: &str) -> (r: Option<usize>)
    ensures
        match r {
            Some(v) => placeholder_index(t@) == Some(v as nat),
            None => placeholder_index(t@) is None,
        },
{
    let open = match find_first(t, '{') {
        Some(k) => k,
        None => {
            return None;
        },
    };
    let close = match find_first(t, '}') {
        Some(k) => k,
        None => {
            return None;
        },
    };
    if close <= open {
        return None;
    }
    parse_index(t.substring_char(open + 1, close))
}

/// Resolves the placeholders of `args` against `args_in`: a token that names
/// an index into `args_in` is replaced whole by the value there; every other
/// token is kept.
pub fn transform_args<'a>(args: Vec<&'a str>, args_in: &[&'a str]) -> (r: Vec<&'a str>)
    ensures
        r@.len() == args@.len(),
        forall|i: int|
            0 <= i < args@.len() ==> (#[trigger] r@[i])@ == substitute(args@[i]@, str_views(args_in@)),
{
    let mut out: Vec<&'a str> = Vec::with_capacity(args.len());
    let mut i: usize = 0;
    while i < args.len()
        invariant
            i <= args@.len(),
            out@.len() == i,
            forall|k: int|
                0 <= k < i ==> (#[trigger] out@[k])@ == substitute(args@[k]@, str_views(args_in@)),
        decreases args@.len() - i,
    {
        let arg = args[i];
        let mut value = arg;
        match parse_format(arg) {
            Some(index) => {
                if index < args_in.len() {
                    value = args_in[index];
                }
            },
            None => {},
        }
        out.push(value);
        i += 1;
    }
    out
}

} // verus!
