//! Character-level text operations: whitespace, trimming and
//! space-delimited tokens, each with its mathematical model on `Seq<char>`.

use vstd::prelude::*;

verus! {

/// Whether `c` carries the Unicode `White_Space` property.
pub open spec fn whitespace(c: char) -> bool {
    ||| '\u{0009}' <= c <= '\u{000D}'
    ||| c == '\u{0020}'
    ||| c == '\u{0085}'
    ||| c == '\u{00A0}'
    ||| c == '\u{1680}'
    ||| '\u{2000}' <= c <= '\u{200A}'
    ||| c == '\u{2028}'
    ||| c == '\u{2029}'
    ||| c == '\u{202F}'
    ||| c == '\u{205F}'
    ||| c == '\u{3000}'
}

/// How many whitespace characters `s` begins with.
pub open spec fn leading_whitespace(s: Seq<char>) -> nat
    decreases s.len(),
{
    if s.len() > 0 && whitespace(s.first()) {
        1 + leading_whitespace(s.drop_first())
    } else {
        0
    }
}

/// How many whitespace characters `s` ends with.
pub open spec fn trailing_whitespace(s: Seq<char>) -> nat
    decreases s.len(),
{
    if s.len() > 0 && whitespace(s.last()) {
        1 + trailing_whitespace(s.drop_last())
    } else {
        0
    }
}

/// `s` without its leading and trailing whitespace.
pub open spec fn trimmed(s: Seq<char>) -> Seq<char> {
    let t = s.skip(leading_whitespace(s) as int);
    t.take(t.len() - trailing_whitespace(t))
}

/// The length of the first space-delimited token of `s`: the number of
/// characters before the first `' '`, or all of `s` where it has none.
pub open spec fn token_len(s: Seq<char>) -> nat
    decreases s.len(),
{
    if s.len() > 0 && s.first() != ' ' {
        1 + token_len(s.drop_first())
    } else {
        0
    }
}

/// The first space-delimited token of `s`.
pub open spec fn first_token(s: Seq<char>) -> Seq<char> {
    s.take(token_len(s) as int)
}

/// What follows the `' '` that ends the first token of `s`.
pub open spec fn after_first_token(s: Seq<char>) -> Seq<char>
    recommends
        s.contains(' '),
{
    s.skip(token_len(s) as int + 1)
}

/// The first token is made of the characters before the first space: none
/// of them is a space, and a space stands right behind them wherever `s`
/// holds one at all.
pub proof fn lemma_token_len(s: Seq<char>)
    ensures
        token_len(s) <= s.len(),
        forall|i: int| 0 <= i < token_len(s) ==> s[i] != ' ',
        token_len(s) < s.len() ==> s[token_len(s) as int] == ' ',
        token_len(s) < s.len() <==> s.contains(' '),
    decreases s.len(),
{
    if s.len() > 0 && s.first() != ' ' {
        let rest = s.drop_first();
        lemma_token_len(rest);
        assert forall|i: int| 0 <= i < token_len(s) implies s[i] != ' ' by {
            if i > 0 {
                assert(s[i] == rest[i - 1]);
            }
        }
        if token_len(s) < s.len() {
            assert(s[token_len(s) as int] == rest[token_len(rest) as int]);
        }
    }
    if s.contains(' ') && token_len(s) >= s.len() {
        let i = choose|i: int| 0 <= i < s.len() && s[i] == ' ';
        assert(s[i] != ' ');
    }
}

/// Decides whether `c` is whitespace.
pub fn is_whitespace(c: char) -> (b: bool)
    ensures
        b == whitespace(c),
{
    ('\u{0009}' <= c && c <= '\u{000D}') || c == '\u{0020}' || c == '\u{0085}' || c == '\u{00A0}'
        || c == '\u{1680}' || ('\u{2000}' <= c && c <= '\u{200A}') || c == '\u{2028}' || c
        == '\u{2029}' || c == '\u{202F}' || c == '\u{205F}' || c == '\u{3000}'
}

/// The characters of `s`, in order.
pub(crate) fn chars_of(s: &str) -> (v: Vec<char>)
    ensures
        v@ == s@,
{
    let mut v: Vec<char> = Vec::new();
    for c in it: s.chars()
        invariant
            v@.len() == it.index(),
            it.seq() == s@,
            forall|i: int| 0 <= i < v@.len() ==> v@[i] == it.seq()[i],
    {
        v.push(c);
    }
    assert(v@ =~= s@);
    v
}

/// The end of the token that starts at `from`: the position of the first
/// `' '` at or after `from`, or the length of `chars` where there is none.
pub(crate) fn token_end(chars: &Vec<char>, from: usize) -> (end: usize)
    requires
        from <= chars@.len(),
    ensures
        end == from + token_len(chars@.skip(from as int)),
        end <= chars@.len(),
{
    let mut end: usize = from;
    while end < chars.len() && chars[end] != ' '
        invariant
            from <= end <= chars@.len(),
            token_len(chars@.skip(from as int)) == (end - from) + token_len(
                chars@.skip(end as int),
            ),
        decreases chars@.len() - end,
    {
        proof {
            let here = chars@.skip(end as int);
            assert(here.first() == chars@[end as int]);
            assert(here.drop_first() =~= chars@.skip(end + 1));
        }
        end = end + 1;
    }
    proof {
        let here = chars@.skip(end as int);
        if end < chars@.len() {
            assert(here.first() == chars@[end as int]);
        }
    }
    end
}

/// The bounds of `chars[from..to]` once trimmed: the piece between the two
/// returned positions is that range without its leading and trailing
/// whitespace.
pub(crate) fn trim_bounds(chars: &Vec<char>, from: usize, to: usize) -> (bounds: (usize, usize))
    requires
        from <= to <= chars@.len(),
    ensures
        from <= bounds.0 <= bounds.1 <= to,
        chars@.subrange(bounds.0 as int, bounds.1 as int) == trimmed(
            chars@.subrange(from as int, to as int),
        ),
{
    let ghost whole = chars@.subrange(from as int, to as int);
    let mut lo: usize = from;
    while lo < to && is_whitespace(chars[lo])
        invariant
            from <= lo <= to <= chars@.len(),
            leading_whitespace(chars@.subrange(from as int, to as int)) == (lo - from)
                + leading_whitespace(chars@.subrange(lo as int, to as int)),
        decreases to - lo,
    {
        proof {
            let here = chars@.subrange(lo as int, to as int);
            assert(here.first() == chars@[lo as int]);
            assert(here.drop_first() =~= chars@.subrange(lo + 1, to as int));
        }
        lo = lo + 1;
    }
    proof {
        let here = chars@.subrange(lo as int, to as int);
        if lo < to {
            assert(here.first() == chars@[lo as int]);
        }
        assert(leading_whitespace(here) == 0);
        assert(whole.skip(lo - from) =~= here);
    }
    let ghost kept = chars@.subrange(lo as int, to as int);
    let mut hi: usize = to;
    while hi > lo && is_whitespace(chars[hi - 1])
        invariant
            lo <= hi <= to <= chars@.len(),
            trailing_whitespace(chars@.subrange(lo as int, to as int)) == (to - hi)
                + trailing_whitespace(chars@.subrange(lo as int, hi as int)),
        decreases hi - lo,
    {
        proof {
            let here = chars@.subrange(lo as int, hi as int);
            assert(here.last() == chars@[hi - 1]);
            assert(here.drop_last() =~= chars@.subrange(lo as int, hi - 1));
        }
        hi = hi - 1;
    }
    proof {
        let here = chars@.subrange(lo as int, hi as int);
        if hi > lo {
            assert(here.last() == chars@[hi - 1]);
        }
        assert(trailing_whitespace(here) == 0);
        assert(kept.take(kept.len() - trailing_whitespace(kept)) =~= here);
    }
    (lo, hi)
}

} // verus!
