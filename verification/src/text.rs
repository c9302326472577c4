//! Character and string helpers: the whitespace predicate, trimming, and
//! joining token lists with single spaces.

use vstd::prelude::*;

verus! {

/// The set of whitespace characters recognised when trimming a command
/// string: the Unicode `White_Space` characters.
pub open spec fn is_space(c: char) -> bool {
    c == ' ' || c == '\t' || c == '\n' || c == '\u{B}' || c == '\u{C}' || c == '\r'
        || c == '\u{85}' || c == '\u{A0}' || c == '\u{1680}'
        || ('\u{2000}' <= c && c <= '\u{200A}') || c == '\u{2028}' || c == '\u{2029}'
        || c == '\u{202F}' || c == '\u{205F}' || c == '\u{3000}'
}

/// Decides `is_space` on a concrete character.
pub fn is_space_char(c: char) -> (r: bool)
    ensures
        r == is_space(c),
{
    c == ' ' || c == '\t' || c == '\n' || c == '\u{B}' || c == '\u{C}' || c == '\r'
        || c == '\u{85}' || c == '\u{A0}' || c == '\u{1680}'
        || ('\u{2000}' <= c && c <= '\u{200A}') || c == '\u{2028}' || c == '\u{2029}'
        || c == '\u{202F}' || c == '\u{205F}' || c == '\u{3000}'
}

/// Tokens joined with a single space between consecutive tokens; no
/// separator is added before the first token or after the last.
pub open spec fn join_spec(ts: Seq<Seq<char>>) -> Seq<char>
    decreases ts.len(),
{
    if ts.len() == 0 {
        Seq::<char>::empty()
    } else if ts.len() == 1 {
        ts[0]
    } else {
        join_spec(ts.drop_last()) + " "@ + ts.last()
    }
}

/// The sequence without its leading whitespace.
pub open spec fn trim_left_spec(s: Seq<char>) -> Seq<char>
    decreases s.len(),
{
    if s.len() > 0 && is_space(s[0]) {
        trim_left_spec(s.drop_first())
    } else {
        s
    }
}

/// The sequence without its trailing whitespace.
pub open spec fn trim_right_spec(s: Seq<char>) -> Seq<char>
    decreases s.len(),
{
    if s.len() > 0 && is_space(s.last()) {
        trim_right_spec(s.drop_last())
    } else {
        s
    }
}

/// The sequence without its leading and trailing whitespace.
pub open spec fn trim_spec(s: Seq<char>) -> Seq<char> {
    trim_right_spec(trim_left_spec(s))
}

/// Joins the tokens with single spaces.
pub fn join_tokens(toks: &Vec<String>) -> (r: String)
    ensures
        r@ == join_spec(toks.deep_view()),
{
    let ghost ts = toks.deep_view();
    let mut r = String::new();
    proof {
        assert(ts.take(0) =~= Seq::<Seq<char>>::empty());
    }
    let mut i: usize = 0;
    while i < toks.len()
        invariant
            i <= toks.len(),
            ts == toks.deep_view(),
            ts.len() == toks.len(),
            r@ == join_spec(ts.take(i as int)),
        decreases toks.len() - i,
    {
        if i > 0 {
            r.append(" ");
        }
        r.append(toks[i].as_str());
        proof {
            assert(ts[i as int] == toks@[i as int]@);
            if i == 0 {
                assert(ts.take(1) =~= seq![ts[0]]);
                assert(join_spec(ts.take(1)) == ts[0]);
            } else {
                let t = ts.take(i + 1);
                assert(t.len() == i + 1 >= 2);
                assert(t.drop_last() =~= ts.take(i as int));
                assert(t.last() == ts[i as int]);
                assert(join_spec(t) == join_spec(ts.take(i as int)) + " "@ + ts[i as int]);
            }
        }
        i = i + 1;
    }
    proof {
        assert(ts.take(ts.len() as int) =~= ts);
    }
    r
}

/// Removes leading and trailing whitespace from a string.
pub fn trim_str(s: &str) -> (r: String)
    ensures
        r@ == trim_spec(s@),
{
    let n = s.unicode_len();
    proof {
        assert(s@.subrange(0, n as int) =~= s@);
    }
    let mut lo: usize = 0;
    while lo < n && is_space_char(s.get_char(lo))
        invariant
            lo <= n,
            n == s@.len(),
            trim_left_spec(s@) == trim_left_spec(s@.subrange(lo as int, n as int)),
        decreases n - lo,
    {
        proof {
            let t = s@.subrange(lo as int, n as int);
            assert(t[0] == s@[lo as int]);
            assert(t.drop_first() =~= s@.subrange(lo + 1, n as int));
        }
        lo = lo + 1;
    }
    proof {
        let t = s@.subrange(lo as int, n as int);
        if lo < n {
            assert(t[0] == s@[lo as int]);
            assert(!is_space(t[0]));
        }
        assert(trim_left_spec(t) == t);
    }
    let mut hi: usize = n;
    while hi > lo && is_space_char(s.get_char(hi - 1))
        invariant
            lo <= hi <= n,
            n == s@.len(),
            trim_spec(s@) == trim_right_spec(s@.subrange(lo as int, hi as int)),
        decreases hi,
    {
        proof {
            let t = s@.subrange(lo as int, hi as int);
            assert(t.last() == s@[hi - 1]);
            assert(t.drop_last() =~= s@.subrange(lo as int, hi - 1));
        }
        hi = hi - 1;
    }
    proof {
        let t = s@.subrange(lo as int, hi as int);
        if hi > lo {
            assert(t.last() == s@[hi - 1]);
            assert(!is_space(t.last()));
        }
        assert(trim_right_spec(t) == t);
    }
    let out = s.substring_char(lo, hi);
    String::from_str(out)
}

/// A token list rendered as the command string: joined with single spaces,
/// then trimmed of surrounding whitespace.
pub open spec fn command_spec(ts: Seq<Seq<char>>) -> Seq<char> {
    trim_spec(join_spec(ts))
}

/// Renders the captured command tokens as a single string.
pub fn command_string(toks: &Vec<String>) -> (r: String)
    ensures
        r@ == command_spec(toks.deep_view()),
{
    let joined = join_tokens(toks);
    trim_str(joined.as_str())
}

} // verus!
