use vstd::prelude::*;
use vstd::string::{StrSliceExecFns, StringExecFns};

verus! {

/// Whether `c` has the Unicode `White_Space` property.
pub uninterp spec fn is_white_space(c: char) -> bool;

/// Relies on `char::is_whitespace`: true exactly for the characters with the
/// Unicode `White_Space` property, which depends on the character alone.
#[verifier::external_body]
fn char_is_whitespace(c: char) -> (r: bool)
    ensures
        r == is_white_space(c),
{
    c.is_whitespace()
}

/// Where the run of non-separators that ends just before position `i` starts:
/// `i` itself when position `i - 1` is a separator or `i` is zero.
pub open spec fn run_start(sep: Seq<bool>, i: int) -> int
    decreases i,
{
    if i <= 0 {
        0
    } else if sep[i - 1] {
        i
    } else {
        run_start(sep, i - 1)
    }
}

/// The words of `s` that are closed by a separator before position `i`.
pub open spec fn closed_words(s: Seq<char>, sep: Seq<bool>, i: int) -> Seq<Seq<char>>
    decreases i,
{
    if i <= 0 {
        seq![]
    } else {
        let prev = closed_words(s, sep, i - 1);
        let start = run_start(sep, i - 1);
        if sep[i - 1] && start < i - 1 {
            prev.push(s.subrange(start, i - 1))
        } else {
            prev
        }
    }
}

/// The maximal runs of `s` whose positions are not marked in `sep`, in order.
pub open spec fn words_by(s: Seq<char>, sep: Seq<bool>) -> Seq<Seq<char>> {
    let n = s.len() as int;
    let start = run_start(sep, n);
    if start < n {
        closed_words(s, sep, n).push(s.subrange(start, n))
    } else {
        closed_words(s, sep, n)
    }
}

/// The words of `s` separated by Unicode white space.
pub open spec fn white_space_words(s: Seq<char>) -> Seq<Seq<char>> {
    words_by(s, s.map_values(|c: char| is_white_space(c)))
}

proof fn lemma_run_start_bounds(sep: Seq<bool>, i: int)
    requires
        0 <= i,
    ensures
        0 <= run_start(sep, i) <= i,
    decreases i,
{
    if i > 0 && !sep[i - 1] {
        lemma_run_start_bounds(sep, i - 1);
    }
}

/// Splits `s` into the maximal runs of characters whose positions `sep` does
/// not mark; `sep` holds one flag per character.
pub fn split_marked(s: &str, sep: &Vec<bool>) -> (r: Vec<String>)
    requires
        sep@.len() == s@.len(),
    ensures
        r.deep_view() == words_by(s@, sep@),
{
    let n = s.unicode_len();
    let mut out: Vec<String> = Vec::new();
    let mut start: usize = 0;
    let mut i: usize = 0;
    while i < n
        invariant
            n == s@.len(),
            sep@.len() == n,
            i <= n,
            start as int == run_start(sep@, i as int),
            out.deep_view() == closed_words(s@, sep@, i as int),
        decreases n - i,
    {
        proof {
            lemma_run_start_bounds(sep@, i as int);
        }
        if sep[i] {
            if start < i {
                let w = String::from_str(s.substring_char(start, i));
                out.push(w);
            }
            start = i + 1;
        }
        i = i + 1;
        assert(out.deep_view() =~= closed_words(s@, sep@, i as int));
    }
    proof {
        lemma_run_start_bounds(sep@, n as int);
    }
    if start < n {
        let w = String::from_str(s.substring_char(start, n));
        out.push(w);
    }
    assert(out.deep_view() =~= words_by(s@, sep@));
    out
}

/// Splits `s` into its words, separated by runs of Unicode white space.
pub fn split_white_space(s: &str) -> (r: Vec<String>)
    ensures
        r.deep_view() == white_space_words(s@),
{
    let n = s.unicode_len();
    let mut sep: Vec<bool> = Vec::new();
    let mut i: usize = 0;
    while i < n
        invariant
            n == s@.len(),
            i <= n,
            sep@ == s@.subrange(0, i as int).map_values(|c: char| is_white_space(c)),
        decreases n - i,
    {
        let c = s.get_char(i);
        sep.push(char_is_whitespace(c));
        i = i + 1;
        assert(sep@ =~= s@.subrange(0, i as int).map_values(|c: char| is_white_space(c)));
    }
    assert(s@.subrange(0, n as int) =~= s@);
    split_marked(s, &sep)
}

} // verus!
