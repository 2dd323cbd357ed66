//! Character-sequence utilities shared by the expansion and environment logic.
//!
//! All executable text manipulation in this crate works on `Vec<char>` so
//! that every step is specified against `Seq<char>` views; the only trusted
//! step is the final conversion of a character vector back into a `String`.

use vstd::prelude::*;

verus! {

/// True when `pat` occurs in `s` starting at index `i`.
pub open spec fn match_at(s: Seq<char>, pat: Seq<char>, i: int) -> bool {
    0 <= i && i + pat.len() <= s.len() && s.subrange(i, i + pat.len()) == pat
}

/// True when `pat` occurs somewhere in `s`.
pub open spec fn contains_seq(s: Seq<char>, pat: Seq<char>) -> bool {
    exists|i: int| match_at(s, pat, i)
}

/// True when `s` begins with `pre`.
pub open spec fn starts_with_seq(s: Seq<char>, pre: Seq<char>) -> bool {
    pre.len() <= s.len() && s.subrange(0, pre.len() as int) == pre
}

/// Replacement of every left-to-right, non-overlapping occurrence of `pat` in
/// `s` by `rep`; text substituted in is not scanned again.  An empty pattern
/// replaces nothing.
pub open spec fn replace_seq(s: Seq<char>, pat: Seq<char>, rep: Seq<char>) -> Seq<char>
    decreases s.len(),
{
    if pat.len() == 0 || s.len() < pat.len() {
        s
    } else if s.subrange(0, pat.len() as int) == pat {
        rep + replace_seq(s.skip(pat.len() as int), pat, rep)
    } else {
        seq![s[0]] + replace_seq(s.skip(1), pat, rep)
    }
}

/// The pieces of `s` delimited by `sep`; splitting the empty sequence gives
/// one empty piece, and every separator ends one piece and begins another.
pub open spec fn split_seq(s: Seq<char>, sep: char) -> Seq<Seq<char>>
    decreases s.len(),
{
    if s.len() == 0 {
        seq![Seq::<char>::empty()]
    } else if s[0] == sep {
        seq![Seq::<char>::empty()] + split_seq(s.skip(1), sep)
    } else {
        let rest = split_seq(s.skip(1), sep);
        seq![seq![s[0]] + rest[0]] + rest.skip(1)
    }
}

/// The pieces of `parts` glued together with `sep` between neighbours.
pub open spec fn join_seq(parts: Seq<Seq<char>>, sep: char) -> Seq<char>
    decreases parts.len(),
{
    if parts.len() == 0 {
        Seq::<char>::empty()
    } else if parts.len() == 1 {
        parts[0]
    } else {
        parts[0] + seq![sep] + join_seq(parts.skip(1), sep)
    }
}

proof fn lemma_split_nonempty(s: Seq<char>, sep: char)
    ensures
        split_seq(s, sep).len() >= 1,
    decreases s.len(),
{
    if s.len() == 0 {
    } else if s[0] == sep {
    } else {
        lemma_split_nonempty(s.skip(1), sep);
    }
}

/// The characters of `s` as a vector.
pub fn str_to_chars(s: &str) -> (r: Vec<char>)
    ensures
        r@ == s@,
{
    let n = s.unicode_len();
    let mut out: Vec<char> = Vec::new();
    let mut i: usize = 0;
    while i < n
        invariant
            i <= n,
            n == s@.len(),
            out@ == s@.subrange(0, i as int),
        decreases n - i,
    {
        out.push(s.get_char(i));
        i += 1;
    }
    proof {
        assert(out@ =~= s@);
    }
    out
}

/// Relies on `core::iter::Iterator::collect` for `String`: a string collected
/// from a sequence of characters holds exactly those characters.
#[verifier::external_body]
pub(crate) fn chars_to_string(chars: &Vec<char>) -> (r: String)
    ensures
        r@ == chars@,
{
    chars.iter().collect()
}

/// True exactly when `pat` occurs in `text` starting at `i`.
pub fn matches_at(text: &Vec<char>, pat: &Vec<char>, i: usize) -> (r: bool)
    requires
        i <= text@.len(),
    ensures
        r == match_at(text@, pat@, i as int),
{
    if text.len() - i < pat.len() {
        return false;
    }
    let mut j: usize = 0;
    while j < pat.len()
        invariant
            j <= pat@.len(),
            i + pat@.len() <= text@.len(),
            text@.len() <= usize::MAX,
            forall|k: int| 0 <= k < j ==> text@[i + k] == pat@[k],
        decreases pat@.len() - j,
    {
        if text[i + j] != pat[j] {
            proof {
                assert(text@.subrange(i as int, i + pat@.len())[j as int] == text@[i + j]);
            }
            return false;
        }
        j += 1;
    }
    proof {
        assert(text@.subrange(i as int, i + pat@.len()) =~= pat@);
    }
    true
}

/// True exactly when `pat` occurs somewhere in `text`.
pub fn contains_chars(text: &Vec<char>, pat: &Vec<char>) -> (r: bool)
    requires
        pat@.len() >= 1,
    ensures
        r == contains_seq(text@, pat@),
{
    if pat.len() > text.len() {
        proof {
            assert(forall|k: int| match_at(text@, pat@, k) ==> k + pat@.len() <= text@.len());
        }
        return false;
    }
    let mut i: usize = 0;
    let last_start = text.len() - pat.len();
    while i <= last_start
        invariant
            i <= last_start + 1,
            last_start == text@.len() - pat@.len(),
            pat@.len() >= 1,
            pat@.len() <= text@.len() <= usize::MAX,
            forall|k: int| 0 <= k < i ==> !match_at(text@, pat@, k),
        decreases last_start + 1 - i,
    {
        if matches_at(text, pat, i) {
            return true;
        }
        i += 1;
    }
    proof {
        assert(forall|k: int| match_at(text@, pat@, k) ==> 0 <= k && k + pat@.len()
            <= text@.len());
    }
    false
}

/// Replaces every left-to-right occurrence of `pat` in `text` by `rep`.
pub fn replace_chars(text: &Vec<char>, pat: &Vec<char>, rep: &Vec<char>) -> (r: Vec<char>)
    requires
        pat@.len() >= 1,
    ensures
        r@ == replace_seq(text@, pat@, rep@),
{
    let mut out: Vec<char> = Vec::new();
    let mut i: usize = 0;
    let n = text.len();
    proof {
        assert(text@.skip(0) =~= text@);
        assert(Seq::<char>::empty() + replace_seq(text@, pat@, rep@) =~= replace_seq(
            text@,
            pat@,
            rep@,
        ));
    }
    while i < n
        invariant
            i <= n,
            n == text@.len(),
            pat@.len() >= 1,
            replace_seq(text@, pat@, rep@) == out@ + replace_seq(
                text@.skip(i as int),
                pat@,
                rep@,
            ),
        decreases text@.len() - i,
    {
        let ghost prev = out@;
        if matches_at(text, pat, i) {
            let mut j: usize = 0;
            while j < rep.len()
                invariant
                    j <= rep@.len(),
                    out@ == prev + rep@.subrange(0, j as int),
                decreases rep@.len() - j,
            {
                out.push(rep[j]);
                j += 1;
            }
            proof {
                let tail = text@.skip(i as int);
                assert(tail.subrange(0, pat@.len() as int) =~= text@.subrange(
                    i as int,
                    i + pat@.len(),
                ));
                assert(tail.skip(pat@.len() as int) =~= text@.skip(i + pat@.len()));
                assert(out@ =~= prev + rep@);
            }
            i += pat.len();
        } else {
            out.push(text[i]);
            proof {
                let tail = text@.skip(i as int);
                if tail.len() >= pat@.len() {
                    assert(tail.subrange(0, pat@.len() as int) =~= text@.subrange(
                        i as int,
                        i + pat@.len(),
                    ));
                }
                assert(seq![tail[0]] =~= text@.subrange(i as int, i + 1));
                assert(tail.skip(1) =~= text@.skip(i + 1));
                assert(prev + seq![tail[0]] =~= out@);
            }
            i += 1;
        }
    }
    proof {
        assert(text@.skip(text@.len() as int) =~= Seq::<char>::empty());
        assert(out@ + Seq::<char>::empty() =~= out@);
    }
    out
}

/// Splits `text` at every occurrence of `sep`.
pub fn split_chars(text: &Vec<char>, sep: char) -> (r: Vec<Vec<char>>)
    ensures
        views_of(r@) == split_seq(text@, sep),
{
    let mut out: Vec<Vec<char>> = Vec::new();
    let mut cur: Vec<char> = Vec::new();
    let mut i: usize = 0;
    let n = text.len();
    proof {
        assert(text@.skip(0) =~= text@);
        lemma_split_nonempty(text@, sep);
        let parts = split_seq(text@, sep);
        assert(out@.map_values(|p: Vec<char>| p@) + prepend_first(cur@, parts) =~~= parts);
    }
    while i < n
        invariant
            i <= n,
            n == text@.len(),
            split_seq(text@, sep) == out@.map_values(|p: Vec<char>| p@) + prepend_first(
                cur@,
                split_seq(text@.skip(i as int), sep),
            ),
        decreases text@.len() - i,
    {
        let ghost tail = text@.skip(i as int);
        let ghost outs = out@.map_values(|p: Vec<char>| p@);
        proof {
            lemma_split_nonempty(text@.skip(i + 1), sep);
            assert(tail.skip(1) =~= text@.skip(i + 1));
        }
        if text[i] == sep {
            let done = cur;
            cur = Vec::new();
            out.push(done);
            proof {
                let parts = split_seq(text@.skip(i + 1), sep);
                assert(split_seq(tail, sep) == seq![Seq::<char>::empty()] + parts);
                assert(outs + prepend_first(done@, seq![Seq::<char>::empty()] + parts)
                    =~~= out@.map_values(|p: Vec<char>| p@) + prepend_first(cur@, parts));
            }
        } else {
            let ghost prev = cur@;
            cur.push(text[i]);
            proof {
                let parts = split_seq(text@.skip(i + 1), sep);
                assert(split_seq(tail, sep) == seq![seq![tail[0]] + parts[0]] + parts.skip(1));
                assert(outs + prepend_first(prev, seq![seq![tail[0]] + parts[0]] + parts.skip(1))
                    =~~= outs + prepend_first(cur@, parts));
            }
        }
        i += 1;
    }
    let ghost outs_before = out@.map_values(|p: Vec<char>| p@);
    let ghost last = cur@;
    out.push(cur);
    proof {
        assert(text@.skip(n as int) =~= Seq::<char>::empty());
        assert(prepend_first(last, seq![Seq::<char>::empty()]) =~~= seq![last]);
        assert(out@.map_values(|p: Vec<char>| p@) =~~= outs_before + seq![last]);
    }
    out
}

/// The views of a vector of character vectors.
pub open spec fn views_of(parts: Seq<Vec<char>>) -> Seq<Seq<char>> {
    parts.map_values(|p: Vec<char>| p@)
}

pub broadcast proof fn lemma_views_of(parts: Seq<Vec<char>>)
    ensures
        (#[trigger] views_of(parts)).len() == parts.len(),
        forall|i: int| 0 <= i < parts.len() ==> #[trigger] views_of(parts)[i] == parts[i]@,
{
    assert forall|i: int| 0 <= i < parts.len() implies #[trigger] views_of(parts)[i]
        == parts[i]@ by {
        assert(views_of(parts)[i] == (|p: Vec<char>| p@)(parts[i]));
    }
}

/// The pieces of `parts`, with the first extended on the left by `head`.
pub open spec fn prepend_first(head: Seq<char>, parts: Seq<Seq<char>>) -> Seq<Seq<char>>
    recommends
        parts.len() >= 1,
{
    seq![head + parts[0]] + parts.skip(1)
}

/// Joins `parts` with `sep` between neighbours.
pub fn join_chars(parts: &Vec<Vec<char>>, sep: char) -> (r: Vec<char>)
    ensures
        r@ == join_seq(views_of(parts@), sep),
{
    let mut out: Vec<char> = Vec::new();
    if parts.len() == 0 {
        return out;
    }
    let mut i: usize = 0;
    let n = parts.len();
    proof {
        let views = parts@.map_values(|p: Vec<char>| p@);
        assert(views.skip(0) =~~= views);
        assert(out@ + join_seq(views, sep) =~= join_seq(views, sep));
    }
    while i < n
        invariant
            i < n,
            n == parts@.len(),
            join_seq(parts@.map_values(|p: Vec<char>| p@), sep) == out@ + join_seq(
                parts@.map_values(|p: Vec<char>| p@).skip(i as int),
                sep,
            ),
        decreases n - i,
    {
        let ghost views = parts@.map_values(|p: Vec<char>| p@);
        let ghost mid = out@;
        let piece = &parts[i];
        let mut j: usize = 0;
        while j < piece.len()
            invariant
                j <= piece@.len(),
                out@ == mid + piece@.subrange(0, j as int),
            decreases piece@.len() - j,
        {
            out.push(piece[j]);
            j += 1;
        }
        proof {
            assert(piece@.subrange(0, piece@.len() as int) =~= piece@);
            assert(out@ =~= mid + views[i as int]);
            let tail = views.skip(i as int);
            assert(tail[0] == views[i as int]);
            assert(tail.skip(1) =~= views.skip(i + 1));
        }
        if i + 1 == n {
            proof {
                let tail = views.skip(i as int);
                assert(tail.len() == 1);
                assert(join_seq(tail, sep) == tail[0]);
            }
            return out;
        }
        out.push(sep);
        proof {
            let tail = views.skip(i as int);
            assert(tail.len() >= 2);
            assert(join_seq(tail, sep) == tail[0] + seq![sep] + join_seq(tail.skip(1), sep));
            assert(out@ =~= mid + tail[0] + seq![sep]);
            assert(mid + (tail[0] + seq![sep] + join_seq(tail.skip(1), sep)) =~= (mid + tail[0]
                + seq![sep]) + join_seq(tail.skip(1), sep));
        }
        i += 1;
    }
    out
}

/// The views of a vector of owned strings.
pub open spec fn str_views(parts: Seq<String>) -> Seq<Seq<char>> {
    parts.map_values(|s: String| s@)
}

pub broadcast proof fn lemma_str_views(parts: Seq<String>)
    ensures
        (#[trigger] str_views(parts)).len() == parts.len(),
        forall|i: int| 0 <= i < parts.len() ==> #[trigger] str_views(parts)[i] == parts[i]@,
{
    assert forall|i: int| 0 <= i < parts.len() implies #[trigger] str_views(parts)[i]
        == parts[i]@ by {
        assert(str_views(parts)[i] == (|s: String| s@)(parts[i]));
    }
}

pub proof fn lemma_views_push(parts: Seq<Vec<char>>, v: Vec<char>)
    ensures
        views_of(parts.push(v)) == views_of(parts).push(v@),
{
    lemma_views_of(parts);
    lemma_views_of(parts.push(v));
    assert(views_of(parts.push(v)) =~~= views_of(parts).push(v@));
}

pub proof fn lemma_str_views_push(parts: Seq<String>, s: String)
    ensures
        str_views(parts.push(s)) == str_views(parts).push(s@),
{
    lemma_str_views(parts);
    lemma_str_views(parts.push(s));
    assert(str_views(parts.push(s)) =~~= str_views(parts).push(s@));
}

/// A copy of a character vector.
pub fn clone_chars(v: &Vec<char>) -> (r: Vec<char>)
    ensures
        r@ == v@,
{
    let n = v.len();
    let mut out: Vec<char> = Vec::new();
    let mut i: usize = 0;
    while i < n
        invariant
            i <= n,
            n == v@.len(),
            out@ == v@.subrange(0, i as int),
        decreases n - i,
    {
        out.push(v[i]);
        i += 1;
    }
    proof {
        assert(out@ =~= v@);
    }
    out
}

/// True exactly when the two vectors hold the same characters.
pub fn chars_eq(a: &Vec<char>, b: &Vec<char>) -> (r: bool)
    ensures
        r == (a@ == b@),
{
    if a.len() != b.len() {
        return false;
    }
    let n = a.len();
    let mut i: usize = 0;
    while i < n
        invariant
            i <= n,
            n == a@.len() == b@.len(),
            forall|j: int| 0 <= j < i ==> a@[j] == b@[j],
        decreases n - i,
    {
        if a[i] != b[i] {
            return false;
        }
        i += 1;
    }
    proof {
        assert(a@ =~= b@);
    }
    true
}

} // verus!
