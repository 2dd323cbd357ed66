//! Substitution of `${NAME}` references against the environment store.
//!
//! Expansion is one left-to-right pass over the text: each well-formed
//! `${NAME}` token becomes the value of `NAME` when that variable is set and
//! stays verbatim when it is not, and text substituted in is never scanned
//! again — a deliberate single-pass policy, not a fix point.

use vstd::prelude::*;

use crate::envstate::{env_lookup, EnvState};
use crate::strutil::{chars_to_string, contains_chars, contains_seq, match_at, str_to_chars};

verus! {

/// The two characters that open a variable reference.
pub open spec fn marker() -> Seq<char> {
    seq!['$', '{']
}

/// The reference token for the variable named `key`.
pub open spec fn token_of(key: Seq<char>) -> Seq<char> {
    seq!['$', '{'] + key + seq!['}']
}

/// True when `u` holds none of the three reference characters.
pub open spec fn marker_free(u: Seq<char>) -> bool {
    forall|j: int| 0 <= j < u.len() ==> u[j] != '$' && u[j] != '{' && u[j] != '}'
}

/// A well-formed variable name: non-empty and free of the reference
/// characters.
pub open spec fn wf_key(k: Seq<char>) -> bool {
    k.len() >= 1 && marker_free(k)
}

/// The first index at or after `from` where `s` holds `}`, or `s.len()`.
pub open spec fn close_pos(s: Seq<char>, from: int) -> int
    recommends
        0 <= from <= s.len(),
    decreases s.len() - from,
{
    if from < 0 || from >= s.len() {
        s.len() as int
    } else if s[from] == '}' {
        from
    } else {
        close_pos(s, from + 1)
    }
}

proof fn lemma_close_pos(s: Seq<char>, from: int)
    requires
        0 <= from <= s.len(),
    ensures
        from <= close_pos(s, from) <= s.len(),
        close_pos(s, from) < s.len() ==> s[close_pos(s, from)] == '}',
        forall|j: int| from <= j < close_pos(s, from) ==> s[j] != '}',
    decreases s.len() - from,
{
    if from < s.len() && s[from] != '}' {
        lemma_close_pos(s, from + 1);
    }
}

proof fn lemma_close_pos_at(s: Seq<char>, from: int, j: int)
    requires
        0 <= from <= j < s.len(),
        s[j] == '}',
        forall|k: int| from <= k < j ==> s[k] != '}',
    ensures
        close_pos(s, from) == j,
    decreases j - from,
{
    if from < j {
        lemma_close_pos_at(s, from + 1, j);
    }
}

proof fn lemma_close_pos_skip(s: Seq<char>, m: int, from: int)
    requires
        0 <= m <= from <= s.len(),
    ensures
        close_pos(s, from) == m + close_pos(s.skip(m), from - m),
    decreases s.len() - from,
{
    if from < s.len() {
        assert(s.skip(m)[from - m] == s[from]);
        if s[from] != '}' {
            lemma_close_pos_skip(s, m, from + 1);
        }
    }
}

/// True when a well-formed variable token opens at index `i` of `s`: the
/// marker, then a non-empty run of plain characters, then the closing brace.
pub open spec fn wf_token_from(s: Seq<char>, i: int) -> bool {
    let c = close_pos(s, i + 2);
    &&& c < s.len()
    &&& c > i + 2
    &&& forall|k: int| i + 2 <= k < c ==> s[k] != '$' && s[k] != '{'
}

/// The result of expanding `s` against the variables `es` in one
/// simultaneous pass: a well-formed token of a set variable becomes its
/// value, a token of an unset variable stays verbatim, everything else is
/// copied, and substituted-in text is not scanned again.
pub open spec fn subst_seq(es: Seq<(Seq<char>, Seq<char>)>, s: Seq<char>) -> Seq<char>
    decreases s.len(),
{
    if s.len() < 2 {
        s
    } else if s[0] == '$' && s[1] == '{' && wf_token_from(s, 0) {
        let c = close_pos(s, 2);
        let k = s.subrange(2, c);
        (match env_lookup(es, k) {
            Some(v) => v,
            None => s.take(c + 1),
        }) + subst_seq(es, s.skip(c + 1))
    } else {
        seq![s[0]] + subst_seq(es, s.skip(1))
    }
}

proof fn lemma_match_skip(s: Seq<char>, pat: Seq<char>, m: int)
    requires
        0 <= m <= s.len(),
    ensures
        forall|i: int| #[trigger] match_at(s.skip(m), pat, i) <==> 0 <= i && match_at(
            s,
            pat,
            m + i,
        ),
{
    assert forall|i: int| #[trigger] match_at(s.skip(m), pat, i) <==> 0 <= i && match_at(
        s,
        pat,
        m + i,
    ) by {
        if 0 <= i && i + pat.len() <= s.len() - m {
            assert(s.skip(m).subrange(i, i + pat.len()) =~= s.subrange(
                m + i,
                m + i + pat.len(),
            ));
        }
    }
}

/// The no-op law of expansion: a string that holds no `${` marker expands to
/// itself, whatever the environment holds.
pub proof fn lemma_expand_no_marker(es: Seq<(Seq<char>, Seq<char>)>, s: Seq<char>)
    requires
        !contains_seq(s, marker()),
    ensures
        subst_seq(es, s) == s,
    decreases s.len(),
{
    if s.len() < 2 {
    } else {
        if s[0] == '$' && s[1] == '{' {
            assert(s.subrange(0, 2) =~= marker());
            assert(match_at(s, marker(), 0));
        }
        assert forall|i: int| !match_at(s.skip(1), marker(), i) by {
            lemma_match_skip(s, marker(), 1);
        }
        lemma_expand_no_marker(es, s.skip(1));
        assert(seq![s[0]] + s.skip(1) =~= s);
    }
}

/// A token prefix is recognized as such: a well-formed key's token followed
/// by anything opens a token whose key is exactly that key.
proof fn lemma_token_head(k: Seq<char>, rest: Seq<char>)
    requires
        wf_key(k),
    ensures
        (token_of(k) + rest).len() >= 2,
        (token_of(k) + rest)[0] == '$',
        (token_of(k) + rest)[1] == '{',
        close_pos(token_of(k) + rest, 2) == 2 + k.len() as int,
        wf_token_from(token_of(k) + rest, 0),
        (token_of(k) + rest).subrange(2, 2 + k.len() as int) == k,
        (token_of(k) + rest).take(k.len() as int + 3) == token_of(k),
        (token_of(k) + rest).skip(k.len() as int + 3) == rest,
{
    let tok = token_of(k);
    let s = tok + rest;
    assert(tok[0] == '$' && tok[1] == '{');
    assert(tok[k.len() as int + 2] == '}');
    assert forall|j: int| 0 <= j < k.len() implies tok[j + 2] == k[j] by {
        assert(tok[j + 2] == (seq!['$', '{'] + k + seq!['}'])[j + 2]);
    }
    assert forall|m: int| 2 <= m < 2 + k.len() as int implies s[m] != '}' && s[m] != '$' && s[m]
        != '{' by {
        assert(s[m] == tok[m]);
        assert(tok[(m - 2) + 2] == k[m - 2]);
    }
    assert(s[2 + k.len() as int] == tok[k.len() as int + 2]);
    lemma_close_pos_at(s, 2, 2 + k.len() as int);
    assert(s.subrange(2, 2 + k.len() as int) =~= k);
    assert(s.take(k.len() as int + 3) =~= tok);
    assert(s.skip(k.len() as int + 3) =~= rest);
}

/// The replacement law, set case: at the token of a set variable, expansion
/// emits that variable's value and continues after the token; the value is
/// not scanned again.
pub proof fn lemma_expand_set_token(
    es: Seq<(Seq<char>, Seq<char>)>,
    k: Seq<char>,
    v: Seq<char>,
    rest: Seq<char>,
)
    requires
        wf_key(k),
        env_lookup(es, k) == Some(v),
    ensures
        subst_seq(es, token_of(k) + rest) == v + subst_seq(es, rest),
{
    lemma_token_head(k, rest);
}

/// The replacement law, unset case: the token of an unset variable passes
/// through verbatim and expansion continues after it.
pub proof fn lemma_expand_unset_token(
    es: Seq<(Seq<char>, Seq<char>)>,
    k: Seq<char>,
    rest: Seq<char>,
)
    requires
        wf_key(k),
        env_lookup(es, k) is None,
    ensures
        subst_seq(es, token_of(k) + rest) == token_of(k) + subst_seq(es, rest),
{
    lemma_token_head(k, rest);
}

/// The characters of the `${` marker.
fn marker_chars() -> (r: Vec<char>)
    ensures
        r@ == marker(),
{
    let mut out: Vec<char> = Vec::new();
    out.push('$');
    out.push('{');
    proof {
        assert(out@ =~= marker());
    }
    out
}

/// Expands `value` against the store in one left-to-right pass: every
/// well-formed `${NAME}` token of a set variable becomes that variable's
/// value, tokens of unset variables stay verbatim, and substituted-in text
/// is not scanned again.  Text without the `${` marker is returned
/// unchanged.
pub fn expand_value(ctx: &EnvState, value: &str) -> (r: String)
    ensures
        r@ == subst_seq(ctx.entries(), value@),
{
    let text = str_to_chars(value);
    let pat = marker_chars();
    if !contains_chars(&text, &pat) {
        proof {
            lemma_expand_no_marker(ctx.entries(), value@);
        }
        return value.to_owned();
    }
    let ghost es = ctx.entries();
    let n = text.len();
    let mut out: Vec<char> = Vec::new();
    let mut i: usize = 0;
    proof {
        assert(text@.skip(0) =~= text@);
        assert(out@ + subst_seq(es, text@) =~= subst_seq(es, text@));
    }
    while i < n
        invariant
            i <= n,
            n == text@.len(),
            es == ctx.entries(),
            subst_seq(es, text@) == out@ + subst_seq(es, text@.skip(i as int)),
        decreases n - i,
    {
        let ghost tail = text@.skip(i as int);
        proof {
            assert(tail[0] == text@[i as int]);
            if tail.len() >= 2 {
                assert(tail[1] == text@[i + 1]);
            }
            assert(tail.skip(1) =~= text@.skip(i + 1));
        }
        if text[i] == '$' && i + 1 < n && text[i + 1] == '{' {
            // scan for the closing brace, watching for stray reference
            // characters inside the would-be name
            let mut j: usize = i + 2;
            let mut bad = false;
            while j < n && text[j] != '}'
                invariant
                    i + 2 <= j <= n,
                    n == text@.len(),
                    forall|k: int| i + 2 <= k < j ==> text@[k] != '}',
                    bad == exists|k: int|
                        i + 2 <= k < j && (text@[k] == '$' || text@[k] == '{'),
                decreases n - j,
            {
                if text[j] == '$' || text[j] == '{' {
                    bad = true;
                }
                j += 1;
            }
            proof {
                lemma_close_pos_skip(text@, i as int, i + 2);
                if j < n {
                    lemma_close_pos_at(text@, i + 2, j as int);
                } else {
                    lemma_close_pos(text@, i + 2);
                }
            }
            if j < n && j > i + 2 && !bad {
                proof {
                    assert(close_pos(tail, 2) == j - i);
                    assert(wf_token_from(tail, 0)) by {
                        assert forall|m: int| 2 <= m < j - i implies tail[m] != '$' && tail[m]
                            != '{' by {
                            assert(tail[m] == text@[i + m]);
                        }
                    }
                }
                let mut key_chars: Vec<char> = Vec::new();
                let mut p: usize = i + 2;
                while p < j
                    invariant
                        i + 2 <= p <= j <= n,
                        n == text@.len(),
                        key_chars@ == text@.subrange(i + 2, p as int),
                    decreases j - p,
                {
                    key_chars.push(text[p]);
                    p += 1;
                }
                proof {
                    assert(key_chars@ =~= tail.subrange(2, j - i));
                }
                let key_string = chars_to_string(&key_chars);
                let ghost prev = out@;
                match ctx.lookup(key_string.as_str()) {
                    Some(v) => {
                        let vchars = str_to_chars(v.as_str());
                        let m = vchars.len();
                        let mut q: usize = 0;
                        while q < m
                            invariant
                                q <= m,
                                m == vchars@.len(),
                                out@ == prev + vchars@.subrange(0, q as int),
                            decreases m - q,
                        {
                            out.push(vchars[q]);
                            q += 1;
                        }
                        proof {
                            assert(out@ =~= prev + v@);
                            assert(env_lookup(es, tail.subrange(2, j - i)) == Some(v@));
                        }
                    },
                    None => {
                        let mut q: usize = i;
                        while q < j + 1
                            invariant
                                i <= q <= j + 1,
                                j < n == text@.len(),
                                out@ == prev + text@.subrange(i as int, q as int),
                            decreases j + 1 - q,
                        {
                            out.push(text[q]);
                            q += 1;
                        }
                        proof {
                            assert(out@ =~= prev + tail.take(j - i + 1));
                            assert(env_lookup(es, tail.subrange(2, j - i)) is None);
                        }
                    },
                }
                proof {
                    assert(tail.skip(j - i + 1) =~= text@.skip(j + 1));
                    assert(subst_seq(es, tail) == (match env_lookup(
                        es,
                        tail.subrange(2, j - i),
                    ) {
                        Some(v) => v,
                        None => tail.take(j - i + 1),
                    }) + subst_seq(es, tail.skip(j - i + 1)));
                }
                i = j + 1;
            } else {
                proof {
                    assert(!wf_token_from(tail, 0)) by {
                        if j >= n {
                            assert(close_pos(text@, i + 2) == n);
                            assert(close_pos(tail, 2) == n - i);
                        } else if j == i + 2 {
                            assert(close_pos(tail, 2) == 2);
                        } else {
                            let w = choose|k: int|
                                i + 2 <= k < j && (text@[k] == '$' || text@[k] == '{');
                            assert(close_pos(tail, 2) == j - i);
                            assert(tail[w - i] == text@[w]);
                        }
                    }
                    assert(subst_seq(es, tail) == seq![tail[0]] + subst_seq(es, tail.skip(1)));
                }
                out.push(text[i]);
                i += 1;
            }
        } else {
            proof {
                if tail.len() >= 2 {
                    assert(!(tail[0] == '$' && tail[1] == '{'));
                    assert(subst_seq(es, tail) == seq![tail[0]] + subst_seq(es, tail.skip(1)));
                } else {
                    assert(subst_seq(es, tail) =~= seq![tail[0]] + subst_seq(
                        es,
                        tail.skip(1),
                    ));
                }
            }
            out.push(text[i]);
            i += 1;
        }
    }
    proof {
        assert(text@.skip(n as int) =~= Seq::<char>::empty());
        assert(out@ + Seq::<char>::empty() =~= out@);
    }
    chars_to_string(&out)
}

} // verus!
