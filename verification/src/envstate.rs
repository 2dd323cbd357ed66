//! An explicit model of the process environment: an ordered store of
//! variable-name / value pairs with unique names.
//!
//! The runner mutates this store while preparing a task and exports it to the
//! real process environment only at the boundary, so every update made here
//! is fully specified.

use vstd::prelude::*;

verus! {

/// True when no variable name occurs twice in `es`.
pub open spec fn keys_unique(es: Seq<(Seq<char>, Seq<char>)>) -> bool {
    forall|i: int, j: int| 0 <= i < j < es.len() ==> es[i].0 != es[j].0
}

/// The index of the entry for `key` in `es`, or `es.len()` if there is none.
pub open spec fn key_index(es: Seq<(Seq<char>, Seq<char>)>, key: Seq<char>) -> int
    decreases es.len(),
{
    if es.len() == 0 {
        0
    } else if es[0].0 == key {
        0
    } else {
        1 + key_index(es.skip(1), key)
    }
}

/// The value bound to `key` in `es`, if any.
pub open spec fn env_lookup(es: Seq<(Seq<char>, Seq<char>)>, key: Seq<char>) -> Option<
    Seq<char>,
> {
    if key_index(es, key) < es.len() {
        Some(es[key_index(es, key)].1)
    } else {
        None
    }
}

/// The value bound to `key` in `es`, or `default` if there is none.
pub open spec fn env_get(
    es: Seq<(Seq<char>, Seq<char>)>,
    key: Seq<char>,
    default: Seq<char>,
) -> Seq<char> {
    match env_lookup(es, key) {
        Some(v) => v,
        None => default,
    }
}

/// `es` with `key` bound to `value`: an existing binding is updated in place,
/// a new one is appended at the end.
pub open spec fn env_set(
    es: Seq<(Seq<char>, Seq<char>)>,
    key: Seq<char>,
    value: Seq<char>,
) -> Seq<(Seq<char>, Seq<char>)> {
    if key_index(es, key) < es.len() {
        es.update(key_index(es, key), (key, value))
    } else {
        es.push((key, value))
    }
}

pub broadcast proof fn lemma_key_index(es: Seq<(Seq<char>, Seq<char>)>, key: Seq<char>)
    ensures
        0 <= #[trigger] key_index(es, key) <= es.len(),
        key_index(es, key) < es.len() ==> es[key_index(es, key)].0 == key,
        forall|i: int| 0 <= i < key_index(es, key) ==> es[i].0 != key,
    decreases es.len(),
{
    if es.len() > 0 && es[0].0 != key {
        lemma_key_index(es.skip(1), key);
        assert(forall|i: int| 1 <= i < es.len() ==> es[i] == es.skip(1)[i - 1]);
    }
}

/// Binding a variable never duplicates a name.
pub proof fn lemma_env_set_wf(es: Seq<(Seq<char>, Seq<char>)>, k: Seq<char>, v: Seq<char>)
    requires
        keys_unique(es),
    ensures
        keys_unique(env_set(es, k, v)),
{
    lemma_key_index(es, k);
    let idx = key_index(es, k);
    let es2 = env_set(es, k, v);
    if idx < es.len() {
        assert(es[idx].0 == k);
        assert forall|a: int, b: int| 0 <= a < b < es2.len() implies es2[a].0 != es2[b].0 by {
            assert(es[a].0 != es[b].0);
            if a == idx {
                assert(es2[a].0 == k && es2[b] == es[b] && es[a].0 == k);
            } else if b == idx {
                assert(es2[b].0 == k && es2[a] == es[a] && es[b].0 == k);
            } else {
                assert(es2[a] == es[a] && es2[b] == es[b]);
            }
        }
    } else {
        assert(forall|i: int| 0 <= i < es.len() ==> es[i].0 != k);
        assert forall|a: int, b: int| 0 <= a < b < es2.len() implies es2[a].0 != es2[b].0 by {
            if b < es.len() {
                assert(es2[a] == es[a] && es2[b] == es[b]);
            } else {
                assert(es2[b].0 == k && es2[a] == es[a]);
            }
        }
    }
}

/// The name/value views of a vector of owned string pairs.
pub open spec fn pair_views(ps: Seq<(String, String)>) -> Seq<(Seq<char>, Seq<char>)> {
    ps.map_values(|p: (String, String)| (p.0@, p.1@))
}

pub broadcast proof fn lemma_pair_views(ps: Seq<(String, String)>)
    ensures
        (#[trigger] pair_views(ps)).len() == ps.len(),
        forall|i: int| 0 <= i < ps.len() ==> #[trigger] pair_views(ps)[i] == (ps[i].0@, ps[i].1@),
{
    assert forall|i: int| 0 <= i < ps.len() implies #[trigger] pair_views(ps)[i] == (
        ps[i].0@,
        ps[i].1@,
    ) by {
        assert(pair_views(ps)[i] == (|p: (String, String)| (p.0@, p.1@))(ps[i]));
    }
}

/// An ordered store of environment variables.
pub struct EnvState {
    vars: Vec<(String, String)>,
}

impl EnvState {
    /// The stored name/value pairs, in order.
    pub closed spec fn entries(&self) -> Seq<(Seq<char>, Seq<char>)> {
        pair_views(self.vars@)
    }

    /// Every name occurs at most once.
    pub open spec fn wf(&self) -> bool {
        keys_unique(self.entries())
    }

    /// An empty store.
    pub fn new() -> (r: EnvState)
        ensures
            r.entries() == Seq::<(Seq<char>, Seq<char>)>::empty(),
            r.wf(),
    {
        broadcast use lemma_pair_views;

        let r = EnvState { vars: Vec::new() };
        proof {
            assert(r.entries() =~= Seq::<(Seq<char>, Seq<char>)>::empty());
        }
        r
    }

    /// Binds `key` to `value`, replacing any existing binding in place.
    pub fn set(&mut self, key: &str, value: &str)
        requires
            old(self).wf(),
        ensures
            final(self).wf(),
            final(self).entries() == env_set(old(self).entries(), key@, value@),
    {
        broadcast use lemma_pair_views;

        proof {
            lemma_key_index(self.entries(), key@);
        }
        let key_owned = key.to_owned();
        let n = self.vars.len();
        let mut i: usize = 0;
        while i < n
            invariant
                i <= n,
                n == self.vars@.len(),
                key_owned@ == key@,
                old(self).wf(),
                self == old(self),
                forall|j: int| 0 <= j < i ==> self.entries()[j].0 != key@,
            decreases n - i,
        {
            if self.vars[i].0.eq(&key_owned) {
                proof {
                    assert(self.entries()[i as int].0 == key@);
                    assert(key_index(self.entries(), key@) == i) by {
                        lemma_key_index(self.entries(), key@);
                        if key_index(self.entries(), key@) < i {
                            assert(self.entries()[key_index(self.entries(), key@)].0 == key@);
                        }
                        if key_index(self.entries(), key@) > i {
                            assert(self.entries()[i as int].0 != key@);
                        }
                    }
                }
                self.vars[i] = (key.to_owned(), value.to_owned());
                proof {
                    assert(self.entries() =~= env_set(old(self).entries(), key@, value@));
                    lemma_env_set_wf(old(self).entries(), key@, value@);
                }
                return ;
            }
            i += 1;
        }
        proof {
            lemma_key_index(self.entries(), key@);
            assert(key_index(self.entries(), key@) == self.entries().len()) by {
                if key_index(self.entries(), key@) < self.entries().len() {
                    assert(self.entries()[key_index(self.entries(), key@)].0 == key@);
                }
            }
        }
        self.vars.push((key.to_owned(), value.to_owned()));
        proof {
            assert(self.entries() =~= env_set(old(self).entries(), key@, value@));
            lemma_env_set_wf(old(self).entries(), key@, value@);
        }
    }

    /// The value bound to `key`, or `default` when `key` is unset.
    pub fn get(&self, key: &str, default: &str) -> (r: String)
        ensures
            r@ == env_get(self.entries(), key@, default@),
    {
        broadcast use lemma_pair_views;

        proof {
            lemma_key_index(self.entries(), key@);
        }
        let key_owned = key.to_owned();
        let n = self.vars.len();
        let mut i: usize = 0;
        while i < n
            invariant
                i <= n,
                n == self.vars@.len(),
                key_owned@ == key@,
                forall|j: int| 0 <= j < i ==> self.entries()[j].0 != key@,
            decreases n - i,
        {
            if self.vars[i].0.eq(&key_owned) {
                proof {
                    lemma_key_index(self.entries(), key@);
                    assert(self.entries()[i as int].0 == key@);
                    assert(key_index(self.entries(), key@) == i) by {
                        if key_index(self.entries(), key@) < i {
                            assert(self.entries()[key_index(self.entries(), key@)].0 == key@);
                        }
                        if key_index(self.entries(), key@) > i {
                            assert(self.entries()[i as int].0 != key@);
                        }
                    }
                }
                return self.vars[i].1.clone();
            }
            i += 1;
        }
        proof {
            lemma_key_index(self.entries(), key@);
            if key_index(self.entries(), key@) < self.entries().len() {
                assert(self.entries()[key_index(self.entries(), key@)].0 == key@);
            }
        }
        default.to_owned()
    }

    /// The value bound to `key`, if any.
    pub fn lookup(&self, key: &str) -> (r: Option<String>)
        ensures
            crate::types::opt_str_view(r) == env_lookup(self.entries(), key@),
    {
        proof {
            lemma_key_index(self.entries(), key@);
        }
        let key_owned = key.to_owned();
        let n = self.vars.len();
        let mut i: usize = 0;
        while i < n
            invariant
                i <= n,
                n == self.vars@.len(),
                key_owned@ == key@,
                forall|j: int| 0 <= j < i ==> self.entries()[j].0 != key@,
            decreases n - i,
        {
            if self.vars[i].0.eq(&key_owned) {
                proof {
                    lemma_key_index(self.entries(), key@);
                    assert(self.entries()[i as int].0 == key@);
                    assert(key_index(self.entries(), key@) == i) by {
                        if key_index(self.entries(), key@) < i {
                            assert(self.entries()[key_index(self.entries(), key@)].0 == key@);
                        }
                        if key_index(self.entries(), key@) > i {
                            assert(self.entries()[i as int].0 != key@);
                        }
                    }
                }
                return Some(self.vars[i].1.clone());
            }
            i += 1;
        }
        proof {
            lemma_key_index(self.entries(), key@);
            if key_index(self.entries(), key@) < self.entries().len() {
                assert(self.entries()[key_index(self.entries(), key@)].0 == key@);
            }
        }
        None
    }

    /// The stored pairs as owned strings, in order.
    pub fn pairs(&self) -> (r: Vec<(String, String)>)
        ensures
            pair_views(r@) == self.entries(),
    {
        broadcast use lemma_pair_views;

        let n = self.vars.len();
        let mut out: Vec<(String, String)> = Vec::new();
        let mut i: usize = 0;
        proof {
            assert(pair_views(out@) =~= self.entries().subrange(0, 0));
        }
        while i < n
            invariant
                i <= n,
                n == self.vars@.len(),
                pair_views(out@) == self.entries().subrange(0, i as int),
            decreases n - i,
        {
            let k = self.vars[i].0.clone();
            let v = self.vars[i].1.clone();
            let ghost prev = out@;
            out.push((k, v));
            proof {
                assert(prev.len() == i) by {
                    assert(pair_views(prev).len() == prev.len());
                }
                assert(out@ == prev.push((k, v)));
                assert forall|j: int| 0 <= j < i + 1 implies pair_views(out@)[j]
                    == self.entries().subrange(0, i + 1)[j] by {
                    if j < i {
                        assert(out@[j] == prev[j]);
                        assert(pair_views(prev)[j] == self.entries().subrange(0, i as int)[j]);
                    } else {
                        assert(out@[j] == (k, v));
                    }
                }
                assert(pair_views(out@) =~= self.entries().subrange(0, i + 1));
            }
            i += 1;
        }
        proof {
            assert(self.entries().subrange(0, n as int) =~= self.entries());
        }
        out
    }
}

} // verus!
