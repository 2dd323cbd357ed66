//! Resolution of declared environment entries into the environment store.
//!
//! Entries are applied in declaration order; each entry's raw value — the
//! literal, or the script evaluator's result for a dynamic entry — is
//! expanded against the store as it stands when the entry's turn comes, so a
//! later entry may reference variables committed by earlier ones and no
//! others.

use vstd::prelude::*;

use indexmap::IndexMap;

use crate::envmap::{env_map_entries, env_map_entry_list};
use crate::envstate::{env_get, env_set, EnvState};
use crate::expand::{subst_seq, expand_value};
use crate::strutil::{
    chars_eq, chars_to_string, lemma_views_of, replace_chars, replace_seq, split_chars,
    split_seq, str_to_chars, views_of,
};
use crate::types::{Config, EnvValue, ScriptOutput};

verus! {

/// The last piece of `lines` that is not empty, if any.
pub open spec fn last_nonempty(lines: Seq<Seq<char>>) -> Option<Seq<char>>
    decreases lines.len(),
{
    if lines.len() == 0 {
        None
    } else if lines.last().len() > 0 {
        Some(lines.last())
    } else {
        last_nonempty(lines.drop_last())
    }
}

/// The value a dynamic entry resolves to, given what the command-execution
/// collaborator reported: the last non-empty line of standard output with
/// carriage returns removed on a zero exit, and the empty string on a failed
/// run, a non-zero exit, or output without a non-empty line.
pub open spec fn script_value(result: Option<ScriptOutput>) -> Seq<char> {
    match result {
        None => Seq::<char>::empty(),
        Some(o) => if o.exit_code != 0 {
            Seq::<char>::empty()
        } else {
            match last_nonempty(split_seq(o.stdout@, '\n')) {
                None => Seq::<char>::empty(),
                Some(line) => replace_seq(line, seq!['\r'], Seq::<char>::empty()),
            }
        },
    }
}

/// Post-processes one script run into the value of a dynamic environment
/// entry.  Failures of any kind resolve to the empty string, never an error.
pub fn evaluate_env_value(result: &Option<ScriptOutput>) -> (r: String)
    ensures
        r@ == script_value(*result),
{
    match result {
        None => String::new(),
        Some(o) => {
            if o.exit_code != 0 {
                return String::new();
            }
            broadcast use lemma_views_of;

            let chars = str_to_chars(o.stdout.as_str());
            let lines = split_chars(&chars, '\n');
            let ghost line_views = views_of(lines@);
            let mut j: usize = lines.len();
            proof {
                assert(line_views.take(j as int) =~~= line_views);
            }
            while j > 0
                invariant
                    j <= lines@.len(),
                    line_views == views_of(lines@),
                    line_views.len() == lines@.len(),
                    line_views == split_seq(o.stdout@, '\n'),
                    *result == Some(*o),
                    o.exit_code == 0,
                    last_nonempty(line_views) == last_nonempty(line_views.take(j as int)),
                decreases j,
            {
                if lines[j - 1].len() > 0 {
                    let cr = vec!['\r'];
                    let empty_rep: Vec<char> = Vec::new();
                    let cleaned = replace_chars(&lines[j - 1], &cr, &empty_rep);
                    proof {
                        let taken = line_views.take(j as int);
                        assert(taken.last() == line_views[j - 1]);
                        assert(line_views[j - 1] == lines@[j - 1]@);
                        assert(taken.last().len() > 0);
                        assert(last_nonempty(taken) == Some(line_views[j - 1]));
                        assert(cr@ =~= seq!['\r']);
                        assert(empty_rep@ =~= Seq::<char>::empty());
                        assert(line_views == split_seq(o.stdout@, '\n'));
                        assert(cleaned@ == replace_seq(
                            line_views[j - 1],
                            seq!['\r'],
                            Seq::<char>::empty(),
                        ));
                        assert(*result == Some(*o));
                        assert(script_value(*result) == replace_seq(
                            line_views[j - 1],
                            seq!['\r'],
                            Seq::<char>::empty(),
                        ));
                    }
                    return chars_to_string(&cleaned);
                }
                proof {
                    let taken = line_views.take(j as int);
                    assert(taken.last() == line_views[j - 1]);
                    assert(taken.drop_last() =~~= line_views.take(j - 1));
                }
                j -= 1;
            }
            proof {
                assert(line_views.take(0) =~~= Seq::<Seq<char>>::empty());
            }
            String::new()
        },
    }
}

/// Expands `value` against the store and commits the result under `key`.
pub fn evaluate_and_set_env(ctx: &mut EnvState, key: &str, value: &str)
    requires
        old(ctx).wf(),
    ensures
        final(ctx).wf(),
        final(ctx).entries() == env_set(
            old(ctx).entries(),
            key@,
            subst_seq(old(ctx).entries(), value@),
        ),
{
    let expanded = expand_value(ctx, value);
    ctx.set(key, expanded.as_str());
}

/// Resolves a dynamic entry from what its script run reported, expands the
/// resolved value against the store, and commits it under `key`.
pub fn set_env_for_info(ctx: &mut EnvState, key: &str, result: &Option<ScriptOutput>)
    requires
        old(ctx).wf(),
    ensures
        final(ctx).wf(),
        final(ctx).entries() == env_set(
            old(ctx).entries(),
            key@,
            subst_seq(old(ctx).entries(), script_value(*result)),
        ),
{
    let value = evaluate_env_value(result);
    evaluate_and_set_env(ctx, key, value.as_str());
}

/// The store after the declared entries are applied in order, each resolved
/// (literal, or script result for a dynamic entry), expanded against the
/// store as it stands, and committed.
pub open spec fn apply_env_entries(
    es: Seq<(Seq<char>, Seq<char>)>,
    entries: Seq<(String, EnvValue)>,
    outputs: Seq<Option<ScriptOutput>>,
) -> Seq<(Seq<char>, Seq<char>)>
    decreases entries.len(),
{
    if entries.len() == 0 {
        es
    } else {
        let raw = match entries[0].1 {
            EnvValue::Value(v) => v@,
            EnvValue::Info(_) => script_value(outputs[0]),
        };
        apply_env_entries(
            env_set(es, entries[0].0@, subst_seq(es, raw)),
            entries.skip(1),
            outputs.skip(1),
        )
    }
}

/// Applies the declared environment entries to the store in declaration
/// order.  `script_outputs` holds, for each entry, what the command-execution
/// collaborator reported for its script; the slot of a literal entry is
/// ignored.
pub fn set_env(
    ctx: &mut EnvState,
    env: &IndexMap<String, EnvValue>,
    script_outputs: &Vec<Option<ScriptOutput>>,
)
    requires
        old(ctx).wf(),
        script_outputs@.len() == env_map_entries(*env).len(),
    ensures
        final(ctx).wf(),
        final(ctx).entries() == apply_env_entries(
            old(ctx).entries(),
            env_map_entries(*env),
            script_outputs@,
        ),
{
    let pairs = env_map_entry_list(env);
    let n = pairs.len();
    let mut i: usize = 0;
    proof {
        assert(pairs@.skip(0) =~= pairs@);
        assert(script_outputs@.skip(0) =~= script_outputs@);
    }
    while i < n
        invariant
            i <= n,
            n == pairs@.len(),
            pairs@ == env_map_entries(*env),
            script_outputs@.len() == n,
            ctx.wf(),
            apply_env_entries(old(ctx).entries(), env_map_entries(*env), script_outputs@)
                == apply_env_entries(ctx.entries(), pairs@.skip(i as int), script_outputs@.skip(i as int)),
        decreases n - i,
    {
        let ghost entries_tail = pairs@.skip(i as int);
        let ghost outputs_tail = script_outputs@.skip(i as int);
        proof {
            assert(entries_tail[0] == pairs@[i as int]);
            assert(outputs_tail[0] == script_outputs@[i as int]);
            assert(entries_tail.skip(1) =~= pairs@.skip(i + 1));
            assert(outputs_tail.skip(1) =~= script_outputs@.skip(i + 1));
        }
        let p = &pairs[i];
        match &p.1 {
            EnvValue::Value(v) => {
                evaluate_and_set_env(ctx, p.0.as_str(), v.as_str());
            },
            EnvValue::Info(_) => {
                set_env_for_info(ctx, p.0.as_str(), &script_outputs[i]);
            },
        }
        i += 1;
    }
    proof {
        assert(pairs@.skip(n as int) =~= Seq::<(String, EnvValue)>::empty());
    }
}

/// Applies the configuration's declared environment entries to the store.
pub fn initialize_env(
    ctx: &mut EnvState,
    config: &Config,
    script_outputs: &Vec<Option<ScriptOutput>>,
)
    requires
        old(ctx).wf(),
        script_outputs@.len() == env_map_entries(config.env).len(),
    ensures
        final(ctx).wf(),
        final(ctx).entries() == apply_env_entries(
            old(ctx).entries(),
            env_map_entries(config.env),
            script_outputs@,
        ),
{
    set_env(ctx, &config.env, script_outputs);
}

/// The value bound to `key` in the store, or `default` when `key` is unset.
pub fn get_env(ctx: &EnvState, key: &str, default: &str) -> (r: String)
    ensures
        r@ == env_get(ctx.entries(), key@, default@),
{
    ctx.get(key, default)
}

/// An upper-case ASCII letter folded to lower case; any other character is
/// kept.
pub open spec fn lower_char(c: char) -> char {
    if 'A' <= c && c <= 'Z' {
        (((c as u8) + 32) as char)
    } else {
        c
    }
}

/// A string with its upper-case ASCII letters folded to lower case.
pub open spec fn lower_seq(s: Seq<char>) -> Seq<char> {
    s.map_values(|c: char| lower_char(c))
}

/// True when `s` spells a true value: `true`, `yes` or `1`, compared with
/// ASCII case folded.
pub open spec fn truthy(s: Seq<char>) -> bool {
    lower_seq(s) == "true"@ || lower_seq(s) == "yes"@ || lower_seq(s) == "1"@
}

/// True when the variable `key` — defaulted per `default_value` when unset —
/// spells a true value.
pub fn get_env_as_bool(ctx: &EnvState, key: &str, default_value: bool) -> (r: bool)
    ensures
        r == truthy(
            env_get(
                ctx.entries(),
                key@,
                if default_value {
                    "true"@
                } else {
                    "false"@
                },
            ),
        ),
{
    let default_str: &str = if default_value {
        "true"
    } else {
        "false"
    };
    let value = ctx.get(key, default_str);
    let chars = str_to_chars(value.as_str());
    let n = chars.len();
    let mut low: Vec<char> = Vec::new();
    let mut i: usize = 0;
    while i < n
        invariant
            i <= n,
            n == chars@.len(),
            low@.len() == i,
            forall|j: int| 0 <= j < i ==> low@[j] == lower_char(chars@[j]),
        decreases n - i,
    {
        let c = chars[i];
        if 'A' <= c && c <= 'Z' {
            low.push((((c as u8) + 32) as char));
        } else {
            low.push(c);
        }
        i += 1;
    }
    proof {
        assert forall|j: int| 0 <= j < n implies lower_seq(chars@)[j] == low@[j] by {
            assert(lower_seq(chars@)[j] == (|c: char| lower_char(c))(chars@[j]));
        }
        assert(low@ =~= lower_seq(value@));
    }
    let t = str_to_chars("true");
    let y = str_to_chars("yes");
    let one = str_to_chars("1");
    chars_eq(&low, &t) || chars_eq(&low, &y) || chars_eq(&low, &one)
}

} // verus!
