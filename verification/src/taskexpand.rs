//! Expansion of a task's command and argument list right before execution:
//! splat placeholders are resolved against the positional task arguments,
//! then every resulting argument and the command string go through the value
//! expander.

use vstd::prelude::*;

use crate::envstate::{env_get, EnvState};
use crate::setenv::get_env;
use crate::expand::{subst_seq, expand_value};
use crate::strutil::{
    chars_eq, chars_to_string, clone_chars, contains_chars, contains_seq, lemma_str_views,
    lemma_str_views_push, lemma_views_of, lemma_views_push, replace_chars, replace_seq,
    split_chars, split_seq, str_to_chars, str_views, views_of,
};
use crate::types::{Step, Task};

verus! {

/// The splat placeholder, standing for the whole positional argument list.
pub open spec fn splat_token() -> Seq<char> {
    seq!['$', '{', '@', '}']
}

/// The positional task arguments encoded in the raw semicolon-joined string:
/// an empty string carries no arguments at all.
pub open spec fn task_args_of(raw: Seq<char>) -> Seq<Seq<char>> {
    if raw.len() == 0 {
        Seq::<Seq<char>>::empty()
    } else {
        split_seq(raw, ';')
    }
}

/// One output argument per positional argument, each formed by substituting
/// the splat placeholder in `template` by that one argument.
pub open spec fn splat_each(template: Seq<char>, task_args: Seq<Seq<char>>) -> Seq<Seq<char>>
    decreases task_args.len(),
{
    if task_args.len() == 0 {
        Seq::<Seq<char>>::empty()
    } else {
        seq![replace_seq(template, splat_token(), task_args[0])] + splat_each(
            template,
            task_args.skip(1),
        )
    }
}

/// What one argument template contributes: a template without the splat
/// placeholder passes through; with positional arguments present, the bare
/// placeholder splices the whole list in and an embedded one yields one
/// argument per positional argument; without positional arguments the
/// template is dropped.
pub open spec fn expand_template(
    template: Seq<char>,
    raw: Seq<char>,
    task_args: Seq<Seq<char>>,
) -> Seq<Seq<char>> {
    if contains_seq(template, splat_token()) {
        if raw.len() > 0 {
            if template == splat_token() {
                task_args
            } else {
                splat_each(template, task_args)
            }
        } else {
            Seq::<Seq<char>>::empty()
        }
    } else {
        seq![template]
    }
}

/// The whole argument list after splat resolution, template by template.
pub open spec fn splat_expand(
    templates: Seq<Seq<char>>,
    raw: Seq<char>,
    task_args: Seq<Seq<char>>,
) -> Seq<Seq<char>>
    decreases templates.len(),
{
    if templates.len() == 0 {
        Seq::<Seq<char>>::empty()
    } else {
        expand_template(templates[0], raw, task_args) + splat_expand(
            templates.skip(1),
            raw,
            task_args,
        )
    }
}

/// Every piece expanded against the environment store.
pub open spec fn expand_all(
    es: Seq<(Seq<char>, Seq<char>)>,
    parts: Seq<Seq<char>>,
) -> Seq<Seq<char>>
    decreases parts.len(),
{
    if parts.len() == 0 {
        Seq::<Seq<char>>::empty()
    } else {
        seq![subst_seq(es, parts[0])] + expand_all(es, parts.skip(1))
    }
}

/// The argument list a task's templates resolve to against store `es`: splat
/// resolution against the raw positional-argument string held by the store's
/// `CARGO_MAKE_TASK_ARGS` variable, then value expansion of every argument.
pub open spec fn expanded_args_spec(
    es: Seq<(Seq<char>, Seq<char>)>,
    templates: Seq<Seq<char>>,
) -> Seq<Seq<char>> {
    let raw = env_get(es, "CARGO_MAKE_TASK_ARGS"@, ""@);
    expand_all(es, splat_expand(templates, raw, task_args_of(raw)))
}

/// The characters of the splat placeholder.
fn splat_chars() -> (r: Vec<char>)
    ensures
        r@ == splat_token(),
{
    let mut out: Vec<char> = Vec::new();
    out.push('$');
    out.push('{');
    out.push('@');
    out.push('}');
    proof {
        assert(out@ =~= splat_token());
    }
    out
}

/// Appends to `expanded` what one argument template contributes after
/// splat resolution.
fn push_template_expansion(
    expanded: &mut Vec<Vec<char>>,
    t_chars: Vec<char>,
    splat: &Vec<char>,
    raw: &Vec<char>,
    task_args: &Vec<Vec<char>>,
)
    requires
        splat@ == splat_token(),
    ensures
        views_of(final(expanded)@) == views_of(old(expanded)@) + expand_template(
            t_chars@,
            raw@,
            views_of(task_args@),
        ),
{
    broadcast use lemma_views_of;

    let ghost done = views_of(expanded@);
    let ghost ta_views = views_of(task_args@);
    if contains_chars(&t_chars, splat) {
        if raw.len() > 0 {
            if chars_eq(&t_chars, splat) {
                let m = task_args.len();
                let mut k: usize = 0;
                proof {
                    assert(done + ta_views.take(0) =~~= done);
                }
                while k < m
                    invariant
                        k <= m,
                        m == task_args@.len(),
                        ta_views == views_of(task_args@),
                        views_of(expanded@) == done + ta_views.take(k as int),
                    decreases m - k,
                {
                    let ghost prev = expanded@;
                    let piece = clone_chars(&task_args[k]);
                    let ghost piece_view = piece@;
                    expanded.push(piece);
                    proof {
                        lemma_views_push(prev, expanded@.last());
                        assert(piece_view == ta_views[k as int]);
                        assert((done + ta_views.take(k as int)).push(piece_view) =~~= done
                            + ta_views.take(k + 1));
                    }
                    k += 1;
                }
                proof {
                    assert(ta_views.take(m as int) =~~= ta_views);
                    assert(expand_template(t_chars@, raw@, ta_views) == ta_views);
                }
            } else {
                let m = task_args.len();
                let mut k: usize = 0;
                let ghost t_view = t_chars@;
                proof {
                    assert(done + splat_each(t_view, ta_views.take(0)) =~~= done);
                }
                while k < m
                    invariant
                        k <= m,
                        m == task_args@.len(),
                        ta_views == views_of(task_args@),
                        t_view == t_chars@,
                        t_chars@.len() >= 1,
                        splat@ == splat_token(),
                        views_of(expanded@) == done + splat_each(
                            t_view,
                            ta_views.take(k as int),
                        ),
                    decreases m - k,
                {
                    let ghost prev = expanded@;
                    let piece = replace_chars(&t_chars, splat, &task_args[k]);
                    let ghost piece_view = piece@;
                    expanded.push(piece);
                    proof {
                        lemma_views_push(prev, expanded@.last());
                        assert(piece_view == replace_seq(
                            t_view,
                            splat_token(),
                            ta_views[k as int],
                        ));
                        lemma_splat_each_take(t_view, ta_views, k as int);
                    }
                    k += 1;
                }
                proof {
                    assert(ta_views.take(m as int) =~~= ta_views);
                    assert(expand_template(t_chars@, raw@, ta_views) == splat_each(
                        t_view,
                        ta_views,
                    ));
                }
            }
        } else {
            proof {
                assert(done + expand_template(t_chars@, raw@, ta_views) =~~= done);
            }
        }
    } else {
        let ghost prev = expanded@;
        let ghost piece_view = t_chars@;
        expanded.push(t_chars);
        proof {
            lemma_views_push(prev, expanded@.last());
            assert(done.push(piece_view) =~~= done + seq![piece_view]);
        }
    }
}

/// Substituting one more positional argument extends the per-argument
/// expansion by one piece.
proof fn lemma_splat_each_take(template: Seq<char>, task_args: Seq<Seq<char>>, k: int)
    requires
        0 <= k < task_args.len(),
    ensures
        splat_each(template, task_args.take(k + 1)) == splat_each(
            template,
            task_args.take(k),
        ).push(replace_seq(template, splat_token(), task_args[k])),
    decreases k,
{
    let shorter = task_args.take(k);
    let longer = task_args.take(k + 1);
    if k == 0 {
        assert(longer =~~= seq![task_args[0]]);
        assert(shorter =~~= Seq::<Seq<char>>::empty());
        assert(longer[0] == task_args[0]);
        assert(longer.skip(1) =~~= Seq::<Seq<char>>::empty());
        assert(splat_each(template, longer) == seq![replace_seq(
            template,
            splat_token(),
            task_args[0],
        )] + splat_each(template, longer.skip(1)));
        assert(splat_each(template, Seq::<Seq<char>>::empty())
            == Seq::<Seq<char>>::empty());
        assert(splat_each(template, longer) =~~= splat_each(template, shorter).push(
            replace_seq(template, splat_token(), task_args[0]),
        ));
    } else {
        lemma_splat_each_take(template, task_args.skip(1), k - 1);
        assert(longer[0] == task_args[0]);
        assert(longer.skip(1) =~~= task_args.skip(1).take(k));
        assert(shorter[0] == task_args[0]);
        assert(shorter.skip(1) =~~= task_args.skip(1).take(k - 1));
        assert(task_args.skip(1)[k - 1] == task_args[k]);
        assert(splat_each(template, longer) == seq![replace_seq(
            template,
            splat_token(),
            task_args[0],
        )] + splat_each(template, task_args.skip(1).take(k)));
        assert(splat_each(template, shorter) == seq![replace_seq(
            template,
            splat_token(),
            task_args[0],
        )] + splat_each(template, task_args.skip(1).take(k - 1)));
        assert(splat_each(template, longer) =~~= splat_each(template, shorter).push(
            replace_seq(template, splat_token(), task_args[k]),
        ));
    }
}

/// Resolves splat placeholders in the task's argument list against the
/// positional arguments held by the store's `CARGO_MAKE_TASK_ARGS` variable,
/// then expands every resulting argument.  A task without an argument list
/// is left untouched; no other field changes.
pub fn expand_env_for_arguments(ctx: &EnvState, task: &mut Task)
    ensures
        *final(task) == (Task { args: final(task).args, ..*old(task) }),
        old(task).args is None ==> final(task).args == old(task).args,
        old(task).args matches Some(templates) ==> (final(task).args matches Some(resolved)
            && str_views(resolved@) == expanded_args_spec(ctx.entries(), str_views(templates@))),
{
    broadcast use lemma_str_views, lemma_views_of;

    let raw_string = get_env(ctx, "CARGO_MAKE_TASK_ARGS", "");
    let raw = str_to_chars(raw_string.as_str());
    let task_args: Vec<Vec<char>> = if raw.len() == 0 {
        Vec::new()
    } else {
        split_chars(&raw, ';')
    };
    proof {
        if raw@.len() == 0 {
            assert(views_of(Seq::<Vec<char>>::empty()) =~~= task_args_of(raw@));
        }
    }
    let splat = splat_chars();
    let updated_args: Option<Vec<String>> = match &task.args {
        None => None,
        Some(templates) => {
            let ghost template_views = str_views(templates@);
            let ghost ta_views = views_of(task_args@);
            let ghost es = ctx.entries();
            let ghost raw_view = raw@;
            let n = templates.len();
            let mut expanded: Vec<Vec<char>> = Vec::new();
            let mut i: usize = 0;
            proof {
                assert(template_views.skip(0) =~~= template_views);
                assert(views_of(expanded@) + splat_expand(template_views, raw_view, ta_views)
                    =~~= splat_expand(template_views, raw_view, ta_views));
            }
            while i < n
                invariant
                    i <= n,
                    n == templates@.len(),
                    template_views == str_views(templates@),
                    ta_views == views_of(task_args@),
                    raw_view == raw@,
                    splat@ == splat_token(),
                    splat_expand(template_views, raw_view, ta_views) == views_of(expanded@)
                        + splat_expand(template_views.skip(i as int), raw_view, ta_views),
                decreases n - i,
            {
                let ghost done = views_of(expanded@);
                let ghost tail = template_views.skip(i as int);
                proof {
                    assert(tail[0] == template_views[i as int]);
                    assert(tail.skip(1) =~~= template_views.skip(i + 1));
                }
                let t_chars = str_to_chars(templates[i].as_str());
                push_template_expansion(&mut expanded, t_chars, &splat, &raw, &task_args);
                proof {
                    assert((done + expand_template(tail[0], raw_view, ta_views))
                        + splat_expand(tail.skip(1), raw_view, ta_views) =~~= done + (
                    expand_template(tail[0], raw_view, ta_views) + splat_expand(
                        tail.skip(1),
                        raw_view,
                        ta_views,
                    )));
                }
                i += 1;
            }
            proof {
                assert(template_views.skip(n as int) =~~= Seq::<Seq<char>>::empty());
                assert(views_of(expanded@) + splat_expand(
                    Seq::<Seq<char>>::empty(),
                    raw_view,
                    ta_views,
                ) =~~= views_of(expanded@));
            }
            let resolved_count = expanded.len();
            let mut resolved: Vec<String> = Vec::new();
            let mut k: usize = 0;
            let ghost spliced = views_of(expanded@);
            proof {
                assert(spliced.skip(0) =~~= spliced);
                assert(str_views(resolved@) + expand_all(es, spliced) =~~= expand_all(
                    es,
                    spliced,
                ));
            }
            while k < resolved_count
                invariant
                    k <= resolved_count,
                    resolved_count == expanded@.len(),
                    spliced == views_of(expanded@),
                    es == ctx.entries(),
                    expand_all(es, spliced) == str_views(resolved@) + expand_all(
                        es,
                        spliced.skip(k as int),
                    ),
                decreases resolved_count - k,
            {
                let ghost tail = spliced.skip(k as int);
                let ghost prev = resolved@;
                proof {
                    assert(tail[0] == spliced[k as int]);
                    assert(tail.skip(1) =~~= spliced.skip(k + 1));
                }
                let arg_string = chars_to_string(&expanded[k]);
                resolved.push(expand_value(ctx, arg_string.as_str()));
                proof {
                    lemma_str_views_push(prev, resolved@.last());
                    assert((str_views(prev) + expand_all(es, tail)) =~~= (str_views(
                        prev,
                    ).push(subst_seq(es, tail[0])) + expand_all(es, tail.skip(1))));
                }
                k += 1;
            }
            proof {
                assert(spliced.skip(resolved_count as int) =~~= Seq::<Seq<char>>::empty());
                assert(str_views(resolved@) + expand_all(es, Seq::<Seq<char>>::empty())
                    =~~= str_views(resolved@));
            }
            Some(resolved)
        },
    };
    task.args = updated_args;
}

/// Returns the step with the task's command string and argument list
/// expanded against the environment store.  No other part of the step
/// changes, and the store itself is not written.
pub fn expand_env(ctx: &EnvState, step: Step) -> (r: Step)
    ensures
        r.name == step.name,
        r.config == (Task { command: r.config.command, args: r.config.args, ..step.config }),
        step.config.command is None ==> r.config.command == step.config.command,
        step.config.command matches Some(c) ==> (r.config.command matches Some(e) && e@
            == subst_seq(ctx.entries(), c@)),
        step.config.args is None ==> r.config.args == step.config.args,
        step.config.args matches Some(templates) ==> (r.config.args matches Some(resolved)
            && str_views(resolved@) == expanded_args_spec(
            ctx.entries(),
            str_views(templates@),
        )),
{
    let mut config = step.config;
    let expanded_command: Option<String> = match &config.command {
        Some(v) => Some(expand_value(ctx, v.as_str())),
        None => None,
    };
    config.command = expanded_command;
    expand_env_for_arguments(ctx, &mut config);
    Step { name: step.name, config }
}

} // verus!
