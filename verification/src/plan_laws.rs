//! What holds of every plan.
use crate::action::{git_sha, ActionModel, ArgModel, FaultModel, ShaModel};
use crate::plan::{
    absolute, added_checks, added_tokens, arg_checks, arg_fault, first_fault, first_undeclared,
    plan_of, value_fault, value_marker, PatternModel,
};
use crate::text::{replaced, replaced_from, stands_at};
use crate::text_map::{ascending, before, lemma_lookup_at, lemma_lookup_found, lookup};
use vstd::prelude::*;

verus! {

proof fn lemma_first_fault(
    rules: Seq<(Seq<char>, ArgModel)>,
    args: Seq<(Seq<char>, Seq<char>)>,
    outcomes: Seq<PatternModel>,
    from: int,
)
    requires
        0 <= from <= rules.len(),
    ensures
        first_fault(rules, args, outcomes, from) is None <==> forall|i: int|
            from <= i < rules.len() ==> arg_fault(
                (#[trigger] rules[i]).0,
                rules[i].1,
                args,
                outcomes[i],
            ) is None,
    decreases rules.len() - from,
{
    if from < rules.len() {
        lemma_first_fault(rules, args, outcomes, from + 1);
        let head = arg_fault(rules[from].0, rules[from].1, args, outcomes[from]);
        if head is None {
            assert forall|i: int|
                from <= i < rules.len() && first_fault(
                    rules,
                    args,
                    outcomes,
                    from + 1,
                ) is None implies arg_fault(
                (#[trigger] rules[i]).0,
                rules[i].1,
                args,
                outcomes[i],
            ) is None by {}
        }
    }
}

proof fn lemma_first_undeclared(
    rules: Seq<(Seq<char>, ArgModel)>,
    args: Seq<(Seq<char>, Seq<char>)>,
    from: int,
)
    requires
        0 <= from <= args.len(),
    ensures
        first_undeclared(rules, args, from) is None <==> forall|i: int|
            from <= i < args.len() ==> lookup(rules, (#[trigger] args[i]).0) is Some,
        first_undeclared(rules, args, from) matches Some(name) ==> exists|i: int|
            from <= i < args.len() && (#[trigger] args[i]).0 == name && lookup(rules, name) is None
                && forall|j: int| from <= j < i ==> lookup(rules, (#[trigger] args[j]).0) is Some,
    decreases args.len() - from,
{
    if from < args.len() {
        lemma_first_undeclared(rules, args, from + 1);
        if lookup(rules, args[from].0) is None {
            assert(args[from].0 == first_undeclared(rules, args, from)->0);
        } else if first_undeclared(rules, args, from) is Some {
            let name = first_undeclared(rules, args, from)->0;
            let i = choose|i: int|
                from + 1 <= i < args.len() && (#[trigger] args[i]).0 == name && lookup(
                    rules,
                    name,
                ) is None && forall|j: int|
                    from + 1 <= j < i ==> lookup(rules, (#[trigger] args[j]).0) is Some;
            assert(args[i].0 == name);
            assert forall|j: int| from <= j < i implies lookup(
                rules,
                (#[trigger] args[j]).0,
            ) is Some by {}
        }
    }
}

/// A message is planned exactly where the command is an absolute path, every arg
/// of the message is declared, every required arg is there, and every value is
/// valid.
pub proof fn law_plan_accepts_exactly(
    action: ActionModel,
    args: Seq<(Seq<char>, Seq<char>)>,
    outcomes: Seq<PatternModel>,
)
    ensures
        plan_of(action, args, outcomes) is Ok <==> {
            &&& absolute(action.command)
            &&& forall|i: int|
                0 <= i < args.len() ==> lookup(action.args, (#[trigger] args[i]).0) is Some
            &&& forall|i: int|
                0 <= i < action.args.len() ==> match lookup(args, (#[trigger] action.args[i]).0) {
                    Some(value) => value_fault(
                        action.args[i].0,
                        action.args[i].1,
                        value,
                        outcomes[i],
                    ) is None,
                    None => !action.args[i].1.is_required(),
                }
        },
{
    lemma_first_fault(action.args, args, outcomes, 0);
    lemma_first_undeclared(action.args, args, 0);
    assert forall|i: int| 0 <= i < action.args.len() implies (arg_fault(
        (#[trigger] action.args[i]).0,
        action.args[i].1,
        args,
        outcomes[i],
    ) is None <==> match lookup(args, action.args[i].0) {
        Some(value) => value_fault(
            action.args[i].0,
            action.args[i].1,
            value,
            outcomes[i],
        ) is None,
        None => !action.args[i].1.is_required(),
    }) by {}
}

/// An arg that the action does not declare is refused, whatever else is right or
/// wrong with the message's args: the error names the first such arg.
pub proof fn law_undeclared_arg_is_refused(
    action: ActionModel,
    args: Seq<(Seq<char>, Seq<char>)>,
    outcomes: Seq<PatternModel>,
    name: Seq<char>,
)
    requires
        absolute(action.command),
        ascending(args),
        lookup(args, name) is Some,
        lookup(action.args, name) is None,
    ensures
        plan_of(action, args, outcomes) matches Err(FaultModel::UnknownArg(first)) && lookup(
            args,
            first,
        ) is Some && lookup(action.args, first) is None && (first == name || before(first, name)),
{
    lemma_first_undeclared(action.args, args, 0);
    let at = lemma_lookup_found(args, name);
    assert(args[at].0 == name);
    let first = first_undeclared(action.args, args, 0)->0;
    let i = choose|i: int|
        0 <= i < args.len() && (#[trigger] args[i]).0 == first && lookup(
            action.args,
            first,
        ) is None && forall|j: int|
            0 <= j < i ==> lookup(action.args, (#[trigger] args[j]).0) is Some;
    lemma_lookup_at(args, i);
    assert(i <= at);
}

/// A plan runs the action's own command: its argv is the command, an absolute
/// path first, followed by what the args add.
pub proof fn law_plan_runs_the_command(
    action: ActionModel,
    args: Seq<(Seq<char>, Seq<char>)>,
    outcomes: Seq<PatternModel>,
)
    ensures
        plan_of(action, args, outcomes) matches Ok(plan) ==> {
            &&& plan.argv.len() >= action.command.len() >= 1
            &&& plan.argv.take(action.command.len() as int) == action.command
            &&& plan.argv[0] == action.command[0]
            &&& plan.argv[0].len() > 0 && plan.argv[0][0] == '/'
        },
{
    if let Ok(plan) = plan_of(action, args, outcomes) {
        assert(plan.argv.take(action.command.len() as int) =~= action.command);
    }
}

proof fn lemma_token_count(
    rules: Seq<(Seq<char>, ArgModel)>,
    a: Seq<(Seq<char>, Seq<char>)>,
    b: Seq<(Seq<char>, Seq<char>)>,
    n: int,
)
    requires
        0 <= n <= rules.len(),
        forall|i: int|
            0 <= i < rules.len() ==> (lookup(a, (#[trigger] rules[i]).0) is Some <==> lookup(
                b,
                rules[i].0,
            ) is Some),
    ensures
        added_tokens(rules, a, n).len() == added_tokens(rules, b, n).len(),
    decreases n,
{
    if n > 0 {
        lemma_token_count(rules, a, b, n - 1);
        assert(rules[n - 1] == rules[n - 1]);
    }
}

/// Values only ever become part of whole tokens: how many tokens a command has
/// depends on which args are there, never on their values.
pub proof fn law_values_never_split_tokens(
    action: ActionModel,
    a: Seq<(Seq<char>, Seq<char>)>,
    b: Seq<(Seq<char>, Seq<char>)>,
    outcomes_a: Seq<PatternModel>,
    outcomes_b: Seq<PatternModel>,
)
    requires
        forall|i: int|
            0 <= i < action.args.len() ==> (lookup(a, (#[trigger] action.args[i]).0) is Some
                <==> lookup(b, action.args[i].0) is Some),
    ensures
        plan_of(action, a, outcomes_a) matches Ok(p) ==> (plan_of(
            action,
            b,
            outcomes_b,
        ) matches Ok(q) ==> p.argv.len() == q.argv.len()),
{
    lemma_token_count(action.args, a, b, action.args.len() as int);
}

proof fn lemma_checks(
    rules: Seq<(Seq<char>, ArgModel)>,
    args: Seq<(Seq<char>, Seq<char>)>,
    n: int,
)
    requires
        0 <= n <= rules.len(),
    ensures
        forall|c: ShaModel| #[trigger]
            added_checks(rules, args, n).contains(c) <==> exists|i: int|
                0 <= i < n && arg_checks((#[trigger] rules[i]).0, rules[i].1, args) == seq![c],
    decreases n,
{
    if n > 0 {
        lemma_checks(rules, args, n - 1);
        let earlier = added_checks(rules, args, n - 1);
        let last = arg_checks(rules[n - 1].0, rules[n - 1].1, args);
        let all = added_checks(rules, args, n);
        assert forall|c: ShaModel| #[trigger] all.contains(c) <==> exists|i: int|
            0 <= i < n && arg_checks((#[trigger] rules[i]).0, rules[i].1, args) == seq![c] by {
            if all.contains(c) {
                let k = choose|k: int| 0 <= k < all.len() && all[k] == c;
                if k < earlier.len() {
                    assert(earlier[k] == c);
                    assert(earlier.contains(c));
                } else {
                    assert(last[k - earlier.len()] == c);
                    assert(last =~= seq![c]);
                    assert(rules[n - 1] == rules[n - 1]);
                }
            }
            if exists|i: int|
                0 <= i < n && arg_checks((#[trigger] rules[i]).0, rules[i].1, args) == seq![c] {
                let i = choose|i: int|
                    0 <= i < n && arg_checks((#[trigger] rules[i]).0, rules[i].1, args) == seq![c];
                if i < n - 1 {
                    assert(earlier.contains(c));
                    let k = choose|k: int| 0 <= k < earlier.len() && earlier[k] == c;
                    assert(all[k] == c);
                } else {
                    assert(all[earlier.len() as int] == c);
                }
            }
        }
    } else {
        assert(added_checks(rules, args, n) =~= Seq::empty());
    }
}

/// Whether a check asks about the value that the message has for an arg that is
/// declared as a commit id, in the repository and for the ref declared with it.
pub open spec fn is_asked(
    rules: Seq<(Seq<char>, ArgModel)>,
    args: Seq<(Seq<char>, Seq<char>)>,
    check: ShaModel,
) -> bool {
    &&& lookup(rules, check.arg) matches Some(ArgModel::Sha { repo, ancestor_of, .. })
    &&& lookup(args, check.arg) == Some(check.value)
    &&& check.repo == repo
    &&& check.ancestor_of == ancestor_of
}

/// A plan asks for a repo-state check for each commit id in the message and for
/// nothing else, and each id that it asks about has the format of one.
pub proof fn law_each_commit_id_is_checked(
    action: ActionModel,
    args: Seq<(Seq<char>, Seq<char>)>,
    outcomes: Seq<PatternModel>,
)
    requires
        ascending(action.args),
    ensures
        plan_of(action, args, outcomes) matches Ok(plan) ==> {
            &&& forall|c: ShaModel| #[trigger]
                plan.sha_checks.contains(c) <==> is_asked(action.args, args, c)
            &&& forall|c: ShaModel| #[trigger]
                plan.sha_checks.contains(c) ==> git_sha(c.value)
        },
{
    if let Ok(plan) = plan_of(action, args, outcomes) {
        let rules = action.args;
        lemma_checks(rules, args, rules.len() as int);
        law_plan_accepts_exactly(action, args, outcomes);
        assert forall|c: ShaModel| #[trigger] plan.sha_checks.contains(c) implies is_asked(
            rules,
            args,
            c,
        ) && git_sha(c.value) by {
            let i = choose|i: int|
                0 <= i < rules.len() && arg_checks(
                    (#[trigger] rules[i]).0,
                    rules[i].1,
                    args,
                ) == seq![c];
            lemma_lookup_at(rules, i);
            assert(arg_checks(rules[i].0, rules[i].1, args)[0] == c);
        }
        assert forall|c: ShaModel| is_asked(
            rules,
            args,
            c,
        ) implies #[trigger] plan.sha_checks.contains(c) by {
            let i = lemma_lookup_found(rules, c.arg);
            assert(arg_checks(rules[i].0, rules[i].1, args) =~= seq![c]);
        }
    }
}

/// A token that is the marker alone becomes the value itself.
pub proof fn law_marker_becomes_the_value(value: Seq<char>)
    ensures
        replaced(value_marker(), value_marker(), value) == value,
{
    reveal_strlit("${value}");
    let m = value_marker();
    assert(m.subrange(0, m.len() as int) =~= m);
    assert(stands_at(m, m, 0));
    assert(replaced_from(m, m, value, m.len() as int) =~= Seq::empty());
    assert(value + Seq::<char>::empty() =~= value);
}

/// A token without the marker is left as it is.
pub proof fn law_plain_token_is_kept(token: Seq<char>, value: Seq<char>)
    requires
        forall|at: int| !#[trigger] stands_at(token, value_marker(), at),
    ensures
        replaced(token, value_marker(), value) == token,
{
    reveal_strlit("${value}");
    lemma_plain_from(token, value, 0);
    assert(token.skip(0) =~= token);
}

proof fn lemma_plain_from(token: Seq<char>, value: Seq<char>, at: int)
    requires
        0 <= at <= token.len(),
        value_marker().len() > 0,
        forall|i: int| !#[trigger] stands_at(token, value_marker(), i),
    ensures
        replaced_from(token, value_marker(), value, at) == token.skip(at),
    decreases token.len() - at,
{
    if at < token.len() {
        lemma_plain_from(token, value, at + 1);
        assert(!stands_at(token, value_marker(), at));
        assert(seq![token[at]] + token.skip(at + 1) =~= token.skip(at));
    } else {
        assert(token.skip(at) =~= Seq::empty());
    }
}

} // verus!
