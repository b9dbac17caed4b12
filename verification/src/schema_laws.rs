//! What the schema of an action makes of a message, by the schema's own fields.
use crate::action::{git_sha, hex_lower, ActionModel, ArgModel, FaultModel, PlanModel, ShaModel};
use crate::delivery::planned;
use crate::message::EnvelopeModel;
use crate::plan::{
    added_checks, added_tokens, arg_fault, first_fault, first_undeclared, outcomes_of, plan_of,
    regex_error, regex_matches, PatternModel,
};
use crate::plan_laws::law_plan_accepts_exactly;
use crate::text::replaced;
use crate::text_map::{lemma_lookup_absent, lemma_lookup_found, lookup};
use vstd::prelude::*;

verus! {

/// Whether a message with `value` for an arg, or with none, meets what the arg is
/// declared as, where `outcome` is what came of matching it against a pattern.
pub open spec fn fits(
    rule: ArgModel,
    value: Option<Seq<char>>,
    outcome: PatternModel,
) -> bool {
    match (rule, value) {
        (ArgModel::Text { required, .. }, None) => !required,
        (ArgModel::Enum { required, .. }, None) => !required,
        (ArgModel::Sha { required, .. }, None) => !required,
        (ArgModel::Text { .. }, Some(_)) => outcome is Match,
        (ArgModel::Enum { values, .. }, Some(v)) => exists|k: int|
            0 <= k < values.len() && #[trigger] values[k] == v,
        (ArgModel::Sha { .. }, Some(v)) => 7 <= v.len() <= 40 && forall|k: int|
            0 <= k < v.len() ==> ('0' <= #[trigger] v[k] && v[k] <= '9') || ('a' <= v[k] && v[k]
                <= 'f'),
    }
}

/// A commit id is 7 to 40 characters, each of which is a digit or one of the
/// letters `a` to `f`.
pub proof fn law_commit_ids_are_lower_hex(s: Seq<char>)
    ensures
        git_sha(s) <==> 7 <= s.len() <= 40 && forall|k: int|
            0 <= k < s.len() ==> ('0' <= #[trigger] s[k] && s[k] <= '9') || ('a' <= s[k] && s[k]
                <= 'f'),
{
    if git_sha(s) {
        assert forall|k: int| 0 <= k < s.len() implies ('0' <= #[trigger] s[k] && s[k] <= '9') || (
        'a' <= s[k] && s[k] <= 'f') by {
            assert(hex_lower(s[k]));
        }
    }
}

proof fn lemma_fits(
    name: Seq<char>,
    rule: ArgModel,
    args: Seq<(Seq<char>, Seq<char>)>,
    outcome: PatternModel,
)
    ensures
        arg_fault(name, rule, args, outcome) is None <==> fits(rule, lookup(args, name), outcome),
{
    if let Some(v) = lookup(args, name) {
        law_commit_ids_are_lower_hex(v);
    }
}

/// A message is planned exactly where the command starts with a slash, every arg
/// of the message is declared, and every declared arg is met.
pub proof fn law_plan_meets_the_schema(
    action: ActionModel,
    args: Seq<(Seq<char>, Seq<char>)>,
    outcomes: Seq<PatternModel>,
)
    ensures
        plan_of(action, args, outcomes) is Ok <==> {
            &&& action.command.len() > 0
            &&& action.command[0].len() > 0
            &&& action.command[0][0] == '/'
            &&& forall|i: int|
                0 <= i < args.len() ==> exists|k: int|
                    0 <= k < action.args.len() && (#[trigger] action.args[k]).0 == (
                    #[trigger] args[i]).0
            &&& forall|i: int|
                0 <= i < action.args.len() ==> fits(
                    (#[trigger] action.args[i]).1,
                    lookup(args, action.args[i].0),
                    outcomes[i],
                )
        },
{
    law_plan_accepts_exactly(action, args, outcomes);
    let rules = action.args;
    assert forall|i: int| 0 <= i < rules.len() implies (fits(
        (#[trigger] rules[i]).1,
        lookup(args, rules[i].0),
        outcomes[i],
    ) <==> arg_fault(rules[i].0, rules[i].1, args, outcomes[i]) is None) by {
        lemma_fits(rules[i].0, rules[i].1, args, outcomes[i]);
    }
    assert forall|i: int| 0 <= i < args.len() implies (lookup(
        rules,
        (#[trigger] args[i]).0,
    ) is Some <==> exists|k: int| 0 <= k < rules.len() && (#[trigger] rules[k]).0 == args[i].0) by {
        if lookup(rules, args[i].0) is Some {
            let k = lemma_lookup_found(rules, args[i].0);
            assert(rules[k].0 == args[i].0);
        } else if exists|k: int| 0 <= k < rules.len() && (#[trigger] rules[k]).0 == args[i].0 {
            lemma_lookup_present(rules, args[i].0);
        }
    }
}

proof fn lemma_lookup_present<W>(l: Seq<(Seq<char>, W)>, key: Seq<char>)
    requires
        exists|k: int| 0 <= k < l.len() && (#[trigger] l[k]).0 == key,
    ensures
        lookup(l, key) is Some,
    decreases l.len(),
{
    let k = choose|k: int| 0 <= k < l.len() && (#[trigger] l[k]).0 == key;
    if l[0].0 != key {
        assert(l.skip(1)[k - 1].0 == key);
        lemma_lookup_present(l.skip(1), key);
    }
}

/// A required arg, of whichever kind, has to be there.
pub proof fn law_required_args_must_be_there(
    action: ActionModel,
    args: Seq<(Seq<char>, Seq<char>)>,
    outcomes: Seq<PatternModel>,
    i: int,
)
    requires
        0 <= i < action.args.len(),
        match action.args[i].1 {
            ArgModel::Text { required, .. } => required,
            ArgModel::Enum { required, .. } => required,
            ArgModel::Sha { required, .. } => required,
        },
        forall|k: int| 0 <= k < args.len() ==> (#[trigger] args[k]).0 != action.args[i].0,
    ensures
        plan_of(action, args, outcomes) is Err,
{
    law_plan_meets_the_schema(action, args, outcomes);
    lemma_lookup_absent(args, action.args[i].0);
}

/// Whether a declared arg is required makes no difference to a message that
/// carries it.
pub proof fn law_present_args_need_not_be_required(
    action: ActionModel,
    other: ActionModel,
    args: Seq<(Seq<char>, Seq<char>)>,
    outcomes: Seq<PatternModel>,
)
    requires
        other.command == action.command,
        other.args.len() == action.args.len(),
        forall|i: int|
            #![trigger action.args[i]]
            #![trigger other.args[i]]
            0 <= i < action.args.len() ==> {
                &&& other.args[i].0 == action.args[i].0
                &&& lookup(args, action.args[i].0) is Some
                &&& match (action.args[i].1, other.args[i].1) {
                    (
                        ArgModel::Text { pattern: p, argv: a, .. },
                        ArgModel::Text { pattern: q, argv: b, .. },
                    ) => p == q && a == b,
                    (
                        ArgModel::Enum { values: p, argv: a, .. },
                        ArgModel::Enum { values: q, argv: b, .. },
                    ) => p == q && a == b,
                    (
                        ArgModel::Sha { repo: p, ancestor_of: s, argv: a, .. },
                        ArgModel::Sha { repo: q, ancestor_of: t, argv: b, .. },
                    ) => p == q && s == t && a == b,
                    _ => false,
                }
            },
    ensures
        plan_of(action, args, outcomes) is Ok <==> plan_of(other, args, outcomes) is Ok,
{
    law_plan_meets_the_schema(action, args, outcomes);
    law_plan_meets_the_schema(other, args, outcomes);
    assert forall|i: int| 0 <= i < action.args.len() implies (fits(
        (#[trigger] action.args[i]).1,
        lookup(args, action.args[i].0),
        outcomes[i],
    ) <==> fits(other.args[i].1, lookup(args, other.args[i].0), outcomes[i])) by {}
    if plan_of(action, args, outcomes) is Ok {
        assert forall|i: int| 0 <= i < args.len() implies exists|k: int|
            0 <= k < other.args.len() && (#[trigger] other.args[k]).0 == (#[trigger] args[i]).0 by {
            let k = choose|k: int|
                0 <= k < action.args.len() && (#[trigger] action.args[k]).0 == args[i].0;
            assert(other.args[k].0 == args[i].0);
        }
        assert forall|i: int| 0 <= i < other.args.len() implies fits(
            (#[trigger] other.args[i]).1,
            lookup(args, other.args[i].0),
            outcomes[i],
        ) by {
            assert(action.args[i] == action.args[i]);
        }
    }
    if plan_of(other, args, outcomes) is Ok {
        assert forall|i: int| 0 <= i < args.len() implies exists|k: int|
            0 <= k < action.args.len() && (#[trigger] action.args[k]).0 == (
            #[trigger] args[i]).0 by {
            let k = choose|k: int|
                0 <= k < other.args.len() && (#[trigger] other.args[k]).0 == args[i].0;
            assert(action.args[k].0 == args[i].0);
        }
        assert forall|i: int| 0 <= i < action.args.len() implies fits(
            (#[trigger] action.args[i]).1,
            lookup(args, action.args[i].0),
            outcomes[i],
        ) by {
            assert(other.args[i] == other.args[i]);
        }
    }
}

proof fn lemma_first_fault_at(
    rules: Seq<(Seq<char>, ArgModel)>,
    args: Seq<(Seq<char>, Seq<char>)>,
    outcomes: Seq<PatternModel>,
    from: int,
) -> (at: int)
    requires
        0 <= from <= rules.len(),
        first_fault(rules, args, outcomes, from) is Some,
    ensures
        from <= at < rules.len(),
        arg_fault(rules[at].0, rules[at].1, args, outcomes[at]) == first_fault(
            rules,
            args,
            outcomes,
            from,
        ),
        forall|j: int|
            from <= j < at ==> arg_fault(
                (#[trigger] rules[j]).0,
                rules[j].1,
                args,
                outcomes[j],
            ) is None,
    decreases rules.len() - from,
{
    if arg_fault(rules[from].0, rules[from].1, args, outcomes[from]) is Some {
        from
    } else {
        lemma_first_fault_at(rules, args, outcomes, from + 1)
    }
}

proof fn lemma_first_undeclared_at(
    rules: Seq<(Seq<char>, ArgModel)>,
    args: Seq<(Seq<char>, Seq<char>)>,
    from: int,
)
    requires
        0 <= from <= args.len(),
    ensures
        first_undeclared(rules, args, from) is None ==> forall|j: int|
            from <= j < args.len() ==> lookup(rules, (#[trigger] args[j]).0) is Some,
        first_undeclared(rules, args, from) matches Some(name) ==> lookup(rules, name) is None
            && exists|i: int|
            from <= i < args.len() && (#[trigger] args[i]).0 == name && forall|j: int|
                from <= j < i ==> lookup(rules, (#[trigger] args[j]).0) is Some,
    decreases args.len() - from,
{
    if from < args.len() {
        lemma_first_undeclared_at(rules, args, from + 1);
        if lookup(rules, args[from].0) is None {
            assert(args[from].0 == first_undeclared(rules, args, from)->0);
        } else if first_undeclared(rules, args, from) is Some {
            let name = first_undeclared(rules, args, from)->0;
            let i = choose|i: int|
                from + 1 <= i < args.len() && (#[trigger] args[i]).0 == name && forall|j: int|
                    from + 1 <= j < i ==> lookup(rules, (#[trigger] args[j]).0) is Some;
            assert forall|j: int| from <= j < i implies lookup(
                rules,
                (#[trigger] args[j]).0,
            ) is Some by {}
            assert(args[i].0 == name);
        }
    }
}

/// What the command is refused for: that there is none, or that it does not start
/// with a slash, in which case the error names it. Both come before any fault of
/// the args.
pub proof fn law_command_faults_come_first(
    action: ActionModel,
    args: Seq<(Seq<char>, Seq<char>)>,
    outcomes: Seq<PatternModel>,
)
    ensures
        action.command.len() == 0 <==> plan_of(action, args, outcomes) == Result::<
            PlanModel,
            FaultModel,
        >::Err(FaultModel::EmptyCommand),
        action.command.len() > 0 && (action.command[0].len() == 0 || action.command[0][0] != '/')
            <==> plan_of(action, args, outcomes) matches Err(FaultModel::NonAbsoluteCommand(p)),
        plan_of(action, args, outcomes) matches Err(FaultModel::NonAbsoluteCommand(p)) ==> p
            == action.command[0],
{
    if first_fault(action.args, args, outcomes, 0) is Some {
        let at = lemma_first_fault_at(action.args, args, outcomes, 0);
    }
}

/// An error says of which arg it is and what is wrong with it: it is the first arg
/// of the message that is not declared, or else the first declared arg that is not
/// met, with its value and what it was held against.
pub proof fn law_errors_name_their_cause(
    action: ActionModel,
    args: Seq<(Seq<char>, Seq<char>)>,
    outcomes: Seq<PatternModel>,
)
    requires
        plan_of(action, args, outcomes) is Err,
        action.command.len() > 0,
        action.command[0].len() > 0,
        action.command[0][0] == '/',
    ensures
        ({
            let fault = plan_of(action, args, outcomes)->Err_0;
            if fault is UnknownArg {
                &&& forall|k: int|
                    0 <= k < action.args.len() ==> (#[trigger] action.args[k]).0
                        != fault->UnknownArg_0
                &&& exists|i: int|
                    0 <= i < args.len() && (#[trigger] args[i]).0 == fault->UnknownArg_0
                        && forall|j: int|
                        0 <= j < i ==> lookup(action.args, (#[trigger] args[j]).0) is Some
            } else {
                &&& forall|j: int|
                    0 <= j < args.len() ==> lookup(action.args, (#[trigger] args[j]).0) is Some
                &&& exists|i: int|
                    {
                        &&& 0 <= i < action.args.len()
                        &&& forall|j: int|
                            0 <= j < i ==> fits(
                                (#[trigger] action.args[j]).1,
                                lookup(args, action.args[j].0),
                                outcomes[j],
                            )
                        &&& !fits(
                            (#[trigger] action.args[i]).1,
                            lookup(args, action.args[i].0),
                            outcomes[i],
                        )
                        &&& match (fault, action.args[i].1) {
                            (FaultModel::MissingArg(arg), _) => arg == action.args[i].0 && lookup(
                                args,
                                arg,
                            ) is None,
                            (
                                FaultModel::PatternMismatch { arg, value, pattern },
                                ArgModel::Text { pattern: p, .. },
                            ) => arg == action.args[i].0 && lookup(args, arg) == Some(value)
                                && pattern == p && outcomes[i] is Mismatch,
                            (
                                FaultModel::BadPattern { arg, pattern, message },
                                ArgModel::Text { pattern: p, .. },
                            ) => arg == action.args[i].0 && lookup(args, arg) is Some && pattern
                                == p && outcomes[i] == PatternModel::Invalid(message),
                            (
                                FaultModel::NotInEnum { arg, value, values },
                                ArgModel::Enum { values: v, .. },
                            ) => arg == action.args[i].0 && lookup(args, arg) == Some(value)
                                && values == v,
                            (FaultModel::BadSha { arg, value }, ArgModel::Sha { .. }) => arg
                                == action.args[i].0 && lookup(args, arg) == Some(value),
                            _ => false,
                        }
                    }
            }
        }),
{
    let rules = action.args;
    lemma_first_undeclared_at(rules, args, 0);
    if let Some(name) = first_undeclared(rules, args, 0) {
        assert forall|k: int| 0 <= k < rules.len() implies (#[trigger] rules[k]).0 != name by {
            if rules[k].0 == name {
                lemma_lookup_present(rules, name);
            }
        }
    } else {
        let at = lemma_first_fault_at(rules, args, outcomes, 0);
        assert forall|j: int| 0 <= j < at implies fits(
            (#[trigger] rules[j]).1,
            lookup(args, rules[j].0),
            outcomes[j],
        ) by {
            lemma_fits(rules[j].0, rules[j].1, args, outcomes[j]);
        }
        lemma_fits(rules[at].0, rules[at].1, args, outcomes[at]);
        assert(rules[at] == rules[at]);
    }
}

// ---------------------------------------------------------------------------
// What is run

proof fn lemma_added_agree(
    rules: Seq<(Seq<char>, ArgModel)>,
    more: Seq<(Seq<char>, ArgModel)>,
    a: Seq<(Seq<char>, Seq<char>)>,
    b: Seq<(Seq<char>, Seq<char>)>,
    n: int,
)
    requires
        0 <= n <= rules.len() <= more.len(),
        forall|i: int|
            0 <= i < rules.len() ==> #[trigger] rules[i] == more[i] && lookup(a, rules[i].0)
                == lookup(b, rules[i].0),
    ensures
        added_tokens(rules, a, n) == added_tokens(more, b, n),
        added_checks(rules, a, n) == added_checks(more, b, n),
    decreases n,
{
    if n > 0 {
        lemma_added_agree(rules, more, a, b, n - 1);
        assert(rules[n - 1] == more[n - 1]);
    }
}

/// An action that declares nothing runs its bare command, unchecked.
pub proof fn law_bare_command_is_run_as_it_is(action: ActionModel, outcomes: Seq<PatternModel>)
    requires
        action.args.len() == 0,
    ensures
        plan_of(action, Seq::empty(), outcomes) matches Ok(plan) ==> plan.argv == action.command
            && plan.sha_checks.len() == 0,
{
    assert(added_tokens(action.args, Seq::empty(), 0) =~= Seq::empty());
    assert(action.command + Seq::<Seq<char>>::empty() =~= action.command);
}

/// How the plans of two actions relate of which the second declares one arg more,
/// at the end: with a value for it, the plan has that arg's tokens more, at the
/// end, each with the value in place of `${value}`, and one check more exactly
/// where the arg is a commit id; without a value, it is the same plan.
pub proof fn law_last_arg_adds_its_tokens(
    action: ActionModel,
    more: ActionModel,
    args: Seq<(Seq<char>, Seq<char>)>,
    more_args: Seq<(Seq<char>, Seq<char>)>,
    outcomes: Seq<PatternModel>,
    more_outcomes: Seq<PatternModel>,
)
    requires
        more.command == action.command,
        more.args.len() == action.args.len() + 1,
        forall|i: int|
            0 <= i < action.args.len() ==> #[trigger] action.args[i] == more.args[i] && lookup(
                args,
                action.args[i].0,
            ) == lookup(more_args, action.args[i].0),
        plan_of(action, args, outcomes) is Ok,
        plan_of(more, more_args, more_outcomes) is Ok,
    ensures
        ({
            let plan = plan_of(action, args, outcomes)->Ok_0;
            let longer = plan_of(more, more_args, more_outcomes)->Ok_0;
            let name = more.args.last().0;
            let tokens = match more.args.last().1 {
                ArgModel::Text { argv, .. } => argv,
                ArgModel::Enum { argv, .. } => argv,
                ArgModel::Sha { argv, .. } => argv,
            };
            match lookup(more_args, name) {
                None => longer == plan,
                Some(value) => {
                    &&& longer.argv.len() == plan.argv.len() + tokens.len()
                    &&& longer.argv.take(plan.argv.len() as int) == plan.argv
                    &&& forall|k: int|
                        0 <= k < tokens.len() ==> longer.argv[plan.argv.len() + k] == replaced(
                            #[trigger] tokens[k],
                            "${value}"@,
                            value,
                        )
                    &&& match more.args.last().1 {
                        ArgModel::Sha { repo, ancestor_of, .. } => longer.sha_checks
                            == plan.sha_checks.push(
                            ShaModel { arg: name, value, repo, ancestor_of },
                        ),
                        _ => longer.sha_checks == plan.sha_checks,
                    }
                },
            }
        }),
{
    let n = action.args.len() as int;
    lemma_added_agree(action.args, more.args, args, more_args, n);
    let plan = plan_of(action, args, outcomes)->Ok_0;
    let longer = plan_of(more, more_args, more_outcomes)->Ok_0;
    assert(more.args.last() == more.args[n]);
    let before = added_tokens(more.args, more_args, n);
    match lookup(more_args, more.args.last().0) {
        None => {
            assert(added_tokens(more.args, more_args, n + 1) =~= before);
            assert(added_checks(more.args, more_args, n + 1) =~= plan.sha_checks);
        },
        Some(value) => {
            assert(longer.argv.take(plan.argv.len() as int) =~= plan.argv);
            match more.args.last().1 {
                ArgModel::Sha { repo, ancestor_of, .. } => {
                    assert(longer.sha_checks =~= plan.sha_checks.push(
                        ShaModel { arg: more.args.last().0, value, repo, ancestor_of },
                    ));
                },
                _ => {
                    assert(longer.sha_checks =~= plan.sha_checks);
                },
            }
        },
    }
}

/// The plan of a message is that of its own args, each held against the pattern
/// that it is declared with.
pub proof fn law_messages_are_planned_by_their_args(action: ActionModel, envelope: EnvelopeModel)
    ensures
        planned(action, envelope) == plan_of(
            action,
            envelope.args,
            outcomes_of(action.args, envelope.args),
        ),
        planned(action, envelope) is Ok ==> forall|i: int|
            0 <= i < action.args.len() ==> ((#[trigger] action.args[i]).1 matches ArgModel::Text {
                pattern,
                ..
            } ==> (lookup(envelope.args, action.args[i].0) matches Some(value) ==> regex_error(
                pattern,
            ) is None && regex_matches(pattern, value))),
{
    law_plan_meets_the_schema(
        action,
        envelope.args,
        outcomes_of(action.args, envelope.args),
    );
}

/// A value meets a pattern exactly where the pattern compiles and matches it. Each
/// arg with a pattern is held against its own, and against no other.
pub proof fn law_patterns_decide(
    rules: Seq<(Seq<char>, ArgModel)>,
    args: Seq<(Seq<char>, Seq<char>)>,
    i: int,
)
    requires
        0 <= i < rules.len(),
    ensures
        outcomes_of(rules, args).len() == rules.len(),
        lookup(args, rules[i].0) matches Some(value) ==> (rules[i].1 matches ArgModel::Text {
            pattern,
            ..
        } ==> match regex_error(pattern) {
            Some(message) => outcomes_of(rules, args)[i] == PatternModel::Invalid(message),
            None => if regex_matches(pattern, value) {
                outcomes_of(rules, args)[i] is Match
            } else {
                outcomes_of(rules, args)[i] is Mismatch
            },
        }),
{
}

} // verus!
