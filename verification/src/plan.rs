//! Planning: a message is validated against the schema of its action, and the
//! argv to run is put together.
use crate::action::{
    git_sha, is_git_sha, ActionConfig, ActionModel, ArgModel, ArgSpec, ExecPlan, FaultModel,
    PlanError, PlanModel, ShaCheck, ShaModel,
};
use crate::message::Envelope;
use crate::text::{clone_texts, replace, replaced, same_text, starts_with};
use crate::text_map::lookup;
use vstd::prelude::*;

verus! {

// ---------------------------------------------------------------------------
// Patterns

/// The text of the error that `regex::Regex::new` gives for a pattern, or
/// `None` where the pattern compiles.
pub uninterp spec fn regex_error(pattern: Seq<char>) -> Option<Seq<char>>;

/// Whether `regex::Regex::is_match` finds a match in `text` of a pattern that
/// compiles.
pub uninterp spec fn regex_matches(pattern: Seq<char>, text: Seq<char>) -> bool;

/// `regex::Regex::new` on the pattern and, where that compiles,
/// `regex::Regex::is_match` on the text. Which patterns compile, the text of the
/// error of one that does not, and which texts match are functions of the
/// pattern and the text alone. (How large a pattern may get is counted in bytes
/// of memory: this is said of machines of one word size.)
#[verifier::external_body]
fn run_regex(pattern: &str, text: &str) -> (r: Result<bool, String>)
    ensures
        match r {
            Ok(found) => regex_error(pattern@) is None && found == regex_matches(
                pattern@,
                text@,
            ),
            Err(message) => regex_error(pattern@) == Some(message@),
        },
{
    match regex::Regex::new(pattern) {
        Ok(re) => Ok(re.is_match(text)),
        Err(e) => Err(e.to_string()),
    }
}

/// What came of matching a value against a pattern.
#[derive(Debug, Clone, PartialEq, Eq)]
pub enum PatternOutcome {
    Match,
    Mismatch,
    /// The pattern is not a valid regex; the text says why.
    Invalid(String),
}

/// What a [`PatternOutcome`] says.
pub enum PatternModel {
    Match,
    Mismatch,
    Invalid(Seq<char>),
}

impl DeepView for PatternOutcome {
    type V = PatternModel;

    open spec fn deep_view(&self) -> PatternModel {
        match self {
            PatternOutcome::Match => PatternModel::Match,
            PatternOutcome::Mismatch => PatternModel::Mismatch,
            PatternOutcome::Invalid(message) => PatternModel::Invalid(message@),
        }
    }
}

/// What comes of matching `text` against `pattern`.
pub open spec fn outcome_of(pattern: Seq<char>, text: Seq<char>) -> PatternModel {
    match regex_error(pattern) {
        Some(message) => PatternModel::Invalid(message),
        None => if regex_matches(pattern, text) {
            PatternModel::Match
        } else {
            PatternModel::Mismatch
        },
    }
}

/// Matches `text` against `pattern`.
pub fn match_pattern(pattern: &str, text: &str) -> (r: PatternOutcome)
    ensures
        r.deep_view() == outcome_of(pattern@, text@),
{
    match run_regex(pattern, text) {
        Ok(true) => PatternOutcome::Match,
        Ok(false) => PatternOutcome::Mismatch,
        Err(message) => PatternOutcome::Invalid(message),
    }
}

/// For each declared arg in turn, what comes of matching its value against its
/// pattern; `Match` for one that has no pattern, or that the message lacks.
pub open spec fn outcomes_of(
    rules: Seq<(Seq<char>, ArgModel)>,
    args: Seq<(Seq<char>, Seq<char>)>,
) -> Seq<PatternModel> {
    Seq::new(
        rules.len(),
        |i: int|
            match (rules[i].1, lookup(args, rules[i].0)) {
                (ArgModel::Text { pattern, .. }, Some(value)) => outcome_of(pattern, value),
                _ => PatternModel::Match,
            },
    )
}

// ---------------------------------------------------------------------------
// What a plan is

/// The text that stands for the value in the tokens of an arg.
pub open spec fn value_marker() -> Seq<char> {
    "${value}"@
}

/// What is wrong with `value` as the value of the arg `name`, where `outcome`
/// is what came of matching it against the arg's pattern.
pub open spec fn value_fault(
    name: Seq<char>,
    rule: ArgModel,
    value: Seq<char>,
    outcome: PatternModel,
) -> Option<FaultModel> {
    match rule {
        ArgModel::Text { pattern, .. } => match outcome {
            PatternModel::Invalid(message) => Some(
                FaultModel::BadPattern { arg: name, pattern, message },
            ),
            PatternModel::Mismatch => Some(
                FaultModel::PatternMismatch { arg: name, value, pattern },
            ),
            PatternModel::Match => None,
        },
        ArgModel::Enum { values, .. } => if values.contains(value) {
            None
        } else {
            Some(FaultModel::NotInEnum { arg: name, value, values })
        },
        ArgModel::Sha { .. } => if git_sha(value) {
            None
        } else {
            Some(FaultModel::BadSha { arg: name, value })
        },
    }
}

/// What is wrong with a message's args as far as the declared arg `name` goes.
pub open spec fn arg_fault(
    name: Seq<char>,
    rule: ArgModel,
    args: Seq<(Seq<char>, Seq<char>)>,
    outcome: PatternModel,
) -> Option<FaultModel> {
    match lookup(args, name) {
        Some(value) => value_fault(name, rule, value, outcome),
        None => if rule.is_required() {
            Some(FaultModel::MissingArg(name))
        } else {
            None
        },
    }
}

/// The first fault among the declared args from position `from` on.
pub open spec fn first_fault(
    rules: Seq<(Seq<char>, ArgModel)>,
    args: Seq<(Seq<char>, Seq<char>)>,
    outcomes: Seq<PatternModel>,
    from: int,
) -> Option<FaultModel>
    decreases rules.len() - from,
{
    if from < 0 || from >= rules.len() {
        None
    } else {
        match arg_fault(rules[from].0, rules[from].1, args, outcomes[from]) {
            Some(fault) => Some(fault),
            None => first_fault(rules, args, outcomes, from + 1),
        }
    }
}

/// The first arg of the message, from position `from` on, that the action does
/// not declare.
pub open spec fn first_undeclared(
    rules: Seq<(Seq<char>, ArgModel)>,
    args: Seq<(Seq<char>, Seq<char>)>,
    from: int,
) -> Option<Seq<char>>
    decreases args.len() - from,
{
    if from < 0 || from >= args.len() {
        None
    } else if lookup(rules, args[from].0) is None {
        Some(args[from].0)
    } else {
        first_undeclared(rules, args, from + 1)
    }
}

/// `tokens` with the value in place of the marker.
pub open spec fn filled(tokens: Seq<Seq<char>>, value: Seq<char>) -> Seq<Seq<char>> {
    tokens.map_values(|token: Seq<char>| replaced(token, value_marker(), value))
}

/// The tokens that a declared arg adds to the command.
pub open spec fn arg_tokens(
    name: Seq<char>,
    rule: ArgModel,
    args: Seq<(Seq<char>, Seq<char>)>,
) -> Seq<Seq<char>> {
    match lookup(args, name) {
        Some(value) => filled(rule.tokens(), value),
        None => Seq::empty(),
    }
}

/// The repo-state checks that a declared arg asks for.
pub open spec fn arg_checks(
    name: Seq<char>,
    rule: ArgModel,
    args: Seq<(Seq<char>, Seq<char>)>,
) -> Seq<ShaModel> {
    match (rule, lookup(args, name)) {
        (ArgModel::Sha { repo, ancestor_of, .. }, Some(value)) => seq![
            ShaModel { arg: name, value, repo, ancestor_of },
        ],
        _ => Seq::empty(),
    }
}

/// What the first `n` declared args add to the command.
pub open spec fn added_tokens(
    rules: Seq<(Seq<char>, ArgModel)>,
    args: Seq<(Seq<char>, Seq<char>)>,
    n: int,
) -> Seq<Seq<char>>
    decreases n,
{
    if n <= 0 {
        Seq::empty()
    } else {
        added_tokens(rules, args, n - 1) + arg_tokens(rules[n - 1].0, rules[n - 1].1, args)
    }
}

/// The repo-state checks that the first `n` declared args ask for.
pub open spec fn added_checks(
    rules: Seq<(Seq<char>, ArgModel)>,
    args: Seq<(Seq<char>, Seq<char>)>,
    n: int,
) -> Seq<ShaModel>
    decreases n,
{
    if n <= 0 {
        Seq::empty()
    } else {
        added_checks(rules, args, n - 1) + arg_checks(rules[n - 1].0, rules[n - 1].1, args)
    }
}

/// Whether a command names its program by an absolute path.
pub open spec fn absolute(command: Seq<Seq<char>>) -> bool {
    command.len() > 0 && command[0].len() > 0 && command[0][0] == '/'
}

/// The plan for a message with the args `args`, or what is wrong with it, where
/// `outcomes` says what came of matching each arg against its pattern.
pub open spec fn plan_of(
    action: ActionModel,
    args: Seq<(Seq<char>, Seq<char>)>,
    outcomes: Seq<PatternModel>,
) -> Result<PlanModel, FaultModel> {
    let rules = action.args;
    if action.command.len() == 0 {
        Err(FaultModel::EmptyCommand)
    } else if !absolute(action.command) {
        Err(FaultModel::NonAbsoluteCommand(action.command[0]))
    } else {
        match (first_undeclared(rules, args, 0), first_fault(rules, args, outcomes, 0)) {
            (Some(name), _) => Err(FaultModel::UnknownArg(name)),
            (None, Some(fault)) => Err(fault),
            (None, None) => Ok(
                PlanModel {
                    argv: action.command + added_tokens(rules, args, rules.len() as int),
                    sha_checks: added_checks(rules, args, rules.len() as int),
                },
            ),
        }
    }
}

/// The model of a plan or of the error in its place.
pub open spec fn result_model(r: Result<ExecPlan, PlanError>) -> Result<PlanModel, FaultModel> {
    match r {
        Ok(plan) => Ok(plan.deep_view()),
        Err(error) => Err(error.deep_view()),
    }
}

// ---------------------------------------------------------------------------
// Planning

/// Whether `values` holds `value`.
fn holds(values: &Vec<String>, value: &str) -> (r: bool)
    ensures
        r == values.deep_view().contains(value@),
{
    let mut i: usize = 0;
    while i < values.len()
        invariant
            i <= values@.len(),
            forall|j: int| 0 <= j < i ==> values.deep_view()[j] != value@,
        decreases values@.len() - i,
    {
        if same_text(values[i].as_str(), value) {
            assert(values.deep_view()[i as int] == value@);
            return true;
        }
        i = i + 1;
    }
    false
}

/// Checks `value` as the value of the arg `name`, where `outcome` is what came
/// of matching it against the arg's pattern.
pub fn check_value(name: &str, spec: &ArgSpec, value: &str, outcome: &PatternOutcome) -> (r: Option<
    PlanError,
>)
    ensures
        r.deep_view() == value_fault(name@, spec.deep_view(), value@, outcome.deep_view()),
{
    match spec {
        ArgSpec::String { pattern, .. } => match outcome {
            PatternOutcome::Invalid(message) => Some(
                PlanError::BadPattern {
                    arg: name.to_owned(),
                    pattern: pattern.clone(),
                    message: message.clone(),
                },
            ),
            PatternOutcome::Mismatch => Some(
                PlanError::PatternMismatch {
                    arg: name.to_owned(),
                    value: value.to_owned(),
                    pattern: pattern.clone(),
                },
            ),
            PatternOutcome::Match => None,
        },
        ArgSpec::Enum { values, .. } => if holds(values, value) {
            None
        } else {
            Some(
                PlanError::NotInEnum {
                    arg: name.to_owned(),
                    value: value.to_owned(),
                    values: clone_texts(values),
                },
            )
        },
        ArgSpec::Sha { .. } => if is_git_sha(value) {
            None
        } else {
            Some(PlanError::BadSha { arg: name.to_owned(), value: value.to_owned() })
        },
    }
}

/// Appends `tokens` to `argv`, with `value` in place of the marker. The value
/// only ever becomes part of a token: it is never parsed.
fn append_filled(argv: &mut Vec<String>, tokens: &Vec<String>, value: &str)
    ensures
        final(argv).deep_view() == old(argv).deep_view() + filled(tokens.deep_view(), value@),
{
    let ghost start = argv.deep_view();
    let ghost all = filled(tokens.deep_view(), value@);
    proof {
        reveal_strlit("${value}");
    }
    let mut i: usize = 0;
    assert(argv.deep_view() =~= start + all.take(0));
    while i < tokens.len()
        invariant
            i <= tokens@.len(),
            all == filled(tokens.deep_view(), value@),
            "${value}"@.len() > 0,
            argv.deep_view() =~= start + all.take(i as int),
        decreases tokens@.len() - i,
    {
        let token = replace(tokens[i].as_str(), "${value}", value);
        assert(token@ == all[i as int]);
        let ghost earlier = argv.deep_view();
        argv.push(token);
        assert(argv.deep_view() =~= earlier.push(token@));
        i = i + 1;
    }
    assert(all.take(tokens@.len() as int) =~= all);
}

impl ActionConfig {
    /// Matches each declared arg that has a pattern and that the message carries
    /// against that pattern.
    pub fn match_args(&self, env: &Envelope) -> (r: Vec<PatternOutcome>)
        ensures
            r.deep_view() == outcomes_of(self.deep_view().args, env.deep_view().args),
    {
        let mut r: Vec<PatternOutcome> = Vec::new();
        let mut i: usize = 0;
        let ghost all = outcomes_of(self.args.deep_view(), env.args.deep_view());
        while i < self.args.len()
            invariant
                i <= self.args.deep_view().len(),
                all == outcomes_of(self.args.deep_view(), env.args.deep_view()),
                r.deep_view() =~= all.take(i as int),
            decreases self.args.deep_view().len() - i,
        {
            let value = env.args.get(self.args.key_at(i).as_str());
            let outcome = match (self.args.value_at(i), value) {
                (ArgSpec::String { pattern, .. }, Some(text)) => match_pattern(
                    pattern.as_str(),
                    text.as_str(),
                ),
                _ => PatternOutcome::Match,
            };
            assert(outcome.deep_view() == all[i as int]);
            let ghost earlier = r.deep_view();
            r.push(outcome);
            assert(r.deep_view() =~= earlier.push(outcome.deep_view()));
            i = i + 1;
        }
        assert(all.take(i as int) =~= all);
        r
    }

    /// The first arg of the message that this action does not declare.
    fn undeclared(&self, env: &Envelope) -> (r: Option<String>)
        ensures
            r.deep_view() == first_undeclared(self.deep_view().args, env.deep_view().args, 0),
    {
        let mut i: usize = 0;
        while i < env.args.len()
            invariant
                i <= env.args.deep_view().len(),
                first_undeclared(self.args.deep_view(), env.args.deep_view(), i as int)
                    == first_undeclared(self.args.deep_view(), env.args.deep_view(), 0),
            decreases env.args.deep_view().len() - i,
        {
            let key = env.args.key_at(i);
            if !self.args.contains_key(key.as_str()) {
                return Some(key.clone());
            }
            i = i + 1;
        }
        None
    }

    /// Validates `env.args` against this action's schema and assembles the argv
    /// to run, where `outcomes` says what came of matching each declared arg
    /// against its pattern.
    pub fn plan_with(&self, env: &Envelope, outcomes: &Vec<PatternOutcome>) -> (r: Result<
        ExecPlan,
        PlanError,
    >)
        requires
            outcomes@.len() == self.deep_view().args.len(),
        ensures
            result_model(r) == plan_of(
                self.deep_view(),
                env.deep_view().args,
                outcomes.deep_view(),
            ),
    {
        if self.command.len() == 0 {
            return Err(PlanError::EmptyCommand);
        }
        assert(self.command.deep_view()[0] == self.command@[0]@);
        if !starts_with(self.command[0].as_str(), '/') {
            return Err(PlanError::NonAbsoluteCommand(self.command[0].clone()));
        }
        if let Some(name) = self.undeclared(env) {
            return Err(PlanError::UnknownArg(name));
        }
        let ghost rules = self.args.deep_view();
        let ghost args = env.args.deep_view();
        let mut argv = clone_texts(&self.command);
        let mut sha_checks: Vec<ShaCheck> = Vec::new();
        let mut i: usize = 0;
        assert(argv.deep_view() =~= self.command.deep_view() + added_tokens(rules, args, 0));
        assert(sha_checks.deep_view() =~= added_checks(rules, args, 0));
        while i < self.args.len()
            invariant
                i <= rules.len(),
                rules == self.args.deep_view(),
                args == env.args.deep_view(),
                outcomes@.len() == rules.len(),
                absolute(self.command.deep_view()),
                first_undeclared(rules, args, 0) is None,
                first_fault(rules, args, outcomes.deep_view(), i as int) == first_fault(
                    rules,
                    args,
                    outcomes.deep_view(),
                    0,
                ),
                argv.deep_view() == self.command.deep_view() + added_tokens(
                    rules,
                    args,
                    i as int,
                ),
                sha_checks.deep_view() == added_checks(rules, args, i as int),
            decreases rules.len() - i,
        {
            let name = self.args.key_at(i);
            let spec = self.args.value_at(i);
            assert(outcomes.deep_view()[i as int] == outcomes@[i as int].deep_view());
            match env.args.get(name.as_str()) {
                None => {
                    if spec.required() {
                        return Err(PlanError::MissingArg(name.clone()));
                    }
                },
                Some(value) => {
                    if let Some(error) = check_value(
                        name.as_str(),
                        spec,
                        value.as_str(),
                        &outcomes[i],
                    ) {
                        return Err(error);
                    }
                    if let ArgSpec::Sha { repo, ancestor_of, .. } = spec {
                        let ghost earlier = sha_checks.deep_view();
                        let check = ShaCheck {
                            arg: name.clone(),
                            value: value.clone(),
                            repo: repo.clone(),
                            ancestor_of: ancestor_of.clone(),
                        };
                        sha_checks.push(check);
                        assert(sha_checks.deep_view() =~= earlier.push(check.deep_view()));
                    }
                    append_filled(&mut argv, spec.argv(), value.as_str());
                },
            }
            assert(argv.deep_view() =~= self.command.deep_view() + added_tokens(
                rules,
                args,
                i + 1,
            ));
            assert(sha_checks.deep_view() =~= added_checks(rules, args, i + 1));
            i = i + 1;
        }
        Ok(ExecPlan { argv, sha_checks })
    }

    /// Strictly validate `env.args` against this action's schema and assemble the
    /// argv to run. Does **not** run git or sudo — the caller must still satisfy
    /// every [`ExecPlan::sha_checks`] entry before executing.
    pub fn plan(&self, env: &Envelope) -> (r: Result<ExecPlan, PlanError>)
        ensures
            result_model(r) == plan_of(
                self.deep_view(),
                env.deep_view().args,
                outcomes_of(self.deep_view().args, env.deep_view().args),
            ),
    {
        let outcomes = self.match_args(env);
        assert(outcomes.deep_view().len() == outcomes@.len());
        self.plan_with(env, &outcomes)
    }
}

} // verus!
