//! The commands that the agent runs: the action itself, and git for the
//! repo-state checks.
use crate::action::{ActionConfig, ActionModel, ExecPlan, ShaCheck, ShaModel};
use crate::text::{clone_option, joined2, joined3};
use crate::timeout::{parse_timeout, timeout_seconds};
use vstd::prelude::*;

verus! {

/// A command to run. No shell is involved: each arg is one argument of the
/// program.
#[derive(Debug, Clone, PartialEq, Eq)]
pub struct CommandLine {
    pub program: String,
    pub args: Vec<String>,
    pub working_dir: Option<String>,
    /// How long it may run.
    pub timeout_secs: u64,
}

/// What a [`CommandLine`] says.
pub struct CommandModel {
    pub program: Seq<char>,
    pub args: Seq<Seq<char>>,
    pub working_dir: Option<Seq<char>>,
    pub timeout_secs: int,
}

impl DeepView for CommandLine {
    type V = CommandModel;

    open spec fn deep_view(&self) -> CommandModel {
        CommandModel {
            program: self.program@,
            args: self.args.deep_view(),
            working_dir: self.working_dir.deep_view(),
            timeout_secs: self.timeout_secs as int,
        }
    }
}

/// The command that runs `argv` for an action: by itself, or through `sudo` as
/// the user that the action names.
pub open spec fn command_of(action: ActionModel, argv: Seq<Seq<char>>) -> CommandModel {
    CommandModel {
        program: match action.run_as {
            Some(_) => "sudo"@,
            None => argv[0],
        },
        args: match action.run_as {
            Some(user) => seq!["-u"@, user, "--"@] + argv,
            None => argv.skip(1),
        },
        working_dir: action.working_dir,
        timeout_secs: timeout_seconds(action.timeout),
    }
}

/// The command that runs a plan of an action.
pub fn command_for(action: &ActionConfig, plan: &ExecPlan) -> (r: CommandLine)
    requires
        plan.deep_view().argv.len() > 0,
    ensures
        r.deep_view() == command_of(action.deep_view(), plan.deep_view().argv),
{
    let ghost argv = plan.argv.deep_view();
    let mut args: Vec<String> = Vec::new();
    let mut from: usize = 0;
    let program = match &action.run_as {
        Some(user) => {
            args.push("-u".to_owned());
            args.push(user.clone());
            args.push("--".to_owned());
            assert(args.deep_view() =~= seq!["-u"@, user@, "--"@]);
            "sudo".to_owned()
        },
        None => {
            assert(argv[0] == plan.argv@[0]@);
            from = 1;
            plan.argv[0].clone()
        },
    };
    let ghost start = args.deep_view();
    let ghost rest = argv.skip(from as int);
    let mut i: usize = from;
    assert(start + rest.take(0) =~= start);
    while i < plan.argv.len()
        invariant
            from <= i <= plan.argv@.len(),
            argv == plan.argv.deep_view(),
            rest == argv.skip(from as int),
            args.deep_view() =~= start + rest.take(i - from),
        decreases plan.argv@.len() - i,
    {
        let ghost earlier = args.deep_view();
        args.push(plan.argv[i].clone());
        assert(args.deep_view() =~= earlier.push(rest[i - from]));
        i = i + 1;
    }
    assert(rest.take(i - from) =~= rest);
    assert(args.deep_view() =~= command_of(action.deep_view(), argv).args) by {
        assert(argv.skip(0) =~= argv);
    }
    let timeout = match &action.timeout {
        Some(text) => Some(text.as_str()),
        None => None,
    };
    CommandLine {
        program,
        args,
        working_dir: clone_option(&action.working_dir),
        timeout_secs: parse_timeout(timeout),
    }
}

/// The program that an action runs is the first of its argv, an argument of
/// `sudo` where it runs as another user, and every further token is handed to it
/// as one argument, in order.
pub proof fn law_argv_is_handed_on(action: ActionModel, argv: Seq<Seq<char>>)
    requires
        argv.len() > 0,
    ensures
        action.run_as is None ==> seq![command_of(action, argv).program] + command_of(
            action,
            argv,
        ).args == argv,
        action.run_as is Some ==> command_of(action, argv).args.skip(3) == argv && command_of(
            action,
            argv,
        ).args[1] == action.run_as->0,
{
    let c = command_of(action, argv);
    if action.run_as is None {
        assert(seq![c.program] + c.args =~= argv);
    } else {
        assert(c.args.skip(3) =~= argv);
    }
}

// ---------------------------------------------------------------------------
// Repo-state checks

/// The arguments of `git` for a repo-state check: whether the commit is an
/// ancestor of the allowed ref.
pub open spec fn ancestor_args(check: ShaModel) -> Seq<Seq<char>> {
    seq![
        "-C"@,
        check.repo,
        "merge-base"@,
        "--is-ancestor"@,
        check.value,
        check.ancestor_of,
    ]
}

/// `git -C <repo> merge-base --is-ancestor <sha> <ancestor_of>` — the repo-state
/// gate: the commit must exist and be an ancestor of the allowed ref.
pub fn git_args(check: &ShaCheck) -> (r: Vec<String>)
    ensures
        r.deep_view() == ancestor_args(check.deep_view()),
{
    let mut r: Vec<String> = Vec::new();
    r.push("-C".to_owned());
    r.push(check.repo.clone());
    r.push("merge-base".to_owned());
    r.push("--is-ancestor".to_owned());
    r.push(check.value.clone());
    r.push(check.ancestor_of.clone());
    assert(r.deep_view() =~= ancestor_args(check.deep_view()));
    r
}

/// The command of a repo-state check.
#[derive(Debug, Clone, PartialEq, Eq)]
pub struct CheckCommand {
    pub program: String,
    pub args: Vec<String>,
}

/// What a [`CheckCommand`] says.
pub struct CheckCommandModel {
    pub program: Seq<char>,
    pub args: Seq<Seq<char>>,
}

impl DeepView for CheckCommand {
    type V = CheckCommandModel;

    open spec fn deep_view(&self) -> CheckCommandModel {
        CheckCommandModel { program: self.program@, args: self.args.deep_view() }
    }
}

/// The command whose exit status judges a repo-state check.
pub fn git_command(check: &ShaCheck) -> (r: CheckCommand)
    ensures
        r.deep_view() == (CheckCommandModel {
            program: "git"@,
            args: ancestor_args(check.deep_view()),
        }),
{
    CheckCommand { program: "git".to_owned(), args: git_args(check) }
}

/// What comes of a repo-state check: nothing where git ran and succeeded, or
/// else why it is not passed.
pub open spec fn sha_refusal(check: ShaModel, status: Result<bool, Seq<char>>) -> Option<
    Seq<char>,
> {
    match status {
        Ok(true) => None,
        Ok(false) => Some(
            check.value + " is not an ancestor of "@ + check.ancestor_of + (" in "@ + check.repo),
        ),
        Err(e) => Some("running git in "@ + check.repo + (": "@ + e)),
    }
}

/// The model of an exit status: whether the program succeeded, or why it could
/// not be run.
pub open spec fn status_model(status: Result<bool, String>) -> Result<bool, Seq<char>> {
    match status {
        Ok(success) => Ok(success),
        Err(e) => Err(e@),
    }
}

/// Judges a repo-state check by git's exit status: whether it succeeded, or why
/// git could not be run.
pub fn verify_sha(check: &ShaCheck, status: Result<bool, String>) -> (r: Result<(), String>)
    ensures
        match r {
            Ok(_) => sha_refusal(check.deep_view(), status_model(status)) is None,
            Err(why) => sha_refusal(check.deep_view(), status_model(status)) == Some(why@),
        },
{
    match status {
        Ok(true) => Ok(()),
        Ok(false) => {
            let end = joined2(" in ", check.repo.as_str());
            let start = joined3(
                check.value.as_str(),
                " is not an ancestor of ",
                check.ancestor_of.as_str(),
            );
            Err(joined2(start.as_str(), end.as_str()))
        },
        Err(e) => {
            let end = joined2(": ", e.as_str());
            Err(joined3("running git in ", check.repo.as_str(), end.as_str()))
        },
    }
}

} // verus!
