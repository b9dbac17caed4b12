//! What an action accepts: the schema of its args, and the errors of a message
//! that does not fit it.
use crate::message::NotifyMode;
use crate::text::{chars_of, white_space};
use crate::text_map::TextMap;
use vstd::prelude::*;

verus! {

/// A parsed `/etc/flotswarm/actions.d/<id>.toml`. The action id is the filename
/// stem; it is matched against the envelope's `action` by the agent.
#[derive(Debug, Clone)]
pub struct ActionConfig {
    pub description: Option<String>,
    /// argv; `command[0]` must be an absolute path. Never a shell string.
    pub command: Vec<String>,
    /// Run the command as this user (via `sudo -u`); requires a sudoers rule.
    pub run_as: Option<String>,
    /// Max runtime, e.g. `"5m"`, `"30s"`. Parsed/enforced by the agent.
    pub timeout: Option<String>,
    pub working_dir: Option<String>,
    /// Declared args. Anything in the message not listed here is rejected.
    pub args: TextMap<ArgSpec>,
    /// When the agent should emit an outcome notification for this action.
    pub notify: NotifyMode,
}

/// What an [`ActionConfig`] says.
pub struct ActionModel {
    pub description: Option<Seq<char>>,
    pub command: Seq<Seq<char>>,
    pub run_as: Option<Seq<char>>,
    pub timeout: Option<Seq<char>>,
    pub working_dir: Option<Seq<char>>,
    pub args: Seq<(Seq<char>, ArgModel)>,
    pub notify: NotifyMode,
}

impl DeepView for ActionConfig {
    type V = ActionModel;

    open spec fn deep_view(&self) -> ActionModel {
        ActionModel {
            description: self.description.deep_view(),
            command: self.command.deep_view(),
            run_as: self.run_as.deep_view(),
            timeout: self.timeout.deep_view(),
            working_dir: self.working_dir.deep_view(),
            args: self.args.deep_view(),
            notify: self.notify,
        }
    }
}

/// The schema for one accepted arg. `argv` tokens are appended to the command
/// when the arg is present, with `${value}` replaced by the validated value.
#[derive(Debug, Clone)]
pub enum ArgSpec {
    /// A free string constrained by a mandatory regex.
    String { required: bool, pattern: String, argv: Vec<String> },
    /// One of a fixed set of values.
    Enum { required: bool, values: Vec<String>, argv: Vec<String> },
    /// A git commit id: hex format checked here; repo-state checked by the agent.
    Sha { required: bool, repo: String, ancestor_of: String, argv: Vec<String> },
}

/// What an [`ArgSpec`] says.
pub enum ArgModel {
    Text { required: bool, pattern: Seq<char>, argv: Seq<Seq<char>> },
    Enum { required: bool, values: Seq<Seq<char>>, argv: Seq<Seq<char>> },
    Sha { required: bool, repo: Seq<char>, ancestor_of: Seq<char>, argv: Seq<Seq<char>> },
}

impl DeepView for ArgSpec {
    type V = ArgModel;

    open spec fn deep_view(&self) -> ArgModel {
        match self {
            ArgSpec::String { required, pattern, argv } => ArgModel::Text {
                required: *required,
                pattern: pattern@,
                argv: argv.deep_view(),
            },
            ArgSpec::Enum { required, values, argv } => ArgModel::Enum {
                required: *required,
                values: values.deep_view(),
                argv: argv.deep_view(),
            },
            ArgSpec::Sha { required, repo, ancestor_of, argv } => ArgModel::Sha {
                required: *required,
                repo: repo@,
                ancestor_of: ancestor_of@,
                argv: argv.deep_view(),
            },
        }
    }
}

impl ArgModel {
    /// Whether a message must carry the arg.
    pub open spec fn is_required(self) -> bool {
        match self {
            ArgModel::Text { required, .. } => required,
            ArgModel::Enum { required, .. } => required,
            ArgModel::Sha { required, .. } => required,
        }
    }

    /// The tokens that the arg adds to the command.
    pub open spec fn tokens(self) -> Seq<Seq<char>> {
        match self {
            ArgModel::Text { argv, .. } => argv,
            ArgModel::Enum { argv, .. } => argv,
            ArgModel::Sha { argv, .. } => argv,
        }
    }
}

impl ArgSpec {
    /// Whether a message must carry the arg.
    pub fn required(&self) -> (r: bool)
        ensures
            r == self.deep_view().is_required(),
            match *self {
                ArgSpec::String { required, .. } => r == required,
                ArgSpec::Enum { required, .. } => r == required,
                ArgSpec::Sha { required, .. } => r == required,
            },
    {
        match self {
            ArgSpec::String { required, .. } => *required,
            ArgSpec::Enum { required, .. } => *required,
            ArgSpec::Sha { required, .. } => *required,
        }
    }

    /// The tokens that the arg adds to the command.
    pub fn argv(&self) -> (r: &Vec<String>)
        ensures
            r.deep_view() == self.deep_view().tokens(),
            match *self {
                ArgSpec::String { argv, .. } => *r == argv,
                ArgSpec::Enum { argv, .. } => *r == argv,
                ArgSpec::Sha { argv, .. } => *r == argv,
            },
    {
        match self {
            ArgSpec::String { argv, .. } => argv,
            ArgSpec::Enum { argv, .. } => argv,
            ArgSpec::Sha { argv, .. } => argv,
        }
    }
}

// ---------------------------------------------------------------------------
// Git commit ids

/// A lowercase hexadecimal digit.
pub open spec fn hex_lower(c: char) -> bool {
    ('0' <= c && c <= '9') || ('a' <= c && c <= 'f')
}

/// 7 to 40 lowercase hexadecimal digits.
pub open spec fn git_sha(s: Seq<char>) -> bool {
    7 <= s.len() <= 40 && forall|i: int| 0 <= i < s.len() ==> hex_lower(#[trigger] s[i])
}

/// Format check for a git commit id: 7–40 lowercase hex chars (`^[0-9a-f]{7,40}$`).
pub fn is_git_sha(s: &str) -> (r: bool)
    ensures
        r == git_sha(s@),
{
    let chars = chars_of(s);
    if chars.len() < 7 || chars.len() > 40 {
        return false;
    }
    let mut i: usize = 0;
    while i < chars.len()
        invariant
            chars@ == s@,
            i <= s@.len(),
            forall|j: int| 0 <= j < i ==> hex_lower(#[trigger] s@[j]),
        decreases s@.len() - i,
    {
        let c = chars[i];
        if !(('0' <= c && c <= '9') || ('a' <= c && c <= 'f')) {
            assert(!hex_lower(s@[i as int]));
            return false;
        }
        i = i + 1;
    }
    true
}

/// A commit id is nothing but hex digits: it holds no white space, and does not
/// start like an option.
pub proof fn law_git_sha_is_plain(s: Seq<char>)
    requires
        git_sha(s),
    ensures
        s[0] != '-',
        forall|i: int| 0 <= i < s.len() ==> !white_space(#[trigger] s[i]) && s[i] != '/',
{
    assert(hex_lower(s[0]));
    assert forall|i: int| 0 <= i < s.len() implies !white_space(#[trigger] s[i]) && s[i]
        != '/' by {
        assert(hex_lower(s[i]));
    }
}

// ---------------------------------------------------------------------------
// Plans

/// A git repo-state check the **agent** must run before executing (planning
/// never shells out).
#[derive(Debug, Clone, PartialEq, Eq)]
pub struct ShaCheck {
    pub arg: String,
    pub value: String,
    /// Repo to check in.
    pub repo: String,
    /// The value must be an ancestor of this ref (e.g. `origin/main`).
    pub ancestor_of: String,
}

/// What a [`ShaCheck`] says.
pub struct ShaModel {
    pub arg: Seq<char>,
    pub value: Seq<char>,
    pub repo: Seq<char>,
    pub ancestor_of: Seq<char>,
}

impl DeepView for ShaCheck {
    type V = ShaModel;

    open spec fn deep_view(&self) -> ShaModel {
        ShaModel {
            arg: self.arg@,
            value: self.value@,
            repo: self.repo@,
            ancestor_of: self.ancestor_of@,
        }
    }
}

/// The result of validating a message against an action: the argv to run, plus
/// any semantic checks the agent must still perform before executing.
#[derive(Debug, Clone, PartialEq, Eq)]
pub struct ExecPlan {
    pub argv: Vec<String>,
    pub sha_checks: Vec<ShaCheck>,
}

/// What an [`ExecPlan`] says.
pub struct PlanModel {
    pub argv: Seq<Seq<char>>,
    pub sha_checks: Seq<ShaModel>,
}

impl DeepView for ExecPlan {
    type V = PlanModel;

    open spec fn deep_view(&self) -> PlanModel {
        PlanModel { argv: self.argv.deep_view(), sha_checks: self.sha_checks.deep_view() }
    }
}

/// Why a message does not fit an action.
#[derive(Debug, PartialEq, Eq)]
pub enum PlanError {
    EmptyCommand,
    NonAbsoluteCommand(String),
    UnknownArg(String),
    MissingArg(String),
    PatternMismatch { arg: String, value: String, pattern: String },
    NotInEnum { arg: String, value: String, values: Vec<String> },
    BadSha { arg: String, value: String },
    BadPattern { arg: String, pattern: String, message: String },
}

/// What a [`PlanError`] says.
pub enum FaultModel {
    EmptyCommand,
    NonAbsoluteCommand(Seq<char>),
    UnknownArg(Seq<char>),
    MissingArg(Seq<char>),
    PatternMismatch { arg: Seq<char>, value: Seq<char>, pattern: Seq<char> },
    NotInEnum { arg: Seq<char>, value: Seq<char>, values: Seq<Seq<char>> },
    BadSha { arg: Seq<char>, value: Seq<char> },
    BadPattern { arg: Seq<char>, pattern: Seq<char>, message: Seq<char> },
}

impl DeepView for PlanError {
    type V = FaultModel;

    open spec fn deep_view(&self) -> FaultModel {
        match self {
            PlanError::EmptyCommand => FaultModel::EmptyCommand,
            PlanError::NonAbsoluteCommand(s) => FaultModel::NonAbsoluteCommand(s@),
            PlanError::UnknownArg(s) => FaultModel::UnknownArg(s@),
            PlanError::MissingArg(s) => FaultModel::MissingArg(s@),
            PlanError::PatternMismatch { arg, value, pattern } => FaultModel::PatternMismatch {
                arg: arg@,
                value: value@,
                pattern: pattern@,
            },
            PlanError::NotInEnum { arg, value, values } => FaultModel::NotInEnum {
                arg: arg@,
                value: value@,
                values: values.deep_view(),
            },
            PlanError::BadSha { arg, value } => FaultModel::BadSha { arg: arg@, value: value@ },
            PlanError::BadPattern { arg, pattern, message } => FaultModel::BadPattern {
                arg: arg@,
                pattern: pattern@,
                message: message@,
            },
        }
    }
}

} // verus!
