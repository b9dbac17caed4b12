use flotswarm::message::default_target;
use flotswarm::plan::{check_value, match_pattern, PatternOutcome};
use flotswarm::text_map::TextMap;
use flotswarm::{is_git_sha, ActionConfig, ArgSpec, Envelope, NotifyMode, PlanError};

fn env_with(action: &str, args: &[(&str, &str)]) -> Envelope {
    let mut map = TextMap::new();
    for (k, v) in args {
        map.insert(k.to_string(), v.to_string());
    }
    Envelope {
        id: "demo".into(),
        action: action.into(),
        target: "host1".into(),
        args: map,
        source: None,
        ts: "1970-01-01T00:00:00Z".into(),
    }
}

fn texts(list: &[&str]) -> Vec<String> {
    list.iter().map(|s| s.to_string()).collect()
}

fn action(command: &[&str], args: Vec<(&str, ArgSpec)>) -> ActionConfig {
    let mut map = TextMap::new();
    for (k, v) in args {
        map.insert(k.to_string(), v);
    }
    ActionConfig {
        description: None,
        command: texts(command),
        run_as: Some("deploy".into()),
        timeout: None,
        working_dir: None,
        args: map,
        notify: NotifyMode::Always,
    }
}

fn text_at(t: &toml::Table, key: &str) -> Option<String> {
    t.get(key).map(|v| v.as_str().unwrap().to_string())
}

fn texts_at(t: &toml::Table, key: &str) -> Option<Vec<String>> {
    t.get(key).map(|v| {
        let list = v.as_array().unwrap();
        list.iter().map(|s| s.as_str().unwrap().to_string()).collect()
    })
}

fn spec_of(t: &toml::Table) -> ArgSpec {
    let required = t.get("required").is_some_and(|v| v.as_bool().unwrap());
    let argv = texts_at(t, "argv").unwrap_or_default();
    match text_at(t, "type").as_deref() {
        Some("sha") => ArgSpec::Sha {
            required,
            repo: text_at(t, "repo").unwrap(),
            ancestor_of: text_at(t, "ancestor_of").unwrap(),
            argv,
        },
        other => panic!("{other:?}"),
    }
}

fn action_of(text: &str) -> ActionConfig {
    let t: toml::Table = toml::from_str(text).unwrap();
    let mut args = TextMap::new();
    if let Some(declared) = t.get("args") {
        for (name, spec) in declared.as_table().unwrap() {
            args.insert(name.clone(), spec_of(spec.as_table().unwrap()));
        }
    }
    ActionConfig {
        description: text_at(&t, "description"),
        command: texts_at(&t, "command").unwrap(),
        run_as: text_at(&t, "run_as"),
        timeout: text_at(&t, "timeout"),
        working_dir: text_at(&t, "working_dir"),
        args,
        notify: NotifyMode::default(),
    }
}

const NO_ARGS: &str = r#"
    command = ["/usr/local/bin/deploy-site"]
    run_as  = "deploy"
    timeout = "5m"
"#;

const SHA_ARG: &str = r#"
    command = ["/usr/local/bin/deploy-docs"]
    run_as  = "deploy"

    [args.sha]
    type        = "sha"
    required    = false
    argv        = ["--sha", "${value}"]
    repo        = "/srv/www/docs"
    ancestor_of = "origin/main"
"#;

fn sha_spec() -> ArgSpec {
    ArgSpec::Sha {
        required: false,
        repo: "/srv/www/docs".into(),
        ancestor_of: "origin/main".into(),
        argv: texts(&["--sha", "${value}"]),
    }
}

#[test]
fn targets_all_and_exact() {
    let e = env_with("x", &[]);
    assert!(e.targets("host1"));
    assert!(!e.targets("host2"));
    let mut e2 = e.clone();
    e2.target = "all".into();
    assert!(e2.targets("host2"));
}

#[test]
fn no_args_action_plans_to_bare_command() {
    let a = action_of(NO_ARGS);
    let plan = a.plan(&env_with("deploy-site", &[])).unwrap();
    assert_eq!(plan.argv, ["/usr/local/bin/deploy-site"]);
    assert!(plan.sha_checks.is_empty());
}

#[test]
fn no_args_action_rejects_stray_args() {
    let a = action_of(NO_ARGS);
    let err = a.plan(&env_with("x", &[("sha", "abc1234")])).unwrap_err();
    assert_eq!(err, PlanError::UnknownArg("sha".into()));
}

#[test]
fn sha_arg_valid_appends_argv_and_defers_check() {
    let a = action_of(SHA_ARG);
    let plan = a.plan(&env_with("x", &[("sha", "0123abcdef")])).unwrap();
    assert_eq!(
        plan.argv,
        ["/usr/local/bin/deploy-docs", "--sha", "0123abcdef"]
    );
    assert_eq!(plan.sha_checks.len(), 1);
    assert_eq!(plan.sha_checks[0].ancestor_of, "origin/main");
}

#[test]
fn sha_arg_absent_is_allowed_when_optional() {
    let a = action_of(SHA_ARG);
    let plan = a.plan(&env_with("x", &[])).unwrap();
    assert_eq!(plan.argv, ["/usr/local/bin/deploy-docs"]);
}

#[test]
fn bad_sha_is_rejected() {
    let a = action_of(SHA_ARG);
    // Uppercase + too short + non-hex all fail.
    for bad in ["DEADBEEF", "xyz", "g0123ab", "0123AB"] {
        let err = a.plan(&env_with("x", &[("sha", bad)])).unwrap_err();
        assert!(
            matches!(err, PlanError::BadSha { .. }),
            "{bad} should be rejected"
        );
    }
}

#[test]
fn non_absolute_command_rejected() {
    let a = action_of(r#"command = ["deploy.sh"]"#);
    assert_eq!(
        a.plan(&env_with("x", &[])).unwrap_err(),
        PlanError::NonAbsoluteCommand("deploy.sh".into())
    );
}

#[test]
fn is_git_sha_bounds() {
    assert!(is_git_sha("abc1234")); // 7
    assert!(is_git_sha(&"a".repeat(40))); // 40
    assert!(!is_git_sha("abc123")); // 6
    assert!(!is_git_sha(&"a".repeat(41))); // 41
    assert!(!is_git_sha("ABC1234")); // uppercase
}

#[test]
fn git_sha_takes_no_other_characters() {
    assert!(!is_git_sha(""));
    assert!(!is_git_sha("abc123g"));
    assert!(!is_git_sha("-bc1234"));
    assert!(!is_git_sha("abc 234"));
    // Seven characters, more than seven bytes.
    assert!(!is_git_sha("abc123\u{e9}"));
    assert!(!is_git_sha("\u{ff11}bc1234"));
}

#[test]
fn default_target_is_every_host() {
    let mut e = env_with("x", &[]);
    e.target = default_target();
    assert_eq!(e.target, "all");
    assert!(e.targets("anything"));
    assert!(e.targets(""));
}

#[test]
fn notify_modes() {
    assert!(NotifyMode::Always.should_emit(true));
    assert!(NotifyMode::Always.should_emit(false));
    assert!(!NotifyMode::OnError.should_emit(true));
    assert!(NotifyMode::OnError.should_emit(false));
    assert!(!NotifyMode::Never.should_emit(true));
    assert!(!NotifyMode::Never.should_emit(false));
    assert_eq!(NotifyMode::default(), NotifyMode::Always);
}

#[test]
fn empty_command_is_rejected_first() {
    let a = action(&[], vec![]);
    assert_eq!(
        a.plan(&env_with("x", &[("stray", "1")])).unwrap_err(),
        PlanError::EmptyCommand
    );
    let b = action(&[""], vec![]);
    assert_eq!(
        b.plan(&env_with("x", &[])).unwrap_err(),
        PlanError::NonAbsoluteCommand("".into())
    );
}

fn string_spec(required: bool, pattern: &str) -> ArgSpec {
    ArgSpec::String {
        required,
        pattern: pattern.into(),
        argv: texts(&["--name=${value}", "plain", "${value}/${value}"]),
    }
}

#[test]
fn string_arg_is_matched_and_filled_in() {
    let a = action(&["/bin/run", "now"], vec![("name", string_spec(true, "^[a-z]+$"))]);
    let plan = a.plan(&env_with("x", &[("name", "alpha")])).unwrap();
    assert_eq!(
        plan.argv,
        ["/bin/run", "now", "--name=alpha", "plain", "alpha/alpha"]
    );
    assert!(plan.sha_checks.is_empty());
    assert_eq!(
        a.plan(&env_with("x", &[("name", "Alpha")])).unwrap_err(),
        PlanError::PatternMismatch {
            arg: "name".into(),
            value: "Alpha".into(),
            pattern: "^[a-z]+$".into(),
        }
    );
    assert_eq!(
        a.plan(&env_with("x", &[])).unwrap_err(),
        PlanError::MissingArg("name".into())
    );
    assert!(a.argv_required());
}

trait FirstArg {
    fn argv_required(&self) -> bool;
}

impl FirstArg for ActionConfig {
    fn argv_required(&self) -> bool {
        self.args.value_at(0).required() && self.args.value_at(0).argv().len() == 3
    }
}

#[test]
fn an_unanchored_pattern_matches_inside() {
    let a = action(&["/bin/run"], vec![("name", string_spec(false, "b+"))]);
    assert!(a.plan(&env_with("x", &[("name", "abbc")])).is_ok());
    assert!(a.plan(&env_with("x", &[("name", "ac")])).is_err());
    assert_eq!(match_pattern("b+", "abbc"), PatternOutcome::Match);
    assert_eq!(match_pattern("b+", "ac"), PatternOutcome::Mismatch);
}

#[test]
fn an_invalid_pattern_is_reported() {
    let a = action(&["/bin/run"], vec![("name", string_spec(false, "("))]);
    let expected = regex::Regex::new("(").unwrap_err().to_string();
    assert_eq!(
        a.plan(&env_with("x", &[("name", "v")])).unwrap_err(),
        PlanError::BadPattern {
            arg: "name".into(),
            pattern: "(".into(),
            message: expected.clone(),
        }
    );
    assert_eq!(match_pattern("(", "v"), PatternOutcome::Invalid(expected));
    // It is of no concern while the arg is absent.
    assert!(a.plan(&env_with("x", &[])).is_ok());
}

#[test]
fn plan_goes_by_the_outcomes_it_is_given() {
    let a = action(&["/bin/run"], vec![("name", string_spec(false, "^a$"))]);
    let env = env_with("x", &[("name", "b")]);
    assert!(a.plan_with(&env, &vec![PatternOutcome::Match]).is_ok());
    assert_eq!(
        a.plan_with(&env, &vec![PatternOutcome::Invalid("why".into())])
            .unwrap_err(),
        PlanError::BadPattern {
            arg: "name".into(),
            pattern: "^a$".into(),
            message: "why".into(),
        }
    );
    assert_eq!(a.match_args(&env), vec![PatternOutcome::Mismatch]);
}

#[test]
fn enum_arg_takes_its_values_only() {
    let spec = ArgSpec::Enum {
        required: false,
        values: texts(&["blue", "green"]),
        argv: texts(&["${value}"]),
    };
    assert_eq!(
        check_value("color", &spec, "red", &PatternOutcome::Match),
        Some(PlanError::NotInEnum {
            arg: "color".into(),
            value: "red".into(),
            values: texts(&["blue", "green"]),
        })
    );
    let a = action(&["/bin/run"], vec![("color", spec)]);
    let plan = a.plan(&env_with("x", &[("color", "green")])).unwrap();
    assert_eq!(plan.argv, ["/bin/run", "green"]);
    assert!(a.plan(&env_with("x", &[("color", "Green")])).is_err());
}

#[test]
fn args_are_taken_in_the_order_of_their_names() {
    let plain = |required: bool, token: &str| ArgSpec::Enum {
        required,
        values: texts(&["v"]),
        argv: texts(&[token]),
    };
    let a = action(
        &["/bin/run"],
        vec![
            ("zeta", plain(false, "z")),
            ("alpha", plain(false, "a")),
            ("mid", sha_spec()),
        ],
    );
    let env = env_with("x", &[("zeta", "v"), ("mid", "0123abc"), ("alpha", "v")]);
    let plan = a.plan(&env).unwrap();
    assert_eq!(plan.argv, ["/bin/run", "a", "--sha", "0123abc", "z"]);
    assert_eq!(plan.sha_checks.len(), 1);
    assert_eq!(plan.sha_checks[0].arg, "mid");
    assert_eq!(plan.sha_checks[0].value, "0123abc");
    assert_eq!(plan.sha_checks[0].repo, "/srv/www/docs");
    // The first of two faults is reported, and an unknown arg before any fault.
    let two = env_with("x", &[("zeta", "w"), ("alpha", "w")]);
    assert_eq!(
        a.plan(&two).unwrap_err(),
        PlanError::NotInEnum {
            arg: "alpha".into(),
            value: "w".into(),
            values: texts(&["v"]),
        }
    );
    let stray = env_with("x", &[("zz", "1"), ("beta", "1"), ("alpha", "w")]);
    assert_eq!(
        a.plan(&stray).unwrap_err(),
        PlanError::UnknownArg("beta".into())
    );
}

#[test]
fn values_never_become_more_than_one_token() {
    let a = action(&["/bin/run"], vec![("name", string_spec(false, ".*"))]);
    for value in ["a b; rm -rf /", "", "${value}", "--flag", "x\ny"] {
        let plan = a.plan(&env_with("x", &[("name", value)])).unwrap();
        assert_eq!(plan.argv.len(), 4);
        assert_eq!(plan.argv[1], format!("--name={value}"));
        assert_eq!(plan.argv[3], format!("{value}/{value}"));
    }
}

#[test]
fn errors_say_what_is_wrong() {
    let said = |e: PlanError| e.message();
    assert_eq!(said(PlanError::EmptyCommand), "command is empty");
    assert_eq!(
        said(PlanError::NonAbsoluteCommand("a\"b".into())),
        "command[0] must be an absolute path, got \"a\\\"b\""
    );
    assert_eq!(
        said(PlanError::UnknownArg("x".into())),
        "unknown arg \"x\" (not declared by this action)"
    );
    assert_eq!(
        said(PlanError::MissingArg("x".into())),
        "missing required arg \"x\""
    );
    assert_eq!(
        said(PlanError::PatternMismatch {
            arg: "x".into(),
            value: "v\n".into(),
            pattern: "^\\d$".into(),
        }),
        "arg \"x\": value \"v\\n\" does not match pattern \"^\\\\d$\""
    );
    assert_eq!(
        said(PlanError::NotInEnum {
            arg: "x".into(),
            value: "v".into(),
            values: texts(&["a", "b"]),
        }),
        "arg \"x\": value \"v\" is not one of [\"a\", \"b\"]"
    );
    for values in [vec![], vec!["a"], vec!["a\"", "\n", "\u{e9}"]] {
        let values = texts(&values);
        let expected = format!("arg \"x\": value \"v\" is not one of {values:?}");
        assert_eq!(
            said(PlanError::NotInEnum {
                arg: "x".into(),
                value: "v".into(),
                values,
            }),
            expected
        );
    }
    assert_eq!(
        said(PlanError::BadSha {
            arg: "x".into(),
            value: "v".into(),
        }),
        "arg \"x\": \"v\" is not a valid git sha"
    );
    assert_eq!(
        said(PlanError::BadPattern {
            arg: "x".into(),
            pattern: "(".into(),
            message: "unclosed".into(),
        }),
        "arg \"x\": invalid regex \"(\": unclosed"
    );
}
