use flotswarm::action::{ActionConfig, ArgSpec, ExecPlan, ShaCheck};
use flotswarm::agent::{attempt_tail, env_req, receive_count, tail_of, topic_of, Config, EnvError};
use flotswarm::command::{
    command_for, git_args, git_command, verify_sha, CheckCommand, CommandLine,
};
use flotswarm::delivery::{
    action_file, captured_result, is_plain_stem, receive, run_result, Checking, Ended, RunEnd, RunResult, Settlement, Step};
use flotswarm::text_map::TextMap;
use flotswarm::timeout::parse_timeout;
use flotswarm::{Envelope, NotifyEvent, NotifyMode};
use std::time::Duration;

#[test]
fn timeouts() {
    let parse = |s: Option<&str>| Duration::from_secs(parse_timeout(s));
    assert_eq!(parse(Some("30s")), Duration::from_secs(30));
    assert_eq!(parse(Some("5m")), Duration::from_secs(300));
    assert_eq!(parse(Some("1h")), Duration::from_secs(3600));
    assert_eq!(parse(Some("45")), Duration::from_secs(45));
    assert_eq!(parse(None), Duration::from_secs(600));
    assert_eq!(parse(Some("garbage")), Duration::from_secs(600));
}

#[test]
fn timeouts_at_the_edges() {
    assert_eq!(parse_timeout(Some("  7 m ")), 420);
    assert_eq!(parse_timeout(Some("\t+2h\n")), 7200);
    assert_eq!(parse_timeout(Some("0")), 0);
    assert_eq!(parse_timeout(Some("007s")), 7);
    for text in ["", " ", "s", "m", "-5s", "1.5h", "5ms", "1_000", "+", "++1", "5 5", "5M", "\u{665}"] {
        assert_eq!(parse_timeout(Some(text)), 600, "{text:?}");
    }
    assert_eq!(parse_timeout(Some("18446744073709551615")), u64::MAX);
    // Neither a number that does not fit nor a product that does not is a duration.
    assert_eq!(parse_timeout(Some("18446744073709551616")), 600);
    assert_eq!(parse_timeout(Some("18446744073709551615m")), 600);
    assert_eq!(parse_timeout(Some("307445734561825860m")), 18446744073709551600);
    assert_eq!(parse_timeout(Some("307445734561825861m")), 600);
    assert_eq!(parse_timeout(Some("5124095576030431h")), 18446744073709551600);
    assert_eq!(parse_timeout(Some("5124095576030432h")), 600);
}

#[test]
fn receive_counts() {
    assert_eq!(receive_count(None), 1);
    assert_eq!(receive_count(Some("3")), 3);
    assert_eq!(receive_count(Some("0")), 0);
    assert_eq!(receive_count(Some("4294967295")), u32::MAX);
    for text in ["", "x", "-1", " 3", "4294967296"] {
        assert_eq!(receive_count(Some(text)), 1, "{text:?}");
    }
}

fn std_tail(s: &str, n: usize) -> String {
    let lines: Vec<&str> = s.trim_end().lines().collect();
    let start = lines.len().saturating_sub(n);
    lines[start..].join("\n")
}

#[test]
fn tails() {
    assert_eq!(tail_of("a\nb\nc\n", 2), "b\nc");
    assert_eq!(tail_of("a\nb\nc\n\n  \n", 5), "a\nb\nc");
    assert_eq!(tail_of("one\r\ntwo\r\n", 2), "one\ntwo");
    assert_eq!(tail_of("a\n\nb", 2), "\nb");
    assert_eq!(tail_of("", 3), "");
    assert_eq!(tail_of(" \n ", 3), "");
    assert_eq!(tail_of("a\nb", 0), "");
    let texts = ["a\r\r\nb\rc\nd\r", "\n\n\nx", "\u{e9}\u{2028}y\u{85}\nz\u{3000}", "\r\n\r\n.", "x"];
    for text in texts {
        for n in 0..5 {
            assert_eq!(tail_of(text, n), std_tail(text, n), "{text:?} {n}");
        }
    }
}

#[test]
fn attempts_are_named_from_the_second_on() {
    assert_eq!(attempt_tail(0, "t".into()), "t");
    assert_eq!(attempt_tail(1, "t".into()), "t");
    assert_eq!(attempt_tail(2, "t".into()), "[attempt 2]\nt");
    assert_eq!(attempt_tail(4294967295, "".into()), "[attempt 4294967295]\n");
}

fn ok(s: &str) -> Result<String, String> {
    Ok(s.to_string())
}

#[test]
fn settings_from_the_environment() {
    let config = Config::from_env(ok("web1"), ok("https://q"), None, None, None).unwrap();
    assert_eq!(
        config,
        Config {
            host: "web1".into(),
            queue_url: "https://q".into(),
            actions_dir: "/etc/flotswarm/actions.d".into(),
            dry_run: false,
            sns_topic_arn: None,
        }
    );
    let with = |dry: &str, topic: &str| {
        Config::from_env(
            ok("h"),
            ok("q"),
            Some("/tmp/a".into()),
            Some(dry.into()),
            Some(topic.into()),
        )
        .unwrap()
    };
    assert_eq!(with("1", "arn").actions_dir, "/tmp/a");
    assert_eq!(with("1", "arn").sns_topic_arn, Some("arn".into()));
    assert_eq!(with("1", "").sns_topic_arn, None);
    for (value, on) in [("1", true), ("true", true), ("no", true), ("00", true), ("0", false), ("", false)] {
        assert_eq!(with(value, "").dry_run, on, "{value:?}");
    }
    assert_eq!(topic_of(Some("".into())), None);
}

#[test]
fn missing_settings() {
    let gone = || Err("not present".to_string());
    let error = |name: &str| EnvError {
        context: format!("missing required env {name}"),
        cause: "not present".into(),
    };
    assert_eq!(
        Config::from_env(gone(), gone(), None, None, None).unwrap_err(),
        error("FLOTSWARM_HOST")
    );
    assert_eq!(
        Config::from_env(ok("h"), gone(), None, None, None).unwrap_err(),
        error("FLOTSWARM_QUEUE_URL")
    );
    assert_eq!(env_req("X", gone()).unwrap_err(), error("X"));
    assert_eq!(env_req("X", ok("v")).unwrap(), "v");
}

fn texts(list: &[&str]) -> Vec<String> {
    list.iter().map(|s| s.to_string()).collect()
}

fn action(checks: usize) -> ActionConfig {
    let mut args = TextMap::new();
    for name in ["first", "second"].iter().take(checks) {
        args.insert(
            name.to_string(),
            ArgSpec::Sha {
                required: true,
                repo: format!("/srv/{name}"),
                ancestor_of: "origin/main".into(),
                argv: texts(&["${value}"]),
            },
        );
    }
    ActionConfig {
        description: None,
        command: texts(&["/bin/deploy", "--now"]),
        run_as: None,
        timeout: Some("2m".into()),
        working_dir: Some("/srv".into()),
        args,
        notify: NotifyMode::Always,
    }
}

fn envelope(checks: usize) -> Envelope {
    let mut args = TextMap::new();
    for name in ["first", "second"].iter().take(checks) {
        args.insert(name.to_string(), "0123abc".to_string());
    }
    Envelope {
        id: "id-1".into(),
        action: "deploy".into(),
        target: "web1".into(),
        args,
        source: Some("github:acme/site".into()),
        ts: "now".into(),
    }
}

fn config(dry_run: bool) -> Config {
    Config {
        host: "web1".into(),
        queue_url: "https://q".into(),
        actions_dir: "/etc/a".into(),
        dry_run,
        sns_topic_arn: None,
    }
}

#[test]
fn commands() {
    let plan = ExecPlan {
        argv: texts(&["/bin/deploy", "--now", "a b"]),
        sha_checks: vec![],
    };
    let mut a = action(0);
    assert_eq!(
        command_for(&a, &plan),
        CommandLine {
            program: "/bin/deploy".into(),
            args: texts(&["--now", "a b"]),
            working_dir: Some("/srv".into()),
            timeout_secs: 120,
        }
    );
    a.run_as = Some("deploy".into());
    a.working_dir = None;
    a.timeout = Some("18446744073709551615h".into());
    assert_eq!(
        command_for(&a, &plan),
        CommandLine {
            program: "sudo".into(),
            args: texts(&["-u", "deploy", "--", "/bin/deploy", "--now", "a b"]),
            working_dir: None,
            timeout_secs: 600,
        }
    );
}

#[test]
fn repo_state_checks() {
    let check = ShaCheck {
        arg: "sha".into(),
        value: "0123abc".into(),
        repo: "/srv/www".into(),
        ancestor_of: "origin/main".into(),
    };
    assert_eq!(
        git_args(&check),
        ["-C", "/srv/www", "merge-base", "--is-ancestor", "0123abc", "origin/main"]
    );
    assert_eq!(
        git_command(&check),
        CheckCommand {
            program: "git".into(),
            args: git_args(&check),
        }
    );
    assert_eq!(verify_sha(&check, Ok(true)), Ok(()));
    assert_eq!(
        verify_sha(&check, Ok(false)),
        Err("0123abc is not an ancestor of origin/main in /srv/www".into())
    );
    assert_eq!(
        verify_sha(&check, Err("no git".into())),
        Err("running git in /srv/www: no git".into())
    );
}

fn settled(step: Step) -> Settlement {
    match step {
        Step::Settle(s) => s,
        other => panic!("{other:?}"),
    }
}

fn parsed(config: &Config, envelope: Envelope, action: ActionConfig) -> Step {
    let Step::ParseEnvelope(received) = receive(Some("text".into())) else {
        panic!("expected a text to parse");
    };
    assert_eq!(received.text(), "text");
    let Step::FindAction(addressed) = received.parsed(config, Ok(envelope)) else {
        panic!("expected a file to find");
    };
    assert_eq!(addressed.path(), "/etc/a/deploy.toml");
    let Step::ReadAction(allowed) = addressed.located(true) else {
        panic!("expected a file to read");
    };
    assert_eq!(allowed.path(), "/etc/a/deploy.toml");
    let Step::ParseAction(loaded) = allowed.read(Ok("command = []".into())) else {
        panic!("expected a file to parse");
    };
    assert_eq!(loaded.text(), "command = []");
    loaded.parsed(config, Ok(action))
}

fn checking(step: Step) -> Checking {
    match step {
        Step::CheckSha(c) => c,
        other => panic!("{other:?}"),
    }
}

fn ended(step: Step) -> Ended {
    match step {
        Step::Time(e) => e,
        other => panic!("{other:?}"),
    }
}

#[test]
fn a_message_is_checked_run_and_published() {
    let cfg = config(false);
    let first = checking(parsed(&cfg, envelope(2), action(2)));
    assert_eq!(first.check().repo, "/srv/first");
    let second = checking(first.checked(Ok(true)));
    assert_eq!(second.check().repo, "/srv/second");
    let Step::Run(ready) = second.checked(Ok(true)) else {
        panic!("expected a command");
    };
    assert_eq!(ready.command().program, "/bin/deploy");
    assert_eq!(ready.command().args, ["--now", "0123abc", "0123abc"]);
    let run = run_result(true, Some(0), "out\n", "err\n");
    assert_eq!(
        run,
        RunResult {
            ok: true,
            exit_code: Some(0),
            output: "out\nerr\n".into(),
        }
    );
    let Step::Publish(publishing) = ended(ready.ran(RunEnd::Exited(run))).timed(&cfg, Some("2"), 3, 500) else {
        panic!("expected an event");
    };
    assert_eq!(
        publishing.event(),
        &NotifyEvent::Outcome {
            host: "web1".into(),
            action: "deploy".into(),
            source: Some("github:acme/site".into()),
            id: "id-1".into(),
            ok: true,
            exit_code: Some(0),
            duration_secs: 3,
            duration_nanos: 500,
            tail: "[attempt 2]\nout\nerr".into(),
        }
    );
    let end = settled(publishing.published());
    assert_eq!(
        end,
        Settlement::Done {
            action: "deploy".into(),
            id: "id-1".into(),
        }
    );
    assert!(end.deletes());
}

#[test]
fn the_last_lines_of_the_output_are_published() {
    let cfg = config(false);
    let Step::Run(ready) = parsed(&cfg, envelope(0), action(0)) else {
        panic!("expected a command");
    };
    let lines: Vec<String> = (1..=20).map(|i| format!("line {i}")).collect();
    let run = run_result(true, Some(0), &lines.join("\n"), "\n");
    let Step::Publish(publishing) = ended(ready.ran(RunEnd::Exited(run))).timed(&cfg, None, 0, 1)
    else {
        panic!("expected an event");
    };
    let NotifyEvent::Outcome { tail, .. } = publishing.event() else {
        panic!("expected an outcome");
    };
    assert_eq!(*tail, lines[5..].join("\n"));
}

#[test]
fn output_is_decoded_with_replacements() {
    let result = captured_result(false, None, b"caf\xc3\xa9\n", b"\xff!");
    assert_eq!(
        result,
        RunResult {
            ok: false,
            exit_code: None,
            output: "caf\u{e9}\n\u{fffd}!".into(),
        }
    );
}

#[test]
fn a_failed_check_ends_the_execution() {
    let cfg = config(false);
    let first = checking(parsed(&cfg, envelope(2), action(2)));
    let said = "sha check for arg \"first\": 0123abc is not an ancestor of origin/main in /srv/first";
    let Step::Publish(publishing) = ended(first.checked(Ok(false))).timed(&cfg, None, 0, 0) else {
        panic!("expected an event");
    };
    let NotifyEvent::Outcome { ok, exit_code, tail, .. } = publishing.event() else {
        panic!("expected an outcome");
    };
    assert!(!ok);
    assert_eq!(*exit_code, None);
    assert_eq!(tail, said);
    let end = settled(publishing.published());
    assert_eq!(end, Settlement::Failed(said.into()));
    assert!(!end.deletes());
}

#[test]
fn notifications_follow_the_mode_and_change_nothing() {
    let cfg = config(false);
    for (mode, ok, published) in [
        (NotifyMode::Always, true, true),
        (NotifyMode::Always, false, true),
        (NotifyMode::OnError, true, false),
        (NotifyMode::OnError, false, true),
        (NotifyMode::Never, true, false),
        (NotifyMode::Never, false, false),
    ] {
        let mut a = action(0);
        a.notify = mode;
        let Step::Run(ready) = parsed(&cfg, envelope(0), a) else {
            panic!("expected a command");
        };
        let run = run_result(ok, Some(if ok { 0 } else { 3 }), "", "");
        let step = ended(ready.ran(RunEnd::Exited(run))).timed(&cfg, None, 1, 0);
        let end = match step {
            Step::Publish(p) => {
                assert!(published);
                settled(p.published())
            }
            other => {
                assert!(!published);
                settled(other)
            }
        };
        assert_eq!(end.deletes(), ok);
        if !ok {
            assert_eq!(end, Settlement::Failed("action deploy exited non-zero".into()));
        }
    }
}

#[test]
fn a_command_that_does_not_exit_fails() {
    let cfg = config(false);
    let failure = |timeout: Option<&str>, end: RunEnd| {
        let mut a = action(0);
        a.notify = NotifyMode::Never;
        a.timeout = timeout.map(str::to_owned);
        let Step::Run(ready) = parsed(&cfg, envelope(0), a) else {
            panic!("expected a command");
        };
        settled(ended(ready.ran(end)).timed(&cfg, None, 0, 0))
    };
    let failed = |text: &str| Settlement::Failed(text.into());
    assert_eq!(
        failure(None, RunEnd::NotRun("no such file".into())),
        failed("spawning action: no such file")
    );
    assert_eq!(
        failure(None, RunEnd::TimedOut),
        failed("action timed out after 600s")
    );
    assert_eq!(
        failure(Some("2m"), RunEnd::TimedOut),
        failed("action timed out after 120s")
    );
    let zero = format!("action timed out after {:?}", Duration::from_secs(0));
    assert_eq!(failure(Some("0s"), RunEnd::TimedOut), failed(&zero));
}

#[test]
fn only_files_of_the_allowlist_are_actions() {
    let cfg = config(false);
    for name in ["../x", "/tmp/x", "", "a/b", "deploy/", "/", "./deploy", ".."] {
        let mut e = envelope(0);
        e.action = name.into();
        let Step::ParseEnvelope(received) = receive(Some("text".into())) else {
            panic!("expected a text to parse");
        };
        let Step::FindAction(addressed) = received.parsed(&cfg, Ok(e)) else {
            panic!("expected a file to find");
        };
        let path = addressed.path().clone();
        let step = addressed.located(true);
        if is_plain_stem(name) {
            assert_eq!(name, "..");
            assert_eq!(path, "/etc/a/...toml");
            assert!(matches!(step, Step::ReadAction(_)));
        } else {
            let end = settled(step);
            assert!(end.deletes());
            assert_eq!(
                end,
                Settlement::NotAllowed {
                    action: name.into(),
                    path,
                }
            );
        }
    }
}

#[test]
fn action_files_are_entries_of_their_directory() {
    for dir in ["/etc/flotswarm/actions.d", "/etc/a/", "/", "", "rel", "\u{e9}/"] {
        for name in ["deploy", "deploy-site", "..", ".", "a b", "\u{e9}", "x.toml"] {
            assert!(is_plain_stem(name));
            let path = std::path::Path::new(dir).join(format!("{name}.toml"));
            assert_eq!(action_file(dir, name), path.display().to_string());
            assert_eq!(path.file_stem().and_then(|s| s.to_str()), Some(name));
        }
    }
}

#[test]
fn a_dry_run_reports_and_stops() {
    let mut a = action(2);
    a.run_as = Some("deploy".into());
    let end = settled(parsed(&config(true), envelope(2), a));
    assert_eq!(
        end,
        Settlement::DryRun {
            action: "deploy".into(),
            argv: texts(&["/bin/deploy", "--now", "0123abc", "0123abc"]),
            run_as: Some("deploy".into()),
            checks: 2,
        }
    );
    assert!(end.deletes());
}

#[test]
fn messages_that_end_before_the_execution() {
    let cfg = config(false);
    let failed = |text: &str| Settlement::Failed(text.into());
    assert_eq!(settled(receive(None)), failed("message has no body"));

    let received = || match receive(Some("x".into())) {
        Step::ParseEnvelope(r) => r,
        other => panic!("{other:?}"),
    };
    assert_eq!(
        settled(received().parsed(&cfg, Err("eof".into()))),
        failed("parse envelope: eof")
    );
    let mut foreign = envelope(0);
    foreign.target = "web2".into();
    let end = settled(received().parsed(&cfg, Ok(foreign)));
    assert_eq!(
        end,
        Settlement::Skipped {
            id: "id-1".into(),
            target: "web2".into(),
        }
    );
    assert!(end.deletes());

    let addressed = || match received().parsed(&cfg, Ok(envelope(0))) {
        Step::FindAction(a) => a,
        other => panic!("{other:?}"),
    };
    let end = settled(addressed().located(false));
    assert_eq!(
        end,
        Settlement::NotAllowed {
            action: "deploy".into(),
            path: "/etc/a/deploy.toml".into(),
        }
    );
    assert!(end.deletes());
    let Step::ReadAction(allowed) = addressed().located(true) else {
        panic!("expected a file to read");
    };
    assert_eq!(settled(allowed.read(Err("denied".into()))), failed("read /etc/a/deploy.toml: denied"));
    let Step::ReadAction(allowed) = addressed().located(true) else {
        panic!("expected a file to read");
    };
    let Step::ParseAction(loaded) = allowed.read(Ok("".into())) else {
        panic!("expected a file to parse");
    };
    assert_eq!(
        settled(loaded.parsed(&cfg, Err("missing field".into()))),
        failed("parse /etc/a/deploy.toml: missing field")
    );
    assert_eq!(
        settled(parsed(&cfg, envelope(0), action(1))),
        failed("validate message args against action schema: missing required arg \"first\"")
    );
    assert_eq!(
        settled(parsed(&config(true), envelope(1), action(0))),
        failed(
            "validate message args against action schema: \
             unknown arg \"first\" (not declared by this action)"
        )
    );
}
