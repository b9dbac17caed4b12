use flotswarm::ingress::{
    any_outcome, default_branch, evaluate, push_outcome, release_outcome, screen, source_of,
    Admission, Dispatch, GithubPush, GithubRelease, HookConfig, Outcome, Repository, Trigger,
};
use flotswarm::request::{
    hook_id, resp, HookLoad, Next, Reply, Request, RoutingLoad,
};
use flotswarm::signature::{tag_of, verify_sig};
use flotswarm::stamp::{new_id, now_rfc3339, stamp_text};
use flotswarm::text_map::TextMap;
use flotswarm::NotifyEvent;
use hmac::{Hmac, Mac};
use serde_json::Value;
use sha2::Sha256;

fn sign(secret: &str, body: &[u8]) -> String {
    let mut mac = Hmac::<Sha256>::new_from_slice(secret.as_bytes()).unwrap();
    mac.update(body);
    format!("sha256={}", hex::encode(mac.finalize().into_bytes()))
}

fn hook() -> HookConfig {
    HookConfig {
        secret: "s3cr3t".into(),
        action: "deploy-site".into(),
        target: "host1".into(),
        branch: "main".into(),
        trigger: Trigger::Push,
        forward_sha: false,
    }
}

fn text_at(v: &Value, key: &str) -> Option<String> {
    v.get(key).and_then(Value::as_str).map(str::to_owned)
}

fn repository_of(v: &Value) -> Option<Repository> {
    v.get("repository").map(|r| Repository {
        full_name: text_at(r, "full_name"),
    })
}

fn read_push(body: &[u8]) -> Result<GithubPush, serde_json::Error> {
    let v: Value = serde_json::from_slice(body)?;
    Ok(GithubPush {
        git_ref: text_at(&v, "ref"),
        after: text_at(&v, "after"),
        repository: repository_of(&v),
    })
}

fn read_release(body: &[u8]) -> Result<GithubRelease, serde_json::Error> {
    let v: Value = serde_json::from_slice(body)?;
    Ok(GithubRelease {
        action: text_at(&v, "action"),
        repository: repository_of(&v),
    })
}

fn decide(
    hook: &HookConfig,
    event: Option<&str>,
    sig: Option<&str>,
    body: &[u8],
) -> Result<Outcome, serde_json::Error> {
    evaluate(hook, event, sig, body, read_push, read_release)
}

const PUSH_MAIN: &[u8] =
    br#"{"ref":"refs/heads/main","after":"0123abcdef","repository":{"full_name":"acme/site"}}"#;

#[test]
fn ping_needs_no_signature() {
    assert_eq!(
        decide(&hook(), Some("ping"), None, b"{}").unwrap(),
        Outcome::Pong
    );
}

#[test]
fn valid_push_dispatches() {
    let sig = sign("s3cr3t", PUSH_MAIN);
    let out = decide(&hook(), Some("push"), Some(&sig), PUSH_MAIN).unwrap();
    assert_eq!(
        out,
        Outcome::Dispatch(Dispatch {
            action: "deploy-site".into(),
            target: "host1".into(),
            args: TextMap::new(),
            source: Some("github:acme/site".into()),
        })
    );
}

#[test]
fn bad_signature_is_unauthorized() {
    let bad = sign("wrong-key", PUSH_MAIN);
    assert_eq!(
        decide(&hook(), Some("push"), Some(&bad), PUSH_MAIN).unwrap(),
        Outcome::Unauthorized
    );
    // Missing signature entirely.
    assert_eq!(
        decide(&hook(), Some("push"), None, PUSH_MAIN).unwrap(),
        Outcome::Unauthorized
    );
}

#[test]
fn other_branch_is_ignored() {
    let body = br#"{"ref":"refs/heads/dev","after":"x"}"#;
    let sig = sign("s3cr3t", body);
    assert_eq!(
        decide(&hook(), Some("push"), Some(&sig), body).unwrap(),
        Outcome::Ignored("branch not matched")
    );
}

#[test]
fn forward_sha_adds_arg() {
    let mut h = hook();
    h.action = "deploy-docs".into();
    h.forward_sha = true;
    let sig = sign("s3cr3t", PUSH_MAIN);
    let Outcome::Dispatch(d) = decide(&h, Some("push"), Some(&sig), PUSH_MAIN).unwrap() else {
        panic!("expected dispatch");
    };
    assert_eq!(d.args.get("sha").map(String::as_str), Some("0123abcdef"));
}

#[test]
fn tampered_body_fails_signature() {
    let sig = sign("s3cr3t", PUSH_MAIN);
    let tampered = br#"{"ref":"refs/heads/main","after":"deadbeef"}"#;
    assert_eq!(
        decide(&hook(), Some("push"), Some(&sig), tampered).unwrap(),
        Outcome::Unauthorized
    );
}

#[test]
fn release_published_dispatches() {
    let mut h = hook();
    h.trigger = Trigger::Release;
    let body = br#"{"action":"published","repository":{"full_name":"acme/site"}}"#;
    let sig = sign("s3cr3t", body);
    let out = decide(&h, Some("release"), Some(&sig), body).unwrap();
    assert_eq!(
        out,
        Outcome::Dispatch(Dispatch {
            action: "deploy-site".into(),
            target: "host1".into(),
            args: TextMap::new(),
            source: Some("github:acme/site".into()),
        })
    );
}

#[test]
fn release_edited_dispatches() {
    // A rolling "latest" release re-uploads assets -> action=edited.
    let mut h = hook();
    h.trigger = Trigger::Release;
    let body = br#"{"action":"edited","repository":{"full_name":"acme/site"}}"#;
    let sig = sign("s3cr3t", body);
    assert!(matches!(
        decide(&h, Some("release"), Some(&sig), body).unwrap(),
        Outcome::Dispatch(_)
    ));
}

#[test]
fn release_non_publish_action_ignored() {
    let mut h = hook();
    h.trigger = Trigger::Release;
    let body = br#"{"action":"deleted"}"#;
    let sig = sign("s3cr3t", body);
    assert_eq!(
        decide(&h, Some("release"), Some(&sig), body).unwrap(),
        Outcome::Ignored("release action ignored")
    );
    // A push event to a release-triggered hook is ignored too.
    assert_eq!(
        decide(
            &h,
            Some("push"),
            Some(&sign("s3cr3t", PUSH_MAIN)),
            PUSH_MAIN
        )
        .unwrap(),
        Outcome::Ignored("non-release event")
    );
}

#[test]
fn any_trigger_dispatches_signed_request() {
    let mut h = hook();
    h.trigger = Trigger::Any;
    let body = br#"{"ci":"done"}"#;
    let sig = sign("s3cr3t", body);
    // No event header at all — a bare CI POST.
    let out = decide(&h, None, Some(&sig), body).unwrap();
    assert!(matches!(out, Outcome::Dispatch(_)));
    // Still gated by the signature.
    assert_eq!(
        decide(&h, None, Some("sha256=bad"), body).unwrap(),
        Outcome::Unauthorized
    );
}

#[test]
fn an_unreadable_payload_is_an_error_only_where_it_is_needed() {
    let body = b"not json";
    let sig = sign("s3cr3t", body);
    assert!(decide(&hook(), Some("push"), Some(&sig), body).is_err());
    let mut h = hook();
    h.trigger = Trigger::Release;
    assert!(decide(&h, Some("release"), Some(&sig), body).is_err());
    h.trigger = Trigger::Any;
    let Ok(Outcome::Dispatch(d)) = decide(&h, Some("push"), Some(&sig), body) else {
        panic!("expected dispatch");
    };
    assert_eq!(d.source, None);
    // Unsigned, it is not even read.
    assert_eq!(
        decide(&hook(), Some("push"), None, body).unwrap(),
        Outcome::Unauthorized
    );
    assert_eq!(
        decide(&hook(), Some("issues"), Some(&sig), body).unwrap(),
        Outcome::Ignored("non-push event")
    );
}

#[test]
fn signatures_are_hex_in_either_case_behind_the_prefix() {
    let body = b"payload";
    let sig = sign("k", body);
    let digits = &sig["sha256=".len()..];
    assert!(verify_sig("k", body, &sig));
    assert!(verify_sig("k", body, &format!("sha256={}", digits.to_uppercase())));
    assert!(!verify_sig("k", body, digits));
    assert!(!verify_sig("k", body, &format!("SHA256={digits}")));
    assert!(!verify_sig("k", body, &format!("sha256={}", &digits[..62])));
    assert!(!verify_sig("k", body, &format!("sha256={}", &digits[..63])));
    assert!(!verify_sig("k", body, &format!("sha256={digits}00")));
    assert!(!verify_sig("k", body, &format!("sha256= {digits}")));
    assert!(!verify_sig("k", body, "sha256="));
    assert!(!verify_sig("k", body, ""));
    assert!(!verify_sig("K", body, &sig));
    // A secret of any length and any characters.
    for secret in ["", "\u{e9}\u{1f680}", &"x".repeat(300)] {
        assert!(verify_sig(secret, body, &sign(secret, body)));
    }
}

#[test]
fn hmac_of_a_known_vector() {
    let header = "sha256=f7bc83f430538424b13298e6aa6fb143ef4d59a14946175997479dbc2d1a3cd8";
    let body = b"The quick brown fox jumps over the lazy dog";
    assert!(verify_sig("key", body, header));
}

#[test]
fn tags_are_decoded() {
    assert_eq!(tag_of("sha256=00fFa9"), Some(vec![0x00, 0xff, 0xa9]));
    assert_eq!(tag_of("sha256="), Some(vec![]));
    assert_eq!(tag_of("sha256=0"), None);
    assert_eq!(tag_of("sha256=0g"), None);
    assert_eq!(tag_of("sha256=\u{e9}"), None);
    assert_eq!(tag_of("sha1=00"), None);
}

#[test]
fn screening_by_event_and_signature() {
    let settled = Admission::Settled;
    for trigger in [Trigger::Push, Trigger::Release, Trigger::Any] {
        for signed in [true, false] {
            assert_eq!(screen(trigger, Some("ping"), signed), settled(Outcome::Pong));
        }
        assert_eq!(screen(trigger, Some("push"), false), settled(Outcome::Unauthorized));
        assert_eq!(screen(trigger, None, false), settled(Outcome::Unauthorized));
    }
    assert_eq!(screen(Trigger::Push, Some("push"), true), Admission::Open);
    assert_eq!(
        screen(Trigger::Push, None, true),
        settled(Outcome::Ignored("non-push event"))
    );
    assert_eq!(screen(Trigger::Release, Some("release"), true), Admission::Open);
    assert_eq!(screen(Trigger::Any, Some("whatever"), true), Admission::Open);
    assert_eq!(Trigger::default(), Trigger::Push);
    assert_eq!(default_branch(), "main");
}

#[test]
fn sources_name_the_repository() {
    assert_eq!(source_of(None), None);
    assert_eq!(source_of(Some(Repository { full_name: None })), None);
    assert_eq!(
        source_of(Some(Repository {
            full_name: Some("a/b".into())
        })),
        Some("github:a/b".into())
    );
}

#[test]
fn forwarded_commits() {
    let push = |after: Option<&str>| GithubPush {
        git_ref: Some("refs/heads/main".into()),
        after: after.map(str::to_owned),
        repository: None,
    };
    let args = |h: &HookConfig, after: Option<&str>| match push_outcome(h, push(after)) {
        Outcome::Dispatch(d) => d.args.len(),
        other => panic!("{other:?}"),
    };
    let mut h = hook();
    assert_eq!(args(&h, Some("abc")), 0);
    h.forward_sha = true;
    assert_eq!(args(&h, Some("abc")), 1);
    assert_eq!(args(&h, Some("")), 0);
    assert_eq!(args(&h, None), 0);
    // A ref that only looks like the branch.
    let mut p = push(None);
    p.git_ref = Some("main".into());
    assert_eq!(push_outcome(&h, p), Outcome::Ignored("branch not matched"));
}

#[test]
fn release_actions() {
    let outcome = |action: Option<&str>| {
        release_outcome(
            &hook(),
            GithubRelease {
                action: action.map(str::to_owned),
                repository: None,
            },
        )
    };
    for action in ["created", "published", "released", "prereleased", "edited"] {
        assert!(matches!(outcome(Some(action)), Outcome::Dispatch(_)));
    }
    for action in [Some("deleted"), Some("unpublished"), Some("Created"), None] {
        assert_eq!(outcome(action), Outcome::Ignored("release action ignored"));
    }
    assert!(matches!(any_outcome(&hook(), None), Outcome::Dispatch(_)));
}

#[test]
fn hook_ids() {
    let id = |param: Option<&str>, path: &str| hook_id(param.map(str::to_owned), path);
    assert_eq!(id(Some("a"), "/hooks/b"), Some("a".into()));
    assert_eq!(id(None, "/hooks/b"), Some("b".into()));
    assert_eq!(id(None, "/hooks/b/c//"), Some("b/c".into()));
    assert_eq!(id(None, "/hooks///"), None);
    assert_eq!(id(None, "/hooks/"), None);
    assert_eq!(id(None, "/hook/b"), None);
    assert_eq!(id(Some(""), "/hooks/b"), Some("".into()));
}

#[test]
fn replies_are_lines_of_plain_text() {
    assert_eq!(
        resp(418, "short and stout"),
        Reply {
            status: 418,
            content_type: "text/plain".into(),
            body: "short and stout\n".into(),
        }
    );
}

fn request(event: Option<&str>, sig: Option<&str>, body: &[u8]) -> Request {
    Request {
        param: None,
        path: "/hooks/site".into(),
        event: event.map(str::to_owned),
        sig: sig.map(str::to_owned),
        body: body.to_vec(),
    }
}

fn reply_of(next: Next) -> (u16, String) {
    match next {
        Next::Reply(r) => (r.status, r.body),
        other => panic!("{other:?}"),
    }
}

#[test]
fn a_signed_push_goes_to_every_queue() {
    let mut h = hook();
    h.forward_sha = true;
    let sig = sign("s3cr3t", PUSH_MAIN);
    let Next::LoadHook(lookup) = request(Some("push"), Some(&sig), PUSH_MAIN).begin() else {
        panic!("expected a hook to load");
    };
    assert_eq!(lookup.parameter(), "/flotswarm/hooks/site");
    let Next::ReadPush(signed) = lookup.loaded(HookLoad::Found(h)) else {
        panic!("expected a push to read");
    };
    assert_eq!(signed.body(), PUSH_MAIN);
    let read = read_push(signed.body()).map_err(|e| e.to_string());
    let Next::Stamp(stamping) = signed.push_read(read) else {
        panic!("expected a dispatch");
    };
    let Next::LoadRouting(routing) = stamping.stamped("id-1".into(), "now".into()) else {
        panic!("expected the routing table");
    };
    let mut queues = TextMap::new();
    queues.insert("web2".to_string(), "https://q/2".to_string());
    queues.insert("web1".to_string(), "https://q/1".to_string());
    let Next::Send(first) = routing.loaded(RoutingLoad::Found(queues)) else {
        panic!("expected a send");
    };
    assert_eq!(first.url(), "https://q/1");
    assert_eq!(first.envelope().id, "id-1");
    assert_eq!(first.envelope().ts, "now");
    assert_eq!(first.envelope().action, "deploy-site");
    assert_eq!(first.envelope().target, "host1");
    assert_eq!(first.envelope().source, Some("github:acme/site".into()));
    assert_eq!(
        first.envelope().args.get("sha").map(String::as_str),
        Some("0123abcdef")
    );
    let Next::Send(second) = first.sent(Ok(())) else {
        panic!("expected another send");
    };
    assert_eq!(second.url(), "https://q/2");
    let Next::Announce(announcing) = second.sent(Ok(())) else {
        panic!("expected the announcement");
    };
    assert_eq!(
        announcing.event(),
        &NotifyEvent::Dispatch {
            hook: "site".into(),
            action: "deploy-site".into(),
            targets: vec!["web1".into(), "web2".into()],
            source: Some("github:acme/site".into()),
            outcome: "dispatched".into(),
        }
    );
    assert_eq!(
        reply_of(announcing.announced()),
        (202, "dispatched deploy-site to 2 queue(s)\n".into())
    );
}

fn lookup_of(request: Request) -> flotswarm::request::HookLookup {
    match request.begin() {
        Next::LoadHook(lookup) => lookup,
        other => panic!("{other:?}"),
    }
}

#[test]
fn requests_that_end_early() {
    let mut lost = request(None, None, b"");
    lost.path = "/".into();
    assert_eq!(reply_of(lost.begin()), (400, "missing hook id\n".into()));

    let load = |event: Option<&str>, sig: Option<&str>, body: &[u8], load: HookLoad| {
        lookup_of(request(event, sig, body)).loaded(load)
    };
    assert_eq!(
        reply_of(load(None, None, b"", HookLoad::Missing)),
        (404, "unknown hook\n".into())
    );
    let Next::Fail(why) = load(None, None, b"", HookLoad::Malformed("eof".into())) else {
        panic!("expected a failure");
    };
    assert_eq!(why, "hook site config is not valid JSON: eof");
    let Next::Fail(why) = load(None, None, b"", HookLoad::Failed("denied".into())) else {
        panic!("expected a failure");
    };
    assert_eq!(why, "denied");
    assert_eq!(
        reply_of(load(Some("ping"), None, b"", HookLoad::Found(hook()))),
        (200, "pong\n".into())
    );
    assert_eq!(
        reply_of(load(Some("push"), Some("sha256=00"), b"", HookLoad::Found(hook()))),
        (401, "bad signature\n".into())
    );
    let sig = sign("s3cr3t", b"{}");
    assert_eq!(
        reply_of(load(Some("issues"), Some(&sig), b"{}", HookLoad::Found(hook()))),
        (200, "non-push event\n".into())
    );
    let Next::ReadPush(signed) = load(Some("push"), Some(&sig), b"{}", HookLoad::Found(hook()))
    else {
        panic!("expected a push to read");
    };
    assert_eq!(
        reply_of(signed.push_read(Err("eof".into()))),
        (400, "bad payload: eof\n".into())
    );
}

#[test]
fn release_payloads_by_trigger() {
    let sig = sign("s3cr3t", b"{}");
    let signed = |trigger: Trigger| {
        let mut h = hook();
        h.trigger = trigger;
        match lookup_of(request(Some("release"), Some(&sig), b"{}")).loaded(HookLoad::Found(h)) {
            Next::ReadRelease(signed) => signed,
            other => panic!("{other:?}"),
        }
    };
    assert_eq!(
        reply_of(signed(Trigger::Release).release_read(Err("eof".into()))),
        (400, "bad payload: eof\n".into())
    );
    assert!(matches!(
        signed(Trigger::Any).release_read(Err("eof".into())),
        Next::Stamp(_)
    ));
    let deleted = GithubRelease {
        action: Some("deleted".into()),
        repository: None,
    };
    assert_eq!(
        reply_of(signed(Trigger::Release).release_read(Ok(deleted.clone()))),
        (200, "release action ignored\n".into())
    );
    assert!(matches!(
        signed(Trigger::Any).release_read(Ok(deleted)),
        Next::Stamp(_)
    ));
}

fn stamping() -> flotswarm::request::Stamping {
    let sig = sign("s3cr3t", b"");
    let mut h = hook();
    h.trigger = Trigger::Any;
    let Next::ReadRelease(signed) =
        lookup_of(request(None, Some(&sig), b"")).loaded(HookLoad::Found(h))
    else {
        panic!("expected a payload to read");
    };
    match signed.release_read(Err("empty".into())) {
        Next::Stamp(stamping) => stamping,
        other => panic!("{other:?}"),
    }
}

fn routing() -> flotswarm::request::Routing {
    match stamping().stamped("i".into(), "t".into()) {
        Next::LoadRouting(routing) => routing,
        other => panic!("{other:?}"),
    }
}

fn is_random_uuid(s: &str) -> bool {
    let groups: Vec<&str> = s.split('-').collect();
    let lens: Vec<usize> = groups.iter().map(|g| g.len()).collect();
    lens == [8, 4, 4, 4, 12]
        && groups[2].starts_with('4')
        && groups[3].starts_with(['8', '9', 'a', 'b'])
        && s.chars().all(|c| c == '-' || matches!(c, '0'..='9' | 'a'..='f'))
}

#[test]
fn a_time_that_cannot_be_written_is_stamped_empty() {
    let ts = "2024-02-29T12:00:00.5Z";
    assert_eq!(stamp_text(Some(ts.into())), ts);
    assert_eq!(stamp_text(None), "");
    assert!(!now_rfc3339().is_empty());
}

#[test]
fn messages_are_stamped_with_a_new_id_and_the_time() {
    let mut stamps = vec![];
    for _ in 0..2 {
        let Next::LoadRouting(routing) = stamping().stamp() else {
            panic!("expected the routing table");
        };
        let mut queues = TextMap::new();
        queues.insert("web1".to_string(), "https://q/1".to_string());
        let Next::Send(sending) = routing.loaded(RoutingLoad::Found(queues)) else {
            panic!("expected a send");
        };
        assert_eq!(sending.envelope().action, "deploy-site");
        stamps.push((sending.envelope().id.clone(), sending.envelope().ts.clone()));
    }
    for (id, ts) in &stamps {
        assert!(is_random_uuid(id), "{id}");
        assert_eq!(ts.as_bytes()[10], b'T');
        assert!(ts.ends_with('Z'));
        assert!(ts[..4].parse::<u32>().unwrap() >= 2024);
    }
    assert_ne!(stamps[0].0, stamps[1].0);
    assert!(is_random_uuid(&new_id()));
    assert!(now_rfc3339() >= stamps[1].1[..10].to_string());
}

#[test]
fn broadcasts_that_fail_or_reach_nobody() {
    let Next::Fail(why) = routing().loaded(RoutingLoad::Missing) else {
        panic!("expected a failure");
    };
    assert_eq!(why, "routing table missing");
    let Next::Fail(why) = routing().loaded(RoutingLoad::Failed("bad table".into())) else {
        panic!("expected a failure");
    };
    assert_eq!(why, "bad table");
    let Next::Announce(announcing) = routing().loaded(RoutingLoad::Found(TextMap::new())) else {
        panic!("expected the announcement");
    };
    let NotifyEvent::Dispatch { targets, .. } = announcing.event() else {
        panic!("expected a dispatch");
    };
    assert!(targets.is_empty());
    assert_eq!(
        reply_of(announcing.announced()),
        (202, "dispatched deploy-site to 0 queue(s)\n".into())
    );
    let mut queues = TextMap::new();
    queues.insert("web1".to_string(), "https://q/1".to_string());
    let Next::Send(sending) = routing().loaded(RoutingLoad::Found(queues)) else {
        panic!("expected a send");
    };
    let Next::Fail(why) = sending.sent(Err("throttled".into())) else {
        panic!("expected a failure");
    };
    assert_eq!(why, "send to web1 (https://q/1): throttled");
}
