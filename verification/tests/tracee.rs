use procactivity::run_tracee;
use procactivity::tracee::{
    parse_env_token, run_tracee_as, CanonicalPath, EnvChange, Stage, Tracee, TraceeAction,
    TraceeError, TraceeEvent,
};

fn words(words: &[&str]) -> Vec<String> {
    words.iter().map(|word| word.to_string()).collect()
}

fn env(token: &str) -> EnvChange {
    parse_env_token(&token.to_string())
}

/// Takes a process up to the search for its program.
fn resolve(tracee: &mut Tracee) -> TraceeAction {
    assert_eq!(tracee.step(TraceeEvent::Done), TraceeAction::CheckStop);
    assert_eq!(tracee.step(TraceeEvent::StopDisabled(true)), TraceeAction::FixAddresses);
    tracee.step(TraceeEvent::Done)
}

#[test]
fn environment_tokens() {
    assert_eq!(
        env("A=b"),
        EnvChange::Assign { key: "A".to_string(), value: "b".to_string() },
    );
    assert_eq!(
        env("A=b=c"),
        EnvChange::Assign { key: "A".to_string(), value: "b=c".to_string() },
    );
    assert_eq!(
        env("É="),
        EnvChange::Assign { key: "É".to_string(), value: String::new() },
    );
    assert_eq!(
        env("=x"),
        EnvChange::Assign { key: String::new(), value: "x".to_string() },
    );
    assert_eq!(env("HOME"), EnvChange::Remove { key: "HOME".to_string() });
    assert_eq!(env(""), EnvChange::Remove { key: String::new() });
}

#[test]
fn process_stops_before_it_becomes_the_program() {
    let mut tracee = run_tracee(words(&["ls", "-l", "/tmp"]));
    assert_eq!(tracee.stage(), Stage::Tracing);
    assert_eq!(tracee.step(TraceeEvent::Done), TraceeAction::CheckStop);
    assert_eq!(tracee.step(TraceeEvent::StopDisabled(false)), TraceeAction::RaiseStop);
    assert_eq!(tracee.step(TraceeEvent::Done), TraceeAction::FixAddresses);
    assert_eq!(tracee.step(TraceeEvent::Done), TraceeAction::Canonicalize);
    assert_eq!(tracee.binary(), "ls");
    let found = CanonicalPath::Unknown;
    assert_eq!(tracee.step(TraceeEvent::Canonical(found)), TraceeAction::Exec);
    let plan = tracee.plan();
    assert_eq!(plan.binary, "ls");
    assert_eq!(plan.args, words(&["-l", "/tmp"]));
    assert!(plan.env.is_empty());
    assert_eq!(plan.uid, None);
    assert_eq!(tracee.step(TraceeEvent::Failed), TraceeAction::Finish);
    assert_eq!(tracee.stage(), Stage::Over);
}

#[test]
fn program_is_run_by_its_canonical_path() {
    let mut tracee = run_tracee(words(&["./app"]));
    assert_eq!(resolve(&mut tracee), TraceeAction::Canonicalize);
    let found = CanonicalPath::Path("/home/app".to_string());
    assert_eq!(tracee.step(TraceeEvent::Canonical(found)), TraceeAction::Exec);
    assert_eq!(tracee.plan().binary, "/home/app");
    assert!(tracee.plan().args.is_empty());
}

#[test]
fn program_can_run_as_another_user() {
    for uid in [Some(1000), None] {
        let mut tracee = run_tracee_as(
            words(&["app"]),
            words(&["A=1", "B"]),
            Some("nobody".to_string()),
        );
        resolve(&mut tracee);
        let found = CanonicalPath::Unknown;
        assert_eq!(tracee.step(TraceeEvent::Canonical(found)), TraceeAction::FindUser);
        assert_eq!(tracee.username(), Some(&"nobody".to_string()));
        assert_eq!(tracee.step(TraceeEvent::User(uid)), TraceeAction::Exec);
        let plan = tracee.plan();
        assert_eq!(plan.uid, uid);
        assert_eq!(plan.env, vec![env("A=1"), env("B")]);
    }
}

#[test]
fn start_can_fail() {
    let mut tracee = run_tracee(words(&["app"]));
    assert_eq!(tracee.step(TraceeEvent::Failed), TraceeAction::Propagate);

    let mut tracee = run_tracee(words(&["app"]));
    tracee.step(TraceeEvent::Done);
    tracee.step(TraceeEvent::StopDisabled(false));
    let action = tracee.step(TraceeEvent::Failed);
    assert_eq!(action, TraceeAction::Fail(TraceeError::RaiseStop));

    let mut tracee = run_tracee(words(&["app"]));
    tracee.step(TraceeEvent::Done);
    tracee.step(TraceeEvent::StopDisabled(true));
    let action = tracee.step(TraceeEvent::Failed);
    assert_eq!(action, TraceeAction::Fail(TraceeError::Personality));

    let mut tracee = run_tracee(words(&[]));
    assert_eq!(resolve(&mut tracee), TraceeAction::Fail(TraceeError::NoCommand));

    let mut tracee = run_tracee(words(&["app"]));
    resolve(&mut tracee);
    let action = tracee.step(TraceeEvent::Canonical(CanonicalPath::NotText));
    assert_eq!(action, TraceeAction::Fail(TraceeError::InvalidBinaryPath));
    assert_eq!(tracee.stage(), Stage::Over);
}

#[test]
fn failures_to_start_say_why() {
    assert_eq!(TraceeError::RaiseStop.message(), "Unable to raise SIGSTOP");
    assert_eq!(TraceeError::Personality.message(), "Unable to set ADDR_NO_RANDOMIZE");
    assert_eq!(TraceeError::NoCommand.message(), "No command");
    assert_eq!(TraceeError::InvalidBinaryPath.message(), "Invalid binary path");
}
