use playpen::docker::create_args;
use playpen::docker::trim_str;
use playpen::docker::Phase;
use playpen::docker::RunResult;
use playpen::docker::SandboxError;
use playpen::docker::Session;
use playpen::docker::SessionAction;
use playpen::docker::SessionEvent;
use playpen::docker::EXEC_TIMEOUT_SECS;
use playpen::ExitStatus;

fn strings(parts: &[&str]) -> Vec<String> {
    parts.iter().map(|p| p.to_string()).collect()
}

fn pairs(parts: &[(&str, &str)]) -> Vec<(String, String)> {
    parts
        .iter()
        .map(|(k, v)| (k.to_string(), v.to_string()))
        .collect()
}

#[test]
fn create_args_spell_out_the_hardened_profile() {
    let argv = create_args(
        "/usr/local/bin/evaluate.sh",
        &strings(&["-h"]),
        &pairs(&[("PLAYPEN_ENV", "irc"), ("RUST_BACKTRACE", "1")]),
        "rust-playpen-stable",
    );
    assert_eq!(
        argv,
        strings(&[
            "create",
            "--cap-drop=ALL",
            "--memory=128m",
            "--net=none",
            "--pids-limit=20",
            "--security-opt=no-new-privileges",
            "--interactive",
            "--env=PLAYPEN_ENV=irc",
            "--env=RUST_BACKTRACE=1",
            "rust-playpen-stable",
            "/usr/local/bin/evaluate.sh",
            "-h",
        ])
    );
}

#[test]
fn trim_strips_surrounding_whitespace() {
    assert_eq!(trim_str("  abc123\n"), "abc123");
    assert_eq!(trim_str("abc"), "abc");
    assert_eq!(trim_str(" \t\r\n "), "");
    assert_eq!(trim_str(""), "");
    assert_eq!(trim_str("a b\n"), "a b");
}

/// Drives a session through a full successful run and counts removal
/// invocations along the way.
#[test]
fn successful_run_is_removed_exactly_once() {
    let mut s = Session::new("/usr/local/bin/compile.sh", &strings(&["--emit=llvm-ir"]), &pairs(&[]), "rust-playpen-stable");
    assert!(matches!(s.phase, Phase::Creating));
    let mut removes = 0usize;

    let act = s.step(SessionEvent::CreateDone {
        ok: true,
        stdout: "abc123\n".to_string(),
        detail: String::new(),
    });
    match &act {
        SessionAction::Attach(argv) => {
            assert_eq!(argv, &strings(&["start", "--attach", "--interactive", "abc123"]));
        }
        _ => panic!("expected the attached start"),
    }

    let act = s.step(SessionEvent::AttachDone { ok: true, detail: String::new() });
    assert!(matches!(act, SessionAction::WaitGuest(t) if t == EXEC_TIMEOUT_SECS));

    let act = s.step(SessionEvent::WaitDone {
        ok: true,
        exited: Some(ExitStatus::Exited(0)),
        detail: String::new(),
    });
    assert!(matches!(act, SessionAction::Collect));

    let mut output = vec![0xffu8];
    output.extend_from_slice(b"target triple = \"x86_64\"");
    let act = s.step(SessionEvent::Collected { output });
    match &act {
        SessionAction::RunRemove(argv) => {
            removes += 1;
            assert_eq!(argv, &strings(&["rm", "--force", "abc123"]));
        }
        _ => panic!("expected the removal"),
    }

    let act = s.step(SessionEvent::RemoveDone { ok: true });
    let result = match act {
        SessionAction::Finish(Ok(r)) => r,
        _ => panic!("expected a successful finish"),
    };
    assert!(matches!(s.phase, Phase::Done));
    assert_eq!(removes, 1);
    assert!(result.status.success());
    assert!(!result.timed_out);
    // The guest-side convention: diagnostics, a 0xFF separator, then
    // the program's own output.
    let mut split = result.output.splitn(2, |b| *b == 0xff);
    assert_eq!(split.next().unwrap(), b"");
    let program_output = String::from_utf8(split.next().unwrap().to_vec()).unwrap();
    assert!(program_output.contains("target triple"));
}

#[test]
fn timed_out_run_is_killed_flagged_and_marked() {
    let mut s = Session::new("/usr/local/bin/evaluate.sh", &strings(&[]), &pairs(&[]), "rust-playpen-stable");
    let mut removes = 0usize;

    s.step(SessionEvent::CreateDone {
        ok: true,
        stdout: "sleepy\n".to_string(),
        detail: String::new(),
    });
    s.step(SessionEvent::AttachDone { ok: true, detail: String::new() });

    // The timeout elapsed before the guest exited: the container is
    // killed at the runtime level.
    let act = s.step(SessionEvent::WaitDone { ok: true, exited: None, detail: String::new() });
    match &act {
        SessionAction::RunKill(argv) => assert_eq!(argv, &strings(&["kill", "sleepy"])),
        _ => panic!("expected the kill"),
    }

    let act = s.step(SessionEvent::KillDone { ok: true, detail: String::new() });
    assert!(matches!(act, SessionAction::WaitKilled));

    let act = s.step(SessionEvent::KillWaitDone {
        ok: true,
        status: ExitStatus::Signaled(9),
        detail: String::new(),
    });
    assert!(matches!(act, SessionAction::Collect));

    let act = s.step(SessionEvent::Collected { output: b"partial".to_vec() });
    if matches!(act, SessionAction::RunRemove(_)) {
        removes += 1;
    }
    let act = s.step(SessionEvent::RemoveDone { ok: true });
    let result: RunResult = match act {
        SessionAction::Finish(Ok(r)) => r,
        _ => panic!("expected a finish with the killed guest's status"),
    };
    assert_eq!(removes, 1);
    assert!(result.timed_out);
    assert!(!result.status.success());

    // The cache layer appends the marker, so the byte stream alone
    // shows the timeout.
    let finished = playpen::finish_output(result.output, result.timed_out);
    assert!(finished.ends_with(b"\ntimeout triggered!"));
    assert!(String::from_utf8_lossy(&finished).contains("timeout triggered"));
}

#[test]
fn failed_creation_removes_nothing() {
    let mut s = Session::new("cmd", &strings(&[]), &pairs(&[]), "rust-playpen-beta");
    let act = s.step(SessionEvent::CreateDone {
        ok: false,
        stdout: String::new(),
        detail: "no such image".to_string(),
    });
    match act {
        SessionAction::Finish(Err(SandboxError::Create(msg))) => {
            assert!(msg.starts_with("process failed: docker create "));
            assert!(msg.contains("rust-playpen-beta"));
            assert!(msg.ends_with("\nno such image"));
        }
        _ => panic!("expected a creation error"),
    }
    assert!(matches!(s.phase, Phase::Done));
}

#[test]
fn failed_run_still_removes_exactly_once() {
    let mut s = Session::new("cmd", &strings(&[]), &pairs(&[]), "rust-playpen-stable");
    s.step(SessionEvent::CreateDone {
        ok: true,
        stdout: "cid\n".to_string(),
        detail: String::new(),
    });
    let act = s.step(SessionEvent::AttachDone {
        ok: false,
        detail: "broken pipe".to_string(),
    });
    let mut removes = 0usize;
    match &act {
        SessionAction::RunRemove(argv) => {
            removes += 1;
            assert_eq!(argv, &strings(&["rm", "--force", "cid"]));
        }
        _ => panic!("expected the removal even though the run failed"),
    }
    let act = s.step(SessionEvent::RemoveDone { ok: true });
    match act {
        SessionAction::Finish(Err(SandboxError::Run(msg))) => assert_eq!(msg, "broken pipe"),
        _ => panic!("expected the run error to surface after cleanup"),
    }
    assert_eq!(removes, 1);
    assert!(matches!(s.phase, Phase::Done));
}

#[test]
fn failed_kill_surfaces_as_run_error_after_cleanup() {
    let mut s = Session::new("cmd", &strings(&[]), &pairs(&[]), "rust-playpen-stable");
    s.step(SessionEvent::CreateDone {
        ok: true,
        stdout: "cid".to_string(),
        detail: String::new(),
    });
    s.step(SessionEvent::AttachDone { ok: true, detail: String::new() });
    s.step(SessionEvent::WaitDone { ok: true, exited: None, detail: String::new() });
    let act = s.step(SessionEvent::KillDone {
        ok: false,
        detail: "kill refused".to_string(),
    });
    assert!(matches!(act, SessionAction::RunRemove(_)));
    let act = s.step(SessionEvent::RemoveDone { ok: false });
    match act {
        SessionAction::Finish(Err(SandboxError::Run(msg))) => {
            assert_eq!(msg, "process failed: docker kill cid\nkill refused");
        }
        _ => panic!("expected the kill failure to surface"),
    }
}
