use nipe::bootstrap::{Bootstrap, Phase, ATTEMPT_TIMEOUT_SECS, MAX_ATTEMPTS, PAUSE_SECS};
use nipe::control::rotation_plan;
use nipe::error::{ErrorKind, NipeError};
use nipe::host::{Command, Effect, Meaning, Reply};
use nipe::locate::PathProbe;
use nipe::plan::{Mode, PlanRun, Step, Tolerance};
use nipe::privilege::{AccountProbe, PrivilegeContext, Search};

fn ran(success: bool, stdout: &str, stderr: &str) -> Reply {
    Reply::Exited { success, stdout: stdout.to_string(), stderr: stderr.to_string() }
}

fn sleep_step(tolerance: Tolerance, context: &str) -> Step {
    Step {
        effect: Effect::Sleep { seconds: 0 },
        tolerance,
        kind: ErrorKind::Other,
        context: context.to_string(),
    }
}

#[test]
fn bounds_of_the_bootstrap_are_fixed() {
    assert_eq!(MAX_ATTEMPTS, 60);
    assert_eq!(ATTEMPT_TIMEOUT_SECS, 5);
    assert_eq!(PAUSE_SECS, 1);
}

#[test]
fn bootstrap_asks_through_the_proxy_and_waits_a_second() {
    let mut monitor = Bootstrap::new(9150);
    assert_eq!(
        monitor.current(),
        Some(Effect::Fetch {
            url: "https://check.torproject.org/api/ip".to_string(),
            proxy: "socks5h://127.0.0.1:9150".to_string(),
            timeout_secs: 5,
        })
    );
    monitor.record(&Reply::Body("{\"IsTor\":false}".to_string()));
    assert_eq!(monitor.current(), Some(Effect::Sleep { seconds: 1 }));
    assert_eq!(monitor.failed, 1);
    monitor.record(&Reply::Done);
    assert_eq!(monitor.phase, Phase::Checking);
    monitor.record(&Reply::Body("{\"IsTor\":true}".to_string()));
    assert!(monitor.is_finished());
    assert_eq!(monitor.phase, Phase::Complete);
    assert_eq!(monitor.current(), None);
    assert_eq!(monitor.verdict(), Ok(()));
}

#[test]
fn bootstrap_times_out_with_the_sixtieth_wait() {
    let mut monitor = Bootstrap::new(9050);
    let mut replies = 0;
    while !monitor.is_finished() {
        assert!(replies < 1000);
        if replies < 119 {
            assert_eq!(monitor.verdict(), Ok(()));
        }
        monitor.record(&Reply::Failed("timed out".to_string()));
        replies += 1;
    }
    assert_eq!(replies, 120);
    assert_eq!(monitor.failed, 60);
    assert_eq!(monitor.verdict(), Err(NipeError::BootstrapTimeout));
    monitor.record(&Reply::Body("{\"IsTor\":true}".to_string()));
    assert_eq!(monitor.phase, Phase::TimedOut);
}

#[test]
fn plan_halts_at_the_first_failure_that_counts() {
    let plan = vec![
        sleep_step(Tolerance::Everything, "a: "),
        sleep_step(Tolerance::ExitStatus, "b: "),
        sleep_step(Tolerance::Strict, "c: "),
        sleep_step(Tolerance::Strict, "d: "),
    ];
    let mut run = PlanRun::new(plan, Mode::HaltOnFailure);
    run.record(&Reply::Failed("one".to_string()));
    assert!(!run.is_finished());
    run.record(&ran(false, "", "two"));
    assert!(!run.is_finished());
    run.record(&ran(false, "out", "three"));
    assert!(run.is_finished());
    assert_eq!(run.current(), None);
    assert_eq!(run.verdict(), Err(NipeError::Other("c: three".to_string())));
    run.record(&Reply::Failed("late".to_string()));
    assert_eq!(run.verdict(), Err(NipeError::Other("c: three".to_string())));
}

#[test]
fn plan_that_runs_everything_keeps_the_first_failure() {
    let plan = vec![
        sleep_step(Tolerance::ExitStatus, "a: "),
        sleep_step(Tolerance::ExitStatus, "b: "),
        sleep_step(Tolerance::Strict, "c: "),
    ];
    let mut run = PlanRun::new(plan, Mode::RunEverything);
    run.record(&ran(false, "", "refused"));
    run.record(&Reply::Failed("gone".to_string()));
    assert!(!run.is_finished());
    run.record(&Reply::Failed("later".to_string()));
    assert!(run.is_finished());
    assert_eq!(run.verdict(), Err(NipeError::Other("b: gone".to_string())));
}

#[test]
fn empty_plan_is_finished_and_well() {
    let run = PlanRun::new(Vec::new(), Mode::HaltOnFailure);
    assert!(run.is_finished());
    assert_eq!(run.current(), None);
    assert_eq!(run.verdict(), Ok(()));
}

#[test]
fn step_failure_follows_the_tolerance() {
    let strict = Step::strict(Effect::Sleep { seconds: 0 }, ErrorKind::IoError, "ctx ");
    assert_eq!(strict.failure(&Reply::Done), None);
    assert_eq!(strict.failure(&Reply::Exists(false)), None);
    assert_eq!(strict.failure(&ran(true, "", "warning")), None);
    assert_eq!(strict.failure(&ran(false, "o", "e")), Some(NipeError::IoError("ctx e".to_string())));
    assert_eq!(
        strict.failure(&Reply::Failed("f".to_string())),
        Some(NipeError::IoError("ctx f".to_string()))
    );
    let plain = Step::plain(Effect::Sleep { seconds: 0 }, Tolerance::ExitStatus, ErrorKind::TorStopFailed);
    assert_eq!(plain.failure(&ran(false, "o", "e")), None);
    assert_eq!(
        plain.failure(&Reply::Failed("f".to_string())),
        Some(NipeError::TorStopFailed("f".to_string()))
    );
    let any = Step::plain(Effect::Sleep { seconds: 0 }, Tolerance::Everything, ErrorKind::Other);
    assert_eq!(any.failure(&Reply::Failed("f".to_string())), None);
}

#[test]
fn rotation_is_two_lines_on_one_connection() {
    let plan = rotation_plan(9051);
    let effects: Vec<Effect> = plan.iter().map(|s| s.effect.clone()).collect();
    assert_eq!(
        effects,
        vec![
            Effect::Connect { address: "127.0.0.1:9051".to_string() },
            Effect::Send { data: "AUTHENTICATE \"\"\r\n".to_string() },
            Effect::Send { data: "SIGNAL NEWNYM\r\n".to_string() },
        ]
    );
    let written: String = effects
        .iter()
        .filter_map(|e| match e {
            Effect::Send { data } => Some(data.clone()),
            _ => None,
        })
        .collect();
    assert_eq!(written.as_bytes(), b"AUTHENTICATE \"\"\r\nSIGNAL NEWNYM\r\n");
    assert_eq!(written.matches("\r\n").count(), 2);
    assert!(plan.iter().all(|s| s.tolerance == Tolerance::Strict));
    assert_eq!(rotation_plan(1)[0].effect, Effect::Connect { address: "127.0.0.1:1".to_string() });
}

#[test]
fn account_is_looked_for_by_priority() {
    let mut probe = AccountProbe::new();
    let query = |flag: &str, name: &str| {
        Some(Effect::Run {
            command: Command { program: "id".to_string(), args: vec![flag.to_string(), name.to_string()] },
            meaning: Meaning::Neutral,
        })
    };
    assert_eq!(probe.current(), query("-u", "debian-tor"));
    probe.record(&ran(false, "", "id: 'debian-tor': no such user"));
    assert_eq!(probe.current(), query("-u", "tor"));
    probe.record(&ran(true, "not a number", ""));
    assert_eq!(probe.current(), query("-u", "nobody"));
    probe.record(&ran(true, "65534\n", ""));
    assert_eq!(probe.search, Search::Group { uid: 65534 });
    assert_eq!(probe.current(), query("-g", "nobody"));
    probe.record(&ran(true, "65533\n", ""));
    assert!(probe.is_finished());
    assert_eq!(probe.found(), Some(PrivilegeContext { uid: 65534, gid: 65533 }));
    assert_eq!(probe.current(), None);
}

#[test]
fn account_is_missing_when_no_name_gives_two_numbers() {
    let mut probe = AccountProbe::new();
    let mut asked = 0;
    while !probe.is_finished() {
        asked += 1;
        match probe.search {
            Search::User => probe.record(&ran(true, "4294967296", "")),
            _ => probe.record(&ran(true, "", "")),
        }
    }
    assert_eq!(asked, 3);
    assert_eq!(probe.found(), None);
    assert_eq!(probe.search, Search::Missing);

    let mut probe = AccountProbe::new();
    probe.record(&ran(true, "1", ""));
    probe.record(&ran(false, "", "no group"));
    assert_eq!(probe.candidate, 1);
    assert_eq!(probe.search, Search::User);
    probe.record(&ran(true, "2", ""));
    probe.record(&Reply::Failed("cannot run id".to_string()));
    assert_eq!(probe.search, Search::Missing);
}

#[test]
fn first_existing_place_is_taken() {
    let mut probe = PathProbe::for_tor();
    let mut asked = Vec::new();
    while let Some(Effect::PathExists { path }) = probe.current() {
        probe.record(&Reply::Exists(path == "/usr/local/bin/tor" || path == "/opt/local/bin/tor"));
        asked.push(path);
    }
    assert_eq!(asked, vec!["/usr/bin/tor", "/usr/sbin/tor", "/usr/local/bin/tor"]);
    assert_eq!(probe.result(), "/usr/local/bin/tor");
}

#[test]
fn fallback_is_taken_when_no_place_exists() {
    let mut probe = PathProbe::for_tor();
    let mut asked = Vec::new();
    while let Some(Effect::PathExists { path }) = probe.current() {
        probe.record(&Reply::Failed("denied".to_string()));
        asked.push(path);
    }
    assert_eq!(
        asked,
        vec![
            "/usr/bin/tor",
            "/usr/sbin/tor",
            "/usr/local/bin/tor",
            "/opt/homebrew/bin/tor",
            "/opt/local/bin/tor"
        ]
    );
    assert_eq!(probe.result(), "tor");
    let probe = PathProbe::new(Vec::new(), "fallback".to_string());
    assert!(probe.is_finished());
    assert_eq!(probe.result(), "fallback");
}
