use ohmybug_bridge::bridge::{Bridge, Step};
use ohmybug_bridge::invoke::ProcessOutput;
use ohmybug_bridge::locate::Candidate;
use ohmybug_bridge::normalize::ScanResult;
use ohmybug_bridge::protocol::{Action, Event, Reply, Request};
use ohmybug_bridge::summary::ScanSummary;
use std::path::PathBuf;

const HOME: &str = "/home/alice";

fn under_home() -> Candidate {
    Candidate::UnderHome { home: PathBuf::from(HOME), relative: "bin/ohmybug".to_string() }
}

fn local() -> Candidate {
    Candidate::Installed { path: "/usr/local/bin/ohmybug".to_string() }
}

fn homebrew() -> Candidate {
    Candidate::Installed { path: "/opt/homebrew/bin/ohmybug".to_string() }
}

fn command() -> Candidate {
    Candidate::Command { name: "ohmybug".to_string() }
}

fn strings(items: &[&str]) -> Vec<String> {
    items.iter().map(|item| item.to_string()).collect()
}

fn probe(candidate: Candidate) -> Action {
    Action::Probe { candidate }
}

fn execute(program: Candidate, arguments: &[&str]) -> Action {
    Action::Execute { program, arguments: strings(arguments) }
}

fn exited(success: bool, stdout: &str, stderr: &str) -> Event {
    Event::Exited {
        output: ProcessOutput {
            success,
            stdout: stdout.to_string(),
            stderr: stderr.to_string(),
        },
    }
}

fn spawn_failed(error: &str) -> Event {
    Event::SpawnFailed { error: error.to_string() }
}

fn scan(auto_fix: bool) -> Request {
    Request::Scan { path: "/work/app".to_string(), auto_fix }
}

/// A machine to run a request against: which candidates exist, which pass
/// the health check, and how a run for the request ends.
struct Machine {
    present: Vec<Candidate>,
    healthy: Vec<Candidate>,
    unstartable: Vec<Candidate>,
    run: fn() -> Event,
}

/// Carries the request out against the machine; gives the reply and the
/// actions that were asked for, in order.
fn drive(request: Request, home: Option<&str>, machine: &Machine) -> (Reply, Vec<Action>) {
    let mut asked = Vec::new();
    let mut step = Bridge::begin(request, home.map(PathBuf::from));
    let mut checked: Vec<Candidate> = Vec::new();
    loop {
        match step {
            Step::Done { reply } => return (reply, asked),
            Step::Next { bridge, action } => {
                let event = match &action {
                    Action::Probe { candidate } => {
                        Event::Probed { exists: machine.present.contains(candidate) }
                    }
                    Action::Execute { program, arguments } => {
                        let health_check =
                            arguments == &strings(&["--version"]) && !checked.contains(program);
                        if health_check {
                            checked.push(program.clone());
                            if machine.unstartable.contains(program) {
                                spawn_failed("Permission denied (os error 13)")
                            } else {
                                exited(machine.healthy.contains(program), "ohmybug 1.0\n", "")
                            }
                        } else {
                            (machine.run)()
                        }
                    }
                };
                asked.push(action);
                assert!(asked.len() <= 10, "a request takes at most ten actions");
                step = bridge.step(event);
            }
        }
    }
}

fn ok_run() -> Event {
    exited(true, "{\"summary\":{\"total\":5,\"critical\":1,\"high\":2}}", "")
}

fn expect_next(step: Step) -> (Bridge, Action) {
    match step {
        Step::Next { bridge, action } => (bridge, action),
        Step::Done { reply } => panic!("answered too early: {:?}", reply),
    }
}

fn expect_done(step: Step) -> Reply {
    match step {
        Step::Done { reply } => reply,
        Step::Next { action, .. } => panic!("not answered, asks for {:?}", action),
    }
}

#[test]
fn scan_runs_the_candidate_under_home_when_it_is_healthy() {
    let machine = Machine {
        present: vec![under_home(), local(), homebrew()],
        healthy: vec![under_home(), local(), homebrew(), command()],
        unstartable: vec![],
        run: ok_run,
    };
    let (reply, asked) = drive(scan(false), Some(HOME), &machine);
    assert_eq!(
        asked,
        vec![
            probe(under_home()),
            execute(under_home(), &["--version"]),
            execute(under_home(), &["check", "/work/app", "--format", "json"]),
        ]
    );
    assert_eq!(
        reply,
        Reply::Scan(Ok(ScanResult {
            success: true,
            output: "{\"summary\":{\"total\":5,\"critical\":1,\"high\":2}}".to_string(),
            summary: Some(ScanSummary { total: 5, critical: 1, high: 2, medium: 0, low: 0 }),
        }))
    );
}

#[test]
fn missing_candidates_are_passed_over_without_a_health_check() {
    let machine = Machine {
        present: vec![homebrew()],
        healthy: vec![under_home(), local(), homebrew(), command()],
        unstartable: vec![],
        run: ok_run,
    };
    let (_, asked) = drive(scan(true), Some(HOME), &machine);
    assert_eq!(
        asked,
        vec![
            probe(under_home()),
            probe(local()),
            probe(homebrew()),
            execute(homebrew(), &["--version"]),
            execute(homebrew(), &["check", "/work/app", "--format", "json", "--fix"]),
        ]
    );
}

#[test]
fn command_name_is_tried_without_asking_for_it_on_disk() {
    let machine = Machine {
        present: vec![],
        healthy: vec![command()],
        unstartable: vec![],
        run: ok_run,
    };
    let (reply, asked) = drive(Request::Fix { path: "p".to_string() }, Some(HOME), &machine);
    assert_eq!(
        asked,
        vec![
            probe(under_home()),
            probe(local()),
            probe(homebrew()),
            execute(command(), &["--version"]),
            execute(command(), &["check", "p", "--fix", "--format", "json"]),
        ]
    );
    assert!(matches!(reply, Reply::Scan(Ok(_))));
}

#[test]
fn unknown_home_directory_leaves_its_candidate_out() {
    let machine = Machine {
        present: vec![under_home(), local()],
        healthy: vec![under_home(), local()],
        unstartable: vec![],
        run: ok_run,
    };
    let (_, asked) = drive(scan(false), None, &machine);
    assert_eq!(
        asked,
        vec![
            probe(local()),
            execute(local(), &["--version"]),
            execute(local(), &["check", "/work/app", "--format", "json"]),
        ]
    );
}

#[test]
fn candidate_that_fails_its_health_check_is_passed_over() {
    let machine = Machine {
        present: vec![under_home(), local(), homebrew()],
        healthy: vec![homebrew(), command()],
        unstartable: vec![local()],
        run: ok_run,
    };
    let (_, asked) = drive(scan(false), Some(HOME), &machine);
    assert_eq!(
        asked,
        vec![
            probe(under_home()),
            execute(under_home(), &["--version"]),
            probe(local()),
            execute(local(), &["--version"]),
            probe(homebrew()),
            execute(homebrew(), &["--version"]),
            execute(homebrew(), &["check", "/work/app", "--format", "json"]),
        ]
    );
}

#[test]
fn nothing_usable_is_not_found() {
    let machine = Machine {
        present: vec![under_home(), local(), homebrew()],
        healthy: vec![],
        unstartable: vec![command()],
        run: ok_run,
    };
    let not_found = "ohmybug CLI not found".to_string();
    let (reply, asked) = drive(scan(false), Some(HOME), &machine);
    assert_eq!(reply, Reply::Scan(Err(not_found.clone())));
    assert_eq!(asked.len(), 7);
    assert_eq!(asked[6], execute(command(), &["--version"]));
    let (reply, _) = drive(Request::Fix { path: "p".to_string() }, Some(HOME), &machine);
    assert_eq!(reply, Reply::Scan(Err(not_found.clone())));
    let (reply, _) = drive(Request::Report { path: "p".to_string() }, None, &machine);
    assert_eq!(reply, Reply::Text(Err(not_found.clone())));
    let (reply, _) = drive(Request::Version, None, &machine);
    assert_eq!(reply, Reply::Text(Err(not_found)));
    let (reply, _) = drive(Request::Availability, Some(HOME), &machine);
    assert_eq!(reply, Reply::Available(false));
}

#[test]
fn availability_is_answered_by_the_health_check_alone() {
    let machine = Machine {
        present: vec![local()],
        healthy: vec![local()],
        unstartable: vec![],
        run: || panic!("nothing is run for an availability check"),
    };
    let (reply, asked) = drive(Request::Availability, Some(HOME), &machine);
    assert_eq!(reply, Reply::Available(true));
    assert_eq!(
        asked,
        vec![probe(under_home()), probe(local()), execute(local(), &["--version"])]
    );
}

#[test]
fn version_query_runs_the_tool_again_and_trims_what_it_prints() {
    let machine = Machine {
        present: vec![],
        healthy: vec![command()],
        unstartable: vec![],
        run: || exited(true, "  ohmybug 2.3.1\n", "ignored"),
    };
    let (reply, asked) = drive(Request::Version, None, &machine);
    assert_eq!(reply, Reply::Text(Ok("ohmybug 2.3.1".to_string())));
    assert_eq!(
        asked,
        vec![
            probe(local()),
            probe(homebrew()),
            execute(command(), &["--version"]),
            execute(command(), &["--version"]),
        ]
    );
}

#[test]
fn version_query_does_not_look_at_the_exit_status() {
    let machine = Machine {
        present: vec![],
        healthy: vec![command()],
        unstartable: vec![],
        run: || exited(false, "", "broken"),
    };
    let (reply, _) = drive(Request::Version, None, &machine);
    assert_eq!(reply, Reply::Text(Ok(String::new())));
}

#[test]
fn report_hands_on_the_text_as_it_is() {
    let machine = Machine {
        present: vec![local()],
        healthy: vec![local()],
        unstartable: vec![],
        run: || exited(true, "# Findings\n\n{\"summary\":{}}\n", ""),
    };
    let (reply, asked) = drive(Request::Report { path: "/work/app".to_string() }, None, &machine);
    assert_eq!(reply, Reply::Text(Ok("# Findings\n\n{\"summary\":{}}\n".to_string())));
    assert_eq!(
        asked.last(),
        Some(&execute(local(), &["check", "/work/app", "--format", "markdown"]))
    );
}

#[test]
fn failed_scan_without_output_is_an_error_but_a_failed_fix_is_a_result() {
    let machine = Machine {
        present: vec![local()],
        healthy: vec![local()],
        unstartable: vec![],
        run: || exited(false, "", "project not found"),
    };
    let (reply, _) = drive(scan(false), None, &machine);
    assert_eq!(reply, Reply::Scan(Err("Scan failed: project not found".to_string())));
    let (reply, _) = drive(scan(true), None, &machine);
    assert_eq!(reply, Reply::Scan(Err("Scan failed: project not found".to_string())));
    let (reply, _) = drive(Request::Report { path: "p".to_string() }, None, &machine);
    assert_eq!(reply, Reply::Text(Err("Scan failed: project not found".to_string())));
    let (reply, _) = drive(Request::Fix { path: "p".to_string() }, None, &machine);
    assert_eq!(
        reply,
        Reply::Scan(Ok(ScanResult {
            success: false,
            output: "project not found".to_string(),
            summary: None,
        }))
    );
}

#[test]
fn tool_that_cannot_be_started_for_the_request_is_an_error() {
    let machine = Machine {
        present: vec![local()],
        healthy: vec![local()],
        unstartable: vec![],
        run: || spawn_failed("Text file busy (os error 26)"),
    };
    let execute_failed = "Failed to execute ohmybug: Text file busy (os error 26)".to_string();
    let (reply, _) = drive(scan(false), None, &machine);
    assert_eq!(reply, Reply::Scan(Err(execute_failed.clone())));
    let (reply, _) = drive(Request::Fix { path: "p".to_string() }, None, &machine);
    assert_eq!(reply, Reply::Scan(Err(execute_failed.clone())));
    let (reply, _) = drive(Request::Report { path: "p".to_string() }, None, &machine);
    assert_eq!(reply, Reply::Text(Err(execute_failed)));
    let (reply, _) = drive(Request::Version, None, &machine);
    assert_eq!(
        reply,
        Reply::Text(Err("Failed to get version: Text file busy (os error 26)".to_string()))
    );
}

#[test]
fn observation_of_another_kind_changes_nothing() {
    let (bridge, action) = expect_next(Bridge::begin(scan(false), None));
    assert_eq!(action, probe(local()));
    let (bridge, action) = expect_next(bridge.step(exited(true, "", "")));
    assert_eq!(action, probe(local()));
    let (bridge, action) = expect_next(bridge.step(spawn_failed("x")));
    assert_eq!(action, probe(local()));
    let (bridge, action) = expect_next(bridge.step(Event::Probed { exists: true }));
    assert_eq!(action, execute(local(), &["--version"]));
    let (bridge, action) = expect_next(bridge.step(Event::Probed { exists: false }));
    assert_eq!(action, execute(local(), &["--version"]));
    let (bridge, action) = expect_next(bridge.step(exited(true, "1.0", "")));
    assert_eq!(action, execute(local(), &["check", "/work/app", "--format", "json"]));
    let (bridge, action) = expect_next(bridge.step(Event::Probed { exists: true }));
    assert_eq!(action, execute(local(), &["check", "/work/app", "--format", "json"]));
    let reply = expect_done(bridge.step(exited(true, "{\"ok\":true}", "")));
    assert_eq!(
        reply,
        Reply::Scan(Ok(ScanResult {
            success: true,
            output: "{\"ok\":true}".to_string(),
            summary: None,
        }))
    );
}

#[test]
fn health_check_counts_the_exit_status_only() {
    let (bridge, _) = expect_next(Bridge::begin(Request::Availability, None));
    let (bridge, _) = expect_next(bridge.step(Event::Probed { exists: true }));
    let (bridge, action) = expect_next(bridge.step(exited(false, "ohmybug 1.0", "")));
    assert_eq!(action, probe(homebrew()));
    let (bridge, _) = expect_next(bridge.step(Event::Probed { exists: true }));
    let reply = expect_done(bridge.step(exited(true, "", "not a version")));
    assert_eq!(reply, Reply::Available(true));
}

#[test]
fn start_asks_for_the_first_candidate_on_disk() {
    let (_, action) = expect_next(Bridge::start(Request::Availability));
    match action {
        Action::Probe { candidate: Candidate::UnderHome { relative, .. } } => {
            assert_eq!(relative, "bin/ohmybug")
        }
        other => assert_eq!(other, probe(local())),
    }
}
