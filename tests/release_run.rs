use release_train::lookup::{PackageRecord, WorkspaceMetadata};
use release_train::release::{Action, Command, Event, Options, Release, ReleaseError};

fn record(id: &str, name: &str, version: &str) -> PackageRecord {
    PackageRecord { id: id.to_string(), name: name.to_string(), version: version.to_string() }
}

fn metadata(packages: &[(&str, &str)]) -> WorkspaceMetadata {
    WorkspaceMetadata {
        members: packages.iter().map(|(n, _)| format!("{n} 0 (path)")).collect(),
        packages: packages.iter().map(|(n, v)| record(&format!("{n} 0 (path)"), n, v)).collect(),
    }
}

fn names(list: &[&str]) -> Vec<String> {
    list.iter().map(|s| s.to_string()).collect()
}

fn say(line: &str) -> Action {
    Action::Say { line: line.to_string() }
}

fn confirm(tag: &str) -> Action {
    Action::Confirm { prompt: format!("Publish {tag}?") }
}

fn run_cmd(command: Command) -> Action {
    Action::Run { command }
}

fn tag(s: &str) -> String {
    s.to_string()
}

/// Drives a run to its end, answering each action with `respond`, and returns
/// every action it asked for, the final one included.
fn drive(
    mut release: Release,
    meta: WorkspaceMetadata,
    mut respond: impl FnMut(&Action) -> Event,
) -> Vec<Action> {
    let mut meta = Some(meta);
    let mut actions = Vec::new();
    for _ in 0..1000 {
        let action = release.action();
        let event = match &action {
            Action::ReadMetadata => Event::Metadata { result: Ok(meta.take().unwrap()) },
            Action::Finish { .. } => {
                actions.push(action);
                return actions;
            }
            other => respond(other),
        };
        actions.push(action);
        release.step(event);
    }
    panic!("run did not finish");
}

fn yes_and_succeed(action: &Action) -> Event {
    match action {
        Action::Confirm { .. } => Event::Answer { result: Ok(true) },
        Action::Run { .. } => Event::Outcome { result: Ok(()) },
        _ => Event::Done,
    }
}

fn is_tag_mutation(action: &Action) -> bool {
    matches!(
        action,
        Action::Run {
            command: Command::CreateTag { .. }
                | Command::PushTag { .. }
                | Command::DeleteRemoteTag { .. }
                | Command::ForceTag { .. }
        }
    )
}

fn dir_depth_after_each(actions: &[Action]) -> Vec<i32> {
    let mut depth = 0;
    actions
        .iter()
        .map(|a| {
            match a {
                Action::EnterDir { .. } => depth += 1,
                Action::LeaveDir => depth -= 1,
                _ => {}
            }
            depth
        })
        .collect()
}

#[test]
fn declining_every_package_runs_nothing() {
    let release =
        Release::new(1, names(&["a", "b"]), Options { confirm_all: false, tag_only: false });
    let actions = drive(release, metadata(&[("a", "0.1.0"), ("b", "2.0.0")]), |a| match a {
        Action::Confirm { .. } => Event::Answer { result: Ok(false) },
        _ => Event::Done,
    });
    assert_eq!(
        actions,
        vec![
            Action::ReadMetadata,
            confirm("a-v0.1.0"),
            say("a aborted"),
            say(""),
            confirm("b-v2.0.0"),
            say("b aborted"),
            say(""),
            Action::Finish { outcome: Ok(()) },
        ]
    );
}

#[test]
fn declining_the_whole_catalog_keeps_its_order() {
    let catalog = [
        ("crux_cli", "0.1.0"),
        ("crux_macros", "0.4.0"),
        ("crux_core", "0.10.0"),
        ("crux_http", "0.10.0"),
        ("crux_kv", "0.5.0"),
        ("crux_platform", "0.2.0"),
        ("crux_time", "0.5.0"),
    ];
    let release = Release::new(1, Vec::new(), Options { confirm_all: false, tag_only: true });
    let actions = drive(release, metadata(&catalog), |a| match a {
        Action::Confirm { .. } => Event::Answer { result: Ok(false) },
        _ => Event::Done,
    });
    let notices: Vec<&Action> =
        actions.iter().filter(|a| matches!(a, Action::Say { line } if line.ends_with(" aborted"))).collect();
    let expected: Vec<Action> = catalog.iter().map(|(n, _)| say(&format!("{n} aborted"))).collect();
    assert_eq!(notices, expected.iter().collect::<Vec<_>>());
    assert!(!actions.iter().any(|a| matches!(a, Action::Run { .. } | Action::EnterDir { .. })));
    assert_eq!(actions.last(), Some(&Action::Finish { outcome: Ok(()) }));
}

#[test]
fn unknown_package_stops_the_run_there() {
    let release = Release::new(
        1,
        names(&["a", "missing", "b"]),
        Options { confirm_all: true, tag_only: true },
    );
    let actions = drive(release, metadata(&[("a", "1.0.0"), ("b", "1.0.0")]), yes_and_succeed);
    assert_eq!(
        actions,
        vec![
            Action::ReadMetadata,
            Action::EnterDir { package: tag("a") },
            say("Creating tag a-v1.0.0..."),
            run_cmd(Command::CreateTag { tag: tag("a-v1.0.0") }),
            run_cmd(Command::PushTag { tag: tag("a-v1.0.0") }),
            say(""),
            Action::LeaveDir,
            Action::Finish {
                outcome: Err(ReleaseError::UnknownPackage { package: tag("missing") })
            },
        ]
    );
}

#[test]
fn unknown_package_stops_even_when_asking() {
    let release =
        Release::new(1, names(&["missing", "a"]), Options { confirm_all: false, tag_only: false });
    let actions = drive(release, metadata(&[("a", "1.0.0")]), yes_and_succeed);
    assert_eq!(
        actions,
        vec![
            Action::ReadMetadata,
            Action::Finish {
                outcome: Err(ReleaseError::UnknownPackage { package: tag("missing") })
            },
        ]
    );
}

#[test]
fn tag_only_with_confirm_all_creates_and_pushes_the_tag() {
    let release =
        Release::new(1, names(&["pkgA"]), Options { confirm_all: true, tag_only: true });
    let actions = drive(release, metadata(&[("pkgA", "1.2.3")]), yes_and_succeed);
    let commands: Vec<&Action> =
        actions.iter().filter(|a| matches!(a, Action::Run { .. })).collect();
    assert_eq!(
        commands,
        vec![
            &run_cmd(Command::CreateTag { tag: tag("pkgA-v1.2.3") }),
            &run_cmd(Command::PushTag { tag: tag("pkgA-v1.2.3") }),
        ]
    );
    assert!(!actions.iter().any(|a| matches!(a, Action::Confirm { .. })));
    assert_eq!(actions.last(), Some(&Action::Finish { outcome: Ok(()) }));
}

#[test]
fn dry_run_publish_moves_no_tag() {
    let release =
        Release::new(1, names(&["pkgA"]), Options { confirm_all: false, tag_only: false });
    let actions = drive(release, metadata(&[("pkgA", "1.2.3")]), yes_and_succeed);
    assert_eq!(
        actions,
        vec![
            Action::ReadMetadata,
            confirm("pkgA-v1.2.3"),
            Action::EnterDir { package: tag("pkgA") },
            say("Publishing pkgA-v1.2.3..."),
            run_cmd(Command::Publish { package: tag("pkgA"), dry_run: true }),
            say(""),
            Action::LeaveDir,
            Action::Finish { outcome: Ok(()) },
        ]
    );
    assert!(!actions.iter().any(is_tag_mutation));
}

#[test]
fn real_publish_then_moves_the_tag() {
    let release =
        Release::new(1, names(&["pkgA"]), Options { confirm_all: true, tag_only: false });
    let actions = drive(release, metadata(&[("pkgA", "1.2.3")]), yes_and_succeed);
    let t = "pkgA-v1.2.3";
    assert_eq!(
        actions,
        vec![
            Action::ReadMetadata,
            Action::EnterDir { package: tag("pkgA") },
            say("Publishing pkgA-v1.2.3..."),
            run_cmd(Command::Publish { package: tag("pkgA"), dry_run: false }),
            run_cmd(Command::DeleteRemoteTag { tag: tag(t) }),
            run_cmd(Command::ForceTag { tag: tag(t) }),
            run_cmd(Command::PushTag { tag: tag(t) }),
            say(""),
            Action::LeaveDir,
            Action::Finish { outcome: Ok(()) },
        ]
    );
}

#[test]
fn failed_publish_moves_no_tag_and_leaves_the_directory() {
    let release =
        Release::new(1, names(&["a", "b"]), Options { confirm_all: true, tag_only: false });
    let actions = drive(release, metadata(&[("a", "1.0.0"), ("b", "1.0.0")]), |a| match a {
        Action::Run { .. } => Event::Outcome { result: Err("exit status: 101".to_string()) },
        _ => Event::Done,
    });
    assert_eq!(
        actions,
        vec![
            Action::ReadMetadata,
            Action::EnterDir { package: tag("a") },
            say("Publishing a-v1.0.0..."),
            run_cmd(Command::Publish { package: tag("a"), dry_run: false }),
            Action::LeaveDir,
            Action::Finish {
                outcome: Err(ReleaseError::Command {
                    command: Command::Publish { package: tag("a"), dry_run: false },
                    message: "exit status: 101".to_string(),
                })
            },
        ]
    );
}

#[test]
fn failed_tag_push_stops_the_run() {
    let release =
        Release::new(1, names(&["a", "b"]), Options { confirm_all: true, tag_only: true });
    let actions = drive(release, metadata(&[("a", "1.0.0"), ("b", "1.0.0")]), |a| match a {
        Action::Run { command: Command::PushTag { .. } } => {
            Event::Outcome { result: Err("rejected".to_string()) }
        }
        Action::Run { .. } => Event::Outcome { result: Ok(()) },
        _ => Event::Done,
    });
    assert_eq!(
        actions.last(),
        Some(&Action::Finish {
            outcome: Err(ReleaseError::Command {
                command: Command::PushTag { tag: tag("a-v1.0.0") },
                message: "rejected".to_string(),
            })
        })
    );
    assert!(!actions.iter().any(|a| matches!(a, Action::EnterDir { package } if package == "b")));
}

#[test]
fn workspace_count_other_than_one_fails_first() {
    for count in [0usize, 2] {
        let release =
            Release::new(count, names(&["a"]), Options { confirm_all: true, tag_only: false });
        assert_eq!(
            release.action(),
            Action::Finish { outcome: Err(ReleaseError::WorkspaceCount { count }) }
        );
    }
}

#[test]
fn workspace_count_failure_ignores_events() {
    let mut release =
        Release::new(2, names(&["a"]), Options { confirm_all: true, tag_only: false });
    release.step(Event::Metadata { result: Ok(metadata(&[("a", "1.0.0")])) });
    release.step(Event::Done);
    assert_eq!(
        release.action(),
        Action::Finish { outcome: Err(ReleaseError::WorkspaceCount { count: 2 }) }
    );
}

#[test]
fn working_directory_is_restored_after_each_package() {
    let release = Release::new(
        1,
        names(&["a", "b", "c"]),
        Options { confirm_all: false, tag_only: false },
    );
    let actions = drive(
        release,
        metadata(&[("a", "1.0.0"), ("b", "1.0.0"), ("c", "1.0.0")]),
        |a| match a {
            Action::Confirm { prompt } => Event::Answer { result: Ok(prompt != "Publish b-v1.0.0?") },
            Action::Run { command: Command::Publish { package, .. } } if package == "c" => {
                Event::Outcome { result: Err("failed".to_string()) }
            }
            Action::Run { .. } => Event::Outcome { result: Ok(()) },
            _ => Event::Done,
        },
    );
    let depths = dir_depth_after_each(&actions);
    assert!(depths.iter().all(|d| *d == 0 || *d == 1));
    for (i, a) in actions.iter().enumerate() {
        if matches!(a, Action::Confirm { .. } | Action::Finish { .. }) {
            assert_eq!(depths[i], 0);
        }
    }
    assert!(matches!(
        actions.last(),
        Some(Action::Finish { outcome: Err(ReleaseError::Command { .. }) })
    ));
}

#[test]
fn metadata_failure_is_passed_through() {
    let mut release =
        Release::new(1, names(&["a"]), Options { confirm_all: false, tag_only: false });
    release.step(Event::Metadata { result: Err("cargo metadata failed".to_string()) });
    assert_eq!(
        release.action(),
        Action::Finish {
            outcome: Err(ReleaseError::Metadata { message: "cargo metadata failed".to_string() })
        }
    );
}

#[test]
fn member_without_record_is_reported() {
    let mut release =
        Release::new(1, names(&["a"]), Options { confirm_all: false, tag_only: false });
    let meta = WorkspaceMetadata {
        members: names(&["a 1.0.0", "ghost 0.1.0"]),
        packages: vec![record("a 1.0.0", "a", "1.0.0")],
    };
    release.step(Event::Metadata { result: Ok(meta) });
    assert_eq!(
        release.action(),
        Action::Finish {
            outcome: Err(ReleaseError::MissingRecord { member: "ghost 0.1.0".to_string() })
        }
    );
}

#[test]
fn prompt_failure_stops_the_run() {
    let mut release =
        Release::new(1, names(&["a"]), Options { confirm_all: false, tag_only: false });
    release.step(Event::Metadata { result: Ok(metadata(&[("a", "1.0.0")])) });
    assert_eq!(release.action(), confirm("a-v1.0.0"));
    release.step(Event::Answer { result: Err("not a terminal".to_string()) });
    assert_eq!(
        release.action(),
        Action::Finish {
            outcome: Err(ReleaseError::Prompt { message: "not a terminal".to_string() })
        }
    );
}

#[test]
fn event_that_does_not_answer_leaves_the_action_pending() {
    let mut release =
        Release::new(1, names(&["a"]), Options { confirm_all: false, tag_only: false });
    release.step(Event::Done);
    assert_eq!(release.action(), Action::ReadMetadata);
    release.step(Event::Metadata { result: Ok(metadata(&[("a", "1.0.0")])) });
    release.step(Event::Outcome { result: Ok(()) });
    assert_eq!(release.action(), confirm("a-v1.0.0"));
}

#[test]
fn requested_packages_are_used_verbatim() {
    let release = Release::new(
        1,
        names(&["b", "a", "b"]),
        Options { confirm_all: false, tag_only: false },
    );
    let actions = drive(release, metadata(&[("a", "1.0.0"), ("b", "2.0.0")]), |a| match a {
        Action::Confirm { .. } => Event::Answer { result: Ok(false) },
        _ => Event::Done,
    });
    let prompts: Vec<&Action> =
        actions.iter().filter(|a| matches!(a, Action::Confirm { .. })).collect();
    assert_eq!(
        prompts,
        vec![&confirm("b-v2.0.0"), &confirm("a-v1.0.0"), &confirm("b-v2.0.0")]
    );
}
