use launcher::error::LaunchError;
use launcher::locator::{ProbeOutcome, RuntimeLocator, Search};
use launcher::stage::Command;
use launcher::version::Version;

fn names(list: &[&str]) -> Vec<String> {
    list.iter().map(|s| s.to_string()).collect()
}

/// Runs the search against a stand-in for the machine and counts the probes.
fn locate(
    candidates: &[&str],
    answer: &dyn Fn(&str) -> ProbeOutcome,
) -> (Option<Result<(String, Version), LaunchError>>, Vec<String>) {
    let mut locator = RuntimeLocator::new(names(candidates));
    let mut asked = Vec::new();
    while let Some(Command { program, arguments }) = locator.pending() {
        assert_eq!(program.len(), 1);
        assert_eq!(arguments, vec!["--version".to_string()]);
        asked.push(program[0].clone());
        locator.record(&answer(&program[0]));
        assert!(asked.len() <= candidates.len());
    }
    (locator.verdict(), asked)
}

#[test]
fn second_candidate_is_found_when_first_cannot_run() {
    let (verdict, asked) = locate(&["first", "second"], &|name| match name {
        "first" => ProbeOutcome::NotStarted,
        _ => ProbeOutcome::Output("Python 3.12.1".to_string()),
    });
    assert_eq!(
        verdict,
        Some(Ok(("second".to_string(), Version { major: 3, minor: 12, patch: 1 })))
    );
    assert_eq!(asked, vec!["first", "second"]);
}

#[test]
fn nothing_is_found_when_no_candidate_runs_or_parses() {
    let (verdict, asked) = locate(&["python3", "python"], &|name| match name {
        "python3" => ProbeOutcome::NotStarted,
        _ => ProbeOutcome::Output("no version here".to_string()),
    });
    assert_eq!(verdict, Some(Err(LaunchError::RuntimeNotFound)));
    assert_eq!(asked, vec!["python3", "python"]);

    let (verdict, _) = locate(&["a", "b", "c"], &|_| ProbeOutcome::Failed);
    assert_eq!(verdict, Some(Err(LaunchError::RuntimeNotFound)));
}

#[test]
fn first_success_ends_the_search() {
    let (verdict, asked) = locate(&["python3", "python", "py"], &|name| {
        ProbeOutcome::Output(format!("{} 3.{}.0\n", name, name.len()))
    });
    assert_eq!(
        verdict,
        Some(Ok(("python3".to_string(), Version { major: 3, minor: 7, patch: 0 })))
    );
    assert_eq!(asked, vec!["python3"]);
}

#[test]
fn failed_status_and_unparseable_output_are_passed_over() {
    let (verdict, asked) = locate(&["a", "b", "c", "d"], &|name| match name {
        "a" => ProbeOutcome::Failed,
        "b" => ProbeOutcome::Output("Python three".to_string()),
        "c" => ProbeOutcome::Output("Python 2.7.18".to_string()),
        _ => ProbeOutcome::Output("Python 3.13.0".to_string()),
    });
    assert_eq!(verdict, Some(Ok(("c".to_string(), Version { major: 2, minor: 7, patch: 18 }))));
    assert_eq!(asked, vec!["a", "b", "c"]);
}

#[test]
fn empty_candidate_list_finds_nothing() {
    let locator = RuntimeLocator::new(Vec::new());
    assert!(locator.pending().is_none());
    assert_eq!(locator.state(), Search::Exhausted);
    assert_eq!(locator.verdict(), Some(Err(LaunchError::RuntimeNotFound)));
}

#[test]
fn verdict_is_open_while_a_candidate_is_pending() {
    let mut locator = RuntimeLocator::new(names(&["a", "b"]));
    assert_eq!(locator.state(), Search::Probing(0));
    assert_eq!(locator.verdict(), None);
    locator.record(&ProbeOutcome::Failed);
    assert_eq!(locator.state(), Search::Probing(1));
    assert_eq!(locator.verdict(), None);
    locator.record(&ProbeOutcome::Output("v 1.2".to_string()));
    assert_eq!(locator.state(), Search::Found(1, Version { major: 1, minor: 2, patch: 0 }));
}

#[test]
fn finished_search_takes_no_further_outcome() {
    let mut locator = RuntimeLocator::new(names(&["a", "b"]));
    locator.record(&ProbeOutcome::Output("1.0".to_string()));
    let found = locator.state();
    locator.record(&ProbeOutcome::Output("2.0".to_string()));
    locator.record(&ProbeOutcome::NotStarted);
    assert_eq!(locator.state(), found);
    assert!(locator.pending().is_none());

    let mut locator = RuntimeLocator::new(names(&["a"]));
    locator.record(&ProbeOutcome::Failed);
    assert_eq!(locator.state(), Search::Exhausted);
    locator.record(&ProbeOutcome::Output("2.0".to_string()));
    assert_eq!(locator.state(), Search::Exhausted);
}

#[test]
fn search_steps() {
    assert_eq!(Search::start(0), Search::Exhausted);
    assert_eq!(Search::start(2), Search::Probing(0));
    assert_eq!(Search::Probing(0).after(2, &ProbeOutcome::Failed), Search::Probing(1));
    assert_eq!(Search::Probing(1).after(2, &ProbeOutcome::NotStarted), Search::Exhausted);
    assert_eq!(
        Search::Probing(1).after(2, &ProbeOutcome::Output("x 4.5.6".to_string())),
        Search::Found(1, Version { major: 4, minor: 5, patch: 6 })
    );
    assert_eq!(Search::Exhausted.after(2, &ProbeOutcome::Output("4.5".to_string())), Search::Exhausted);
}

#[test]
fn announced_version_of_an_outcome() {
    assert_eq!(ProbeOutcome::NotStarted.version(), None);
    assert_eq!(ProbeOutcome::Failed.version(), None);
    assert_eq!(ProbeOutcome::Output(String::new()).version(), None);
    assert_eq!(
        ProbeOutcome::Output("Python 3.10.4\n".to_string()).version(),
        Some(Version { major: 3, minor: 10, patch: 4 })
    );
}
