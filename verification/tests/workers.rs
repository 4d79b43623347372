//! Worker scenarios: what the engine writes into the shared state for
//! each way a run can go.

use wherehouse::package_manager::Command;
use wherehouse::package_manager::PackageLocality;
use wherehouse::package_manager::SpawnedCommandOutput;
use wherehouse::package_manager::homebrew::Homebrew;
use wherehouse::state::InputMode;
use wherehouse::state::Pane;
use wherehouse::state::SearchState;
use wherehouse::state::State;
use wherehouse::worker::RunOutcome;
use wherehouse::worker::TaskBegin;
use wherehouse::worker::TaskSnapshot;
use wherehouse::worker::begin_task;
use wherehouse::worker::clear_search_results;
use wherehouse::worker::commit_package_info;
use wherehouse::worker::commit_search_results;
use wherehouse::worker::filter_results;
use wherehouse::worker::pane_for_task;
use wherehouse::worker::selected_package;
use wherehouse::worker::text_result;

fn completed(out: Option<&str>, err: Option<&str>, success: bool) -> RunOutcome {
    RunOutcome::Completed {
        success,
        output: SpawnedCommandOutput {
            out: out.map(|s| s.to_string()),
            err: err.map(|s| s.to_string()),
        },
    }
}

#[test]
fn empty_query_spawns_nothing_and_clears_the_list() {
    let mut search = SearchState::default();
    search.results = vec!["stale".to_string()];
    search.source = PackageLocality::Remote;
    let snapshot = TaskSnapshot::of_search(&search);
    // No process is spawned for an empty query...
    assert!(matches!(
        begin_task(&Homebrew, &Command::FilterPackages, &snapshot),
        TaskBegin::ClearResults
    ));
    // ...and the result list becomes empty.
    clear_search_results(&mut search);
    assert!(search.results.is_empty());
    assert_eq!(search.selection, None);
}

#[test]
fn search_for_wget_then_info_populates_the_detail_pane() {
    let mut state = State::new();
    state.search.query = "wget".to_string();
    state.search.source = PackageLocality::Remote;

    // The filter worker snapshots the search field and plans its run.
    let snapshot = TaskSnapshot::of_search(&state.search);
    let plan = match begin_task(&Homebrew, &Command::FilterPackages, &snapshot) {
        TaskBegin::Run(plan) => plan,
        _ => panic!("a non-empty query must spawn a search"),
    };
    assert_eq!(plan.args, vec!["search".to_string(), "wget".to_string()]);

    // The child exits cleanly having printed one match.
    let outcome = completed(Some("wget\n"), None, true);
    let results = filter_results(&outcome).expect("a completed run has a result");
    assert_eq!(results, vec!["wget".to_string()]);
    commit_search_results(&mut state.search, &snapshot.query, results);
    assert_eq!(state.search.results, vec!["wget".to_string()]);

    // The user highlights the first result and asks for its info.
    state.search.select_next();
    assert_eq!(state.search.selection, Some(0));
    let snapshot = TaskSnapshot::of_search(&state.search);
    let plan = match begin_task(&Homebrew, &Command::PackageInfo, &snapshot) {
        TaskBegin::Run(plan) => plan,
        _ => panic!("a highlighted result must spawn an info run"),
    };
    assert_eq!(
        plan.args,
        vec![
            "desc".to_string(),
            "--search".to_string(),
            "--eval-all".to_string(),
            "wget".to_string()
        ]
    );

    // The info worker writes the description it got back.
    let outcome = completed(Some("wget: internet file retriever\n"), None, true);
    let info = text_result(&outcome, plan.read_stderr).expect("a completed run has a result");
    commit_package_info(&mut state.search, info.clone());
    assert_eq!(state.search.selected_result_info, "wget: internet file retriever\n");
    match pane_for_task(&Command::PackageInfo, info) {
        Some(Pane::SearchResults(text)) => {
            assert_eq!(text, "wget: internet file retriever\n")
        }
        _ => panic!("package info must land on the results pane"),
    }
}

#[test]
fn stale_results_are_discarded_when_the_query_moved_on() {
    let mut search = SearchState::default();
    search.query = "ab".to_string();
    // A worker that started when the query was still "a" finishes late.
    let started_query = "a".to_string();
    commit_search_results(&mut search, &started_query, vec!["answer for a".to_string()]);
    // The list must never reflect the superseded query.
    assert!(search.results.is_empty());
    // The worker for "ab" commits fine.
    commit_search_results(&mut search, &"ab".to_string(), vec!["answer for ab".to_string()]);
    assert_eq!(search.results, vec!["answer for ab".to_string()]);
}

#[test]
fn failures_degrade_to_empty_results() {
    // The command could not be spawned.
    assert_eq!(filter_results(&RunOutcome::SpawnFailed), Some(Vec::new()));
    assert_eq!(text_result(&RunOutcome::SpawnFailed, false), Some(String::new()));
    // The command exited non-zero: its output is not trusted.
    let failed = completed(Some("half a result\n"), None, false);
    assert_eq!(filter_results(&failed), Some(Vec::new()));
    assert_eq!(text_result(&failed, false), Some(String::new()));
    // A cancelled run writes nothing at all.
    assert_eq!(filter_results(&RunOutcome::Cancelled), None);
    assert_eq!(text_result(&RunOutcome::Cancelled, false), None);
}

#[test]
fn health_check_reads_standard_error() {
    let snapshot = TaskSnapshot::of_search(&SearchState::default());
    let plan = match begin_task(&Homebrew, &Command::CheckHealth, &snapshot) {
        TaskBegin::Run(plan) => plan,
        _ => panic!("a health check always runs"),
    };
    assert!(plan.read_stderr);
    let outcome = completed(Some(""), Some("Your system is ready to brew.\n"), true);
    let report = text_result(&outcome, plan.read_stderr).unwrap();
    assert_eq!(report, "Your system is ready to brew.\n");
    match pane_for_task(&Command::CheckHealth, report) {
        Some(Pane::About(text)) => assert_eq!(text, "Your system is ready to brew.\n"),
        _ => panic!("the health report must land on the about pane"),
    }
}

#[test]
fn commands_that_need_a_highlight_skip_without_one() {
    let mut search = SearchState::default();
    search.query = "wget".to_string();
    search.results = vec!["wget".to_string()];
    let snapshot = TaskSnapshot::of_search(&search);
    assert!(matches!(begin_task(&Homebrew, &Command::PackageInfo, &snapshot), TaskBegin::Skip));
    assert!(matches!(
        begin_task(&Homebrew, &Command::InstallPackage, &snapshot),
        TaskBegin::Skip
    ));
    assert!(matches!(
        begin_task(&Homebrew, &Command::UninstallPackage, &snapshot),
        TaskBegin::Skip
    ));
    // A highlight past the end of the list names nothing either.
    assert_eq!(selected_package(&search.results, &Some(5)), None);
    assert_eq!(
        selected_package(&search.results, &Some(0)),
        Some("wget".to_string())
    );
}

#[test]
fn install_and_uninstall_run_on_the_highlighted_package() {
    let mut search = SearchState::default();
    search.query = "wget".to_string();
    search.results = vec!["wget".to_string(), "wget2".to_string()];
    search.selection = Some(1);
    let snapshot = TaskSnapshot::of_search(&search);
    match begin_task(&Homebrew, &Command::InstallPackage, &snapshot) {
        TaskBegin::Run(plan) => {
            assert_eq!(plan.args, vec!["install".to_string(), "wget2".to_string()])
        }
        _ => panic!("a highlighted result must spawn an install"),
    }
    match begin_task(&Homebrew, &Command::UninstallPackage, &snapshot) {
        TaskBegin::Run(plan) => {
            assert_eq!(plan.args, vec!["uninstall".to_string(), "wget2".to_string()])
        }
        _ => panic!("a highlighted result must spawn an uninstall"),
    }
    match begin_task(&Homebrew, &Command::Config, &snapshot) {
        TaskBegin::Run(plan) => assert_eq!(plan.args, vec!["config".to_string()]),
        _ => panic!("config always runs"),
    }
    assert!(matches!(begin_task(&Homebrew, &Command::GeneralInfo, &snapshot), TaskBegin::Skip));
    assert!(matches!(begin_task(&Homebrew, &Command::Clean, &snapshot), TaskBegin::Skip));
    assert!(matches!(
        begin_task(&Homebrew, &Command::UpdatePackage, &snapshot),
        TaskBegin::Skip
    ));
}

#[test]
fn query_edits_drop_the_highlight() {
    let mut search = SearchState::default();
    search.results = vec!["wget".to_string()];
    search.selection = Some(0);
    search.append_query('w');
    assert_eq!(search.query, "w");
    assert_eq!(search.selection, None);
    search.append_query('g');
    search.selection = Some(0);
    search.pop_query();
    assert_eq!(search.query, "w");
    assert_eq!(search.selection, None);
    search.pop_query();
    assert_eq!(search.query, "");
    search.pop_query();
    assert_eq!(search.query, "");
}

#[test]
fn selection_moves_stay_inside_the_list() {
    let mut search = SearchState::default();
    search.results = vec!["a".to_string(), "b".to_string(), "c".to_string()];
    search.select_next();
    assert_eq!(search.selection, Some(0));
    search.select_next();
    search.select_next();
    search.select_next();
    assert_eq!(search.selection, Some(2));
    search.select_previous();
    assert_eq!(search.selection, Some(1));
    search.select_previous();
    search.select_previous();
    assert_eq!(search.selection, Some(0));
    search.reset_selection();
    search.select_previous();
    assert_eq!(search.selection, Some(2));

    let mut empty = SearchState::default();
    empty.select_next();
    assert_eq!(empty.selection, None);
    empty.select_previous();
    assert_eq!(empty.selection, None);
}

#[test]
fn fresh_state_starts_in_insert_mode_on_the_search_pane() {
    let state = State::new();
    assert!(!state.exit());
    assert_eq!(state.input_mode(), InputMode::Insert);
    assert!(matches!(state.current_pane(), Pane::SearchInput));
    assert_eq!(state.search().query, "");
    assert!(state.search().results.is_empty());
    assert_eq!(state.healthcheck_results(), "");
    assert_eq!(state.config().app_name, "WhereHouse");
    assert_eq!(state.config().app_version, "0.1.0");
    assert_eq!(InputMode::Normal.label(), "NORMAL");
    assert_eq!(InputMode::Insert.label(), "INSERT");
    assert_eq!(PackageLocality::Local.label(), "LOCAL");
    assert_eq!(PackageLocality::Remote.label(), "REMOTE");
}
