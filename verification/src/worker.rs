//! What a worker does around its one external command: read a snapshot of
//! the shared state, decide whether and what to run, and turn however the
//! run ended into the one state update it is allowed to make. Failure is
//! resolved here — a command that could not be spawned or exited non-zero
//! degrades to an empty result, and a cancelled run writes nothing at all.

use vstd::prelude::*;

use crate::package_manager::Command;
use crate::package_manager::CommandPlan;
use crate::package_manager::PackageLocality;
use crate::package_manager::PackageManager;
use crate::package_manager::SpawnedCommandOutput;
use crate::package_manager::parsed_lines;
use crate::state::Pane;
use crate::state::SearchState;

verus! {

/// What the input loop may ask the background worker to do.
pub enum WorkerEvent {
    UpdateSearch,
}

/// What one turn of the background worker's loop decides: whether the
/// search must be recomputed, and whether the loop is over.
#[derive(Clone, Copy, PartialEq, Eq, Structural, Debug)]
pub struct WorkerStep {
    pub refresh: bool,
    pub quit: bool,
}

/// One turn of the background worker: a search refresh is due exactly
/// when an update was requested and the query changed since the worker
/// last looked.
pub fn worker_poll(
    cached_query: &String,
    current_query: &String,
    event: Option<WorkerEvent>,
    should_quit: bool,
) -> (r: WorkerStep)
    ensures
        r.refresh == (event is Some && cached_query@ != current_query@),
        r.quit == should_quit,
{
    let refresh = match event {
        Some(WorkerEvent::UpdateSearch) => !cached_query.eq(current_query),
        None => false,
    };
    WorkerStep { refresh, quit: should_quit }
}

/// How a worker's one external command ended.
pub enum RunOutcome {
    /// The child ran to completion; `success` is whether it exited with
    /// status zero.
    Completed { success: bool, output: SpawnedCommandOutput },
    /// The run was superseded: the child was killed and there is no
    /// result — distinguished from a run that produced nothing.
    Cancelled,
    /// The OS could not start the command at all.
    SpawnFailed,
}

/// The text a captured stream accumulated, or nothing for a stream that
/// was not captured.
pub open spec fn stream_text(stream: Option<String>) -> Seq<char> {
    match stream {
        Some(text) => text@,
        None => Seq::empty(),
    }
}

/// The result list a filter run yields: its non-blank output lines on a
/// clean exit, the empty list when the command failed, and nothing on
/// cancellation.
pub open spec fn spec_filter_results(outcome: RunOutcome) -> Option<Seq<Seq<char>>> {
    match outcome {
        RunOutcome::Cancelled => None,
        RunOutcome::SpawnFailed => Some(Seq::empty()),
        RunOutcome::Completed { success, output } => if success {
            Some(parsed_lines(stream_text(output.out)))
        } else {
            Some(Seq::empty())
        },
    }
}

/// Interpret a filter run. `None` means the run was cancelled and the
/// worker must leave the state alone; `Some` is what the result list
/// becomes — empty on any failure, never stale data.
pub fn filter_results(outcome: &RunOutcome) -> (r: Option<Vec<String>>)
    ensures
        r.deep_view() == spec_filter_results(*outcome),
{
    match outcome {
        RunOutcome::Cancelled => None,
        RunOutcome::SpawnFailed => {
            let empty: Vec<String> = Vec::new();
            proof {
                assert(empty.deep_view() =~~= Seq::<Seq<char>>::empty());
            }
            Some(empty)
        },
        RunOutcome::Completed { success, output } => {
            if *success {
                let text: &str = match &output.out {
                    Some(text) => text.as_str(),
                    None => "",
                };
                proof {
                    reveal_strlit("");
                    assert(text@ == stream_text(output.out));
                }
                Some(crate::package_manager::parse_lines(text))
            } else {
                let empty: Vec<String> = Vec::new();
                proof {
                    assert(empty.deep_view() =~~= Seq::<Seq<char>>::empty());
                }
                Some(empty)
            }
        },
    }
}

/// The text payload of a run that reports text (info, health, config,
/// clean): the chosen stream's accumulated text on a clean exit, the
/// empty text when the command failed, nothing on cancellation.
pub open spec fn spec_text_result(outcome: RunOutcome, read_stderr: bool) -> Option<Seq<char>> {
    match outcome {
        RunOutcome::Cancelled => None,
        RunOutcome::SpawnFailed => Some(Seq::empty()),
        RunOutcome::Completed { success, output } => if success {
            Some(
                stream_text(
                    if read_stderr {
                        output.err
                    } else {
                        output.out
                    },
                ),
            )
        } else {
            Some(Seq::empty())
        },
    }
}

/// Interpret a text-reporting run; `None` again means cancelled, write
/// nothing.
pub fn text_result(outcome: &RunOutcome, read_stderr: bool) -> (r: Option<String>)
    ensures
        r.deep_view() == spec_text_result(*outcome, read_stderr),
{
    match outcome {
        RunOutcome::Cancelled => None,
        RunOutcome::SpawnFailed => Some(String::new()),
        RunOutcome::Completed { success, output } => {
            if *success {
                let stream = if read_stderr {
                    &output.err
                } else {
                    &output.out
                };
                match stream {
                    Some(text) => Some(text.clone()),
                    None => Some(String::new()),
                }
            } else {
                Some(String::new())
            }
        },
    }
}

/// The result the highlight points at, if it points at one.
pub open spec fn spec_selected_package(results: Seq<Seq<char>>, selection: Option<usize>) -> Option<
    Seq<char>,
> {
    match selection {
        Some(i) => if i < results.len() {
            Some(results[i as int])
        } else {
            None
        },
        None => None,
    }
}

/// The package name a detail or install worker operates on: the
/// highlighted result, or nothing when the highlight is absent or out of
/// range.
pub fn selected_package(results: &Vec<String>, selection: &Option<usize>) -> (r: Option<String>)
    ensures
        r.deep_view() == spec_selected_package(results.deep_view(), *selection),
{
    match selection {
        Some(i) => {
            if *i < results.len() {
                proof {
                    assert(results.deep_view()[*i as int] == results@[*i as int]@);
                }
                Some(results[*i].clone())
            } else {
                None
            }
        },
        None => None,
    }
}

/// The snapshot of the search field a worker takes the moment it starts,
/// so that it always works from the latest state, not from the state when
/// the command was issued.
pub struct TaskSnapshot {
    pub query: String,
    pub source: PackageLocality,
    pub results: Vec<String>,
    pub selection: Option<usize>,
}

impl TaskSnapshot {
    /// Snapshot the search field.
    pub fn of_search(search: &SearchState) -> (r: TaskSnapshot)
        ensures
            r.query == search.query,
            r.source == search.source,
            r.results.deep_view() == search.results.deep_view(),
            r.selection == search.selection,
    {
        TaskSnapshot {
            query: search.query.clone(),
            source: search.source,
            results: search.results.clone(),
            selection: search.selection,
        }
    }
}

/// What a worker that just started must do.
pub enum TaskBegin {
    /// Run the external command this plan describes.
    Run(CommandPlan),
    /// Do not spawn anything; the result list becomes empty right away.
    ClearResults,
    /// Do nothing: the command needs a highlighted package and none is
    /// highlighted, or this kind has no work attached.
    Skip,
}

/// Decide a worker's external command from its snapshot. Filtering with
/// an empty query spawns no process at all; the commands that act on one
/// package run only when the highlight names one.
pub fn begin_task<T: PackageManager>(pm: &T, command: &Command, snap: &TaskSnapshot) -> (r:
    TaskBegin)
    ensures
        *command == Command::FilterPackages && snap.query@.len() == 0 ==> r is ClearResults,
        *command == Command::FilterPackages && snap.query@.len() > 0 ==> (r matches TaskBegin::Run(
            plan,
        ) && plan@ == pm.spec_filter_packages(snap.source, snap.query@)),
        *command == Command::Config ==> (r matches TaskBegin::Run(plan) && plan@
            == pm.spec_package_manager_config()),
        *command == Command::CheckHealth ==> (r matches TaskBegin::Run(plan) && plan@
            == pm.spec_check_health()),
        *command == Command::PackageInfo ==> match spec_selected_package(
            snap.results.deep_view(),
            snap.selection,
        ) {
            Some(name) => r matches TaskBegin::Run(plan) && plan@ == pm.spec_package_info(name),
            None => r is Skip,
        },
        *command == Command::InstallPackage ==> match spec_selected_package(
            snap.results.deep_view(),
            snap.selection,
        ) {
            Some(name) => r matches TaskBegin::Run(plan) && plan@ == pm.spec_install_package(name),
            None => r is Skip,
        },
        *command == Command::UninstallPackage ==> match spec_selected_package(
            snap.results.deep_view(),
            snap.selection,
        ) {
            Some(name) => r matches TaskBegin::Run(plan) && plan@ == pm.spec_uninstall_package(
                name,
            ),
            None => r is Skip,
        },
        *command == Command::GeneralInfo || *command == Command::UpdatePackage || command
            == Command::Clean ==> r is Skip,
{
    match command {
        Command::FilterPackages => {
            if snap.query.as_str().is_empty() {
                TaskBegin::ClearResults
            } else {
                TaskBegin::Run(pm.filter_packages(snap.source, snap.query.as_str()))
            }
        },
        Command::Config => TaskBegin::Run(pm.package_manager_config()),
        Command::CheckHealth => TaskBegin::Run(pm.check_health()),
        Command::PackageInfo => {
            match selected_package(&snap.results, &snap.selection) {
                Some(name) => TaskBegin::Run(pm.package_info(name.as_str())),
                None => TaskBegin::Skip,
            }
        },
        Command::InstallPackage => {
            match selected_package(&snap.results, &snap.selection) {
                Some(name) => TaskBegin::Run(pm.install_package(name.as_str())),
                None => TaskBegin::Skip,
            }
        },
        Command::UninstallPackage => {
            match selected_package(&snap.results, &snap.selection) {
                Some(name) => TaskBegin::Run(pm.uninstall_package(name.as_str())),
                None => TaskBegin::Skip,
            }
        },
        Command::GeneralInfo => TaskBegin::Skip,
        Command::UpdatePackage => TaskBegin::Skip,
        Command::Clean => TaskBegin::Skip,
    }
}

/// Commit a filter run's result list — unless the query moved on while
/// the command ran, in which case the results answer a question nobody is
/// asking any more and are discarded, so the list only ever reflects the
/// query it was computed from.
pub fn commit_search_results(search: &mut SearchState, started_query: &String, results: Vec<String>)
    ensures
        old(search).query@ == started_query@ ==> final(search).results == results
            && final(search).selection is None && final(search).selected_result == 0,
        old(search).query@ != started_query@ ==> *final(search) == *old(search),
        final(search).query == old(search).query,
        final(search).selected_result_info == old(search).selected_result_info,
        final(search).source == old(search).source,
{
    if search.query.eq(started_query) {
        search.results = results;
        search.selection = None;
        search.selected_result = 0;
    }
}

/// The empty-query short circuit's state effect: an empty result list and
/// no highlight, nothing else touched.
pub fn clear_search_results(search: &mut SearchState)
    ensures
        final(search).results.deep_view() == Seq::<Seq<char>>::empty(),
        final(search).selection is None,
        final(search).selected_result == 0,
        final(search).query == old(search).query,
        final(search).selected_result_info == old(search).selected_result_info,
        final(search).source == old(search).source,
{
    let empty: Vec<String> = Vec::new();
    proof {
        assert(empty.deep_view() =~~= Seq::<Seq<char>>::empty());
    }
    search.results = empty;
    search.selection = None;
    search.selected_result = 0;
}

/// Record the detail text of the highlighted result.
pub fn commit_package_info(search: &mut SearchState, info: String)
    ensures
        *final(search) == (SearchState { selected_result_info: info, ..*old(search) }),
{
    search.selected_result_info = info;
}

/// Which pane a finished worker brings to the front, carrying its text:
/// package details and (un)install reports land on the results pane,
/// health and configuration on the about pane; the other kinds leave the
/// pane alone.
pub fn pane_for_task(command: &Command, text: String) -> (r: Option<Pane>)
    ensures
        *command == Command::PackageInfo || *command == Command::InstallPackage || command
            == Command::UninstallPackage ==> r == Some(Pane::SearchResults(text)),
        *command == Command::CheckHealth || *command == Command::Config ==> r == Some(
            Pane::About(text),
        ),
        *command == Command::FilterPackages || *command == Command::GeneralInfo || command
            == Command::UpdatePackage || *command == Command::Clean ==> r is None,
{
    match command {
        Command::PackageInfo => Some(Pane::SearchResults(text)),
        Command::InstallPackage => Some(Pane::SearchResults(text)),
        Command::UninstallPackage => Some(Pane::SearchResults(text)),
        Command::CheckHealth => Some(Pane::About(text)),
        Command::Config => Some(Pane::About(text)),
        Command::FilterPackages => None,
        Command::GeneralInfo => None,
        Command::UpdatePackage => None,
        Command::Clean => None,
    }
}

} // verus!
