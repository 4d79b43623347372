//! The package-manager side of the engine: the closed set of command
//! kinds, the capability contract a backend implements (the command-line
//! syntax of each operation), and the process-runner protocol that drains
//! a child's output and honours cancellation without leaking reader
//! threads.

use vstd::prelude::*;

pub mod homebrew;

verus! {

/// Where a package lives: already installed on this machine, or in the
/// backend's remote catalogue.
#[derive(Clone, Copy, PartialEq, Eq, Structural, Debug)]
pub enum PackageLocality {
    Local,
    Remote,
}

impl PackageLocality {
    pub open spec fn spec_label(self) -> Seq<char> {
        match self {
            PackageLocality::Local => "LOCAL"@,
            PackageLocality::Remote => "REMOTE"@,
        }
    }

    /// The status-bar text for this locality.
    pub fn label(&self) -> (r: &'static str)
        ensures
            r@ == self.spec_label(),
    {
        match self {
            PackageLocality::Local => "LOCAL",
            PackageLocality::Remote => "REMOTE",
        }
    }
}

/// A logical slot: the pool runs at most one worker per command kind.
#[derive(Clone, Copy, PartialEq, Eq, Hash, Structural, Debug)]
pub enum Command {
    FilterPackages,
    Config,
    PackageInfo,
    GeneralInfo,
    CheckHealth,
    InstallPackage,
    UninstallPackage,
    UpdatePackage,
    Clean,
}

/// How many command kinds there are, and hence how many slots the pool
/// keeps.
pub const COMMAND_KINDS: usize = 9;

impl Command {
    pub open spec fn spec_slot_index(self) -> int {
        match self {
            Command::FilterPackages => 0,
            Command::Config => 1,
            Command::PackageInfo => 2,
            Command::GeneralInfo => 3,
            Command::CheckHealth => 4,
            Command::InstallPackage => 5,
            Command::UninstallPackage => 6,
            Command::UpdatePackage => 7,
            Command::Clean => 8,
        }
    }

    /// The position of this kind's slot in the pool.
    pub fn slot_index(&self) -> (r: usize)
        ensures
            r == self.spec_slot_index(),
            r < COMMAND_KINDS,
    {
        match self {
            Command::FilterPackages => 0,
            Command::Config => 1,
            Command::PackageInfo => 2,
            Command::GeneralInfo => 3,
            Command::CheckHealth => 4,
            Command::InstallPackage => 5,
            Command::UninstallPackage => 6,
            Command::UpdatePackage => 7,
            Command::Clean => 8,
        }
    }
}

/// Two distinct command kinds never share a slot.
pub proof fn lemma_slot_index_injective(c1: Command, c2: Command)
    ensures
        c1.spec_slot_index() == c2.spec_slot_index() ==> c1 == c2,
{
}

/// The package managers this front-end knows how to drive.
#[derive(Debug, Clone)]
pub enum Backend {
    Homebrew,
    Pacman,
    Yay,
    Dnf,
    Apt,
    Winget,
}

impl Backend {
    pub open spec fn spec_alias(self) -> Seq<char> {
        match self {
            Backend::Homebrew => "brew"@,
            Backend::Pacman => "pacman"@,
            Backend::Yay => "yay"@,
            Backend::Dnf => "dnf"@,
            Backend::Apt => "apt"@,
            Backend::Winget => "winget"@,
        }
    }

    /// The name of the backend's command-line binary.
    pub fn alias(&self) -> (r: &'static str)
        ensures
            r@ == self.spec_alias(),
    {
        match self {
            Backend::Homebrew => "brew",
            Backend::Pacman => "pacman",
            Backend::Yay => "yay",
            Backend::Dnf => "dnf",
            Backend::Apt => "apt",
            Backend::Winget => "winget",
        }
    }

    pub open spec fn spec_name(self) -> Seq<char> {
        match self {
            Backend::Homebrew => "Homebrew"@,
            Backend::Pacman => "Pacman"@,
            Backend::Yay => "Yet Another Yogurt"@,
            Backend::Dnf => "Dandified YUM"@,
            Backend::Apt => "Advanced Package Tool"@,
            Backend::Winget => "Windows Package Manager"@,
        }
    }

    /// The backend's human-readable name.
    pub fn name(&self) -> (r: &'static str)
        ensures
            r@ == self.spec_name(),
    {
        match self {
            Backend::Homebrew => "Homebrew",
            Backend::Pacman => "Pacman",
            Backend::Yay => "Yet Another Yogurt",
            Backend::Dnf => "Dandified YUM",
            Backend::Apt => "Advanced Package Tool",
            Backend::Winget => "Windows Package Manager",
        }
    }
}

/// Every recognised alias maps to Homebrew: it is the one backend whose
/// syntax is wired up, and also the fallback for unknown names.
impl From<&str> for Backend {
    fn from(value: &str) -> (r: Backend) {
        Backend::Homebrew
    }
}

impl vstd::std_specs::convert::FromSpecImpl<&str> for Backend {
    open spec fn obeys_from_spec() -> bool {
        true
    }

    open spec fn from_spec(value: &str) -> Backend {
        Backend::Homebrew
    }
}

/// What a finished child process left behind: the accumulated text of
/// each of its two output streams, where a stream that could not be
/// captured is absent.
pub struct SpawnedCommandOutput {
    pub out: Option<String>,
    pub err: Option<String>,
}

/// What one capability operation tells the process runner to do: the
/// arguments handed to the backend's binary, and which of the child's two
/// streams carries the payload.
pub ghost struct CommandPlanView {
    pub args: Seq<Seq<char>>,
    pub read_stderr: bool,
}

/// The runnable form of one capability operation.
pub struct CommandPlan {
    pub args: Vec<String>,
    /// The payload is on standard error rather than standard output.
    pub read_stderr: bool,
}

impl View for CommandPlan {
    type V = CommandPlanView;

    open spec fn view(&self) -> CommandPlanView {
        CommandPlanView { args: self.args.deep_view(), read_stderr: self.read_stderr }
    }
}

/// The capability contract: everything the engine asks of a backend. A
/// backend knows only its own command-line syntax — for each operation it
/// says which arguments to run its binary with and where the payload
/// appears; running the child and interpreting the payload belong to the
/// engine. Each operation's plan is pinned down by a spec function so
/// that the task pool's contracts can speak about what a worker runs.
pub trait PackageManager: Sized {
    spec fn spec_alias(&self) -> Seq<char>;

    /// The name of the backend's command-line binary.
    fn alias(&self) -> (r: &'static str)
        ensures
            r@ == self.spec_alias(),
    ;

    spec fn spec_filter_packages(&self, source: PackageLocality, pattern: Seq<char>)
        -> CommandPlanView;

    /// List packages: the installed ones, or the remote ones matching the
    /// pattern.
    fn filter_packages(&self, source: PackageLocality, pattern: &str) -> (r: CommandPlan)
        ensures
            r@ == self.spec_filter_packages(source, pattern@),
    ;

    spec fn spec_package_manager_config(&self) -> CommandPlanView;

    /// Fetch the backend's configuration text.
    fn package_manager_config(&self) -> (r: CommandPlan)
        ensures
            r@ == self.spec_package_manager_config(),
    ;

    spec fn spec_package_info(&self, package_name: Seq<char>) -> CommandPlanView;

    /// Fetch one package's descriptive text.
    fn package_info(&self, package_name: &str) -> (r: CommandPlan)
        ensures
            r@ == self.spec_package_info(package_name@),
    ;

    spec fn spec_check_health(&self) -> CommandPlanView;

    /// Run the backend's health diagnostic.
    fn check_health(&self) -> (r: CommandPlan)
        ensures
            r@ == self.spec_check_health(),
    ;

    spec fn spec_clean(&self) -> CommandPlanView;

    /// Remove the backend's stale artifacts.
    fn clean(&self) -> (r: CommandPlan)
        ensures
            r@ == self.spec_clean(),
    ;

    spec fn spec_install_package(&self, package_name: Seq<char>) -> CommandPlanView;

    /// Install the named package.
    fn install_package(&self, package_name: &str) -> (r: CommandPlan)
        ensures
            r@ == self.spec_install_package(package_name@),
    ;

    spec fn spec_update_package(&self, package_name: Seq<char>) -> CommandPlanView;

    /// Upgrade the named package.
    fn update_package(&self, package_name: &str) -> (r: CommandPlan)
        ensures
            r@ == self.spec_update_package(package_name@),
    ;

    spec fn spec_uninstall_package(&self, package_name: Seq<char>) -> CommandPlanView;

    /// Uninstall the named package.
    fn uninstall_package(&self, package_name: &str) -> (r: CommandPlan)
        ensures
            r@ == self.spec_uninstall_package(package_name@),
    ;
}

/// How one run of a spawned command ended.
#[derive(Clone, Copy, PartialEq, Eq, Structural, Debug)]
pub enum RunnerVerdict {
    /// The poll loop is still going.
    Pending,
    /// The child exited on its own and both streams were drained.
    Completed,
    /// A stale notice arrived: the child was killed, the readers joined,
    /// and the run yields no result.
    Cancelled,
}

/// What one turn of the poll loop observed: the child's exit, a message
/// on the cancellation channel (`true` means the run is stale), or
/// neither.
#[derive(Clone, Copy, PartialEq, Eq, Structural, Debug)]
pub enum PollEvent {
    ChildExited,
    StaleNotice(bool),
    Nothing,
}

/// What the loop must do next. `CollectStreams` receives the accumulated
/// text of both streams, which waits for both reader threads to finish;
/// `KillChildAndJoinReaders` terminates the child and then joins both
/// reader threads. Either way no reader thread outlives the run.
#[derive(Clone, Copy, PartialEq, Eq, Structural, Debug)]
pub enum PollAction {
    CollectStreams,
    KillChildAndJoinReaders,
    KeepPolling,
}

/// The book-keeping of one run of a spawned command. The loop that owns
/// the child repeatedly observes a `PollEvent`, steps this machine, and
/// performs the returned `PollAction`; the machine's state records what
/// the actions performed so far have established.
pub struct RunnerState {
    pub verdict: RunnerVerdict,
    /// The child exited on its own.
    pub child_exited: bool,
    /// The child was forcibly terminated.
    pub child_killed: bool,
    /// The thread draining standard output has been joined or its
    /// accumulated text received, so it no longer runs.
    pub stdout_joined: bool,
    /// Likewise for the thread draining standard error.
    pub stderr_joined: bool,
}

impl RunnerState {
    /// What holds of the machine at every point: once a verdict is
    /// reached both reader threads are gone, a cancelled run has killed
    /// its child, and a completed run saw it exit.
    pub open spec fn wf(self) -> bool {
        &&& self.verdict != RunnerVerdict::Pending ==> self.stdout_joined && self.stderr_joined
        &&& self.verdict == RunnerVerdict::Cancelled ==> self.child_killed
        &&& self.verdict == RunnerVerdict::Completed ==> self.child_exited
        &&& self.verdict == RunnerVerdict::Pending ==> !self.stdout_joined && !self.stderr_joined
            && !self.child_killed
    }

    pub open spec fn spec_start() -> RunnerState {
        RunnerState {
            verdict: RunnerVerdict::Pending,
            child_exited: false,
            child_killed: false,
            stdout_joined: false,
            stderr_joined: false,
        }
    }

    /// A fresh machine for a child that was just spawned.
    pub fn start() -> (r: RunnerState)
        ensures
            r == Self::spec_start(),
            r.wf(),
    {
        RunnerState {
            verdict: RunnerVerdict::Pending,
            child_exited: false,
            child_killed: false,
            stdout_joined: false,
            stderr_joined: false,
        }
    }

    pub open spec fn spec_step(self, ev: PollEvent) -> RunnerState {
        match ev {
            PollEvent::ChildExited => RunnerState {
                verdict: RunnerVerdict::Completed,
                child_exited: true,
                stdout_joined: true,
                stderr_joined: true,
                ..self
            },
            PollEvent::StaleNotice(stale) => if stale {
                RunnerState {
                    verdict: RunnerVerdict::Cancelled,
                    child_killed: true,
                    stdout_joined: true,
                    stderr_joined: true,
                    ..self
                }
            } else {
                self
            },
            PollEvent::Nothing => self,
        }
    }

    /// One turn of the poll loop: decide from the observed event what to
    /// do, without ever blocking on the child itself.
    pub fn step(&mut self, ev: PollEvent) -> (action: PollAction)
        requires
            old(self).verdict == RunnerVerdict::Pending,
            old(self).wf(),
        ensures
            *final(self) == old(self).spec_step(ev),
            final(self).wf(),
            action == PollAction::CollectStreams <==> ev == PollEvent::ChildExited,
            action == PollAction::KillChildAndJoinReaders <==> ev == PollEvent::StaleNotice(true),
            action == PollAction::KeepPolling <==> final(self).verdict == RunnerVerdict::Pending,
    {
        match ev {
            PollEvent::ChildExited => {
                self.verdict = RunnerVerdict::Completed;
                self.child_exited = true;
                self.stdout_joined = true;
                self.stderr_joined = true;
                PollAction::CollectStreams
            },
            PollEvent::StaleNotice(stale) => {
                if stale {
                    self.verdict = RunnerVerdict::Cancelled;
                    self.child_killed = true;
                    self.stdout_joined = true;
                    self.stderr_joined = true;
                    PollAction::KillChildAndJoinReaders
                } else {
                    PollAction::KeepPolling
                }
            },
            PollEvent::Nothing => PollAction::KeepPolling,
        }
    }
}

/// The machine after a whole run: events are consumed in order until a
/// verdict is reached or they run out.
pub open spec fn run_poll_loop(s: RunnerState, events: Seq<PollEvent>) -> RunnerState
    decreases events.len(),
{
    if events.len() == 0 || s.verdict != RunnerVerdict::Pending {
        s
    } else {
        run_poll_loop(s.spec_step(events.first()), events.drop_first())
    }
}

/// Stepping keeps the machine well-formed.
pub proof fn lemma_step_preserves_wf(s: RunnerState, ev: PollEvent)
    requires
        s.wf(),
    ensures
        s.spec_step(ev).wf(),
{
}

/// No run leaks a reader thread: however the poll loop ends, if it
/// reached a verdict, both the stdout and the stderr reader have been
/// joined — in particular on cancellation, where the child was killed
/// mid-stream.
pub proof fn lemma_no_leaked_readers(s: RunnerState, events: Seq<PollEvent>)
    requires
        s.wf(),
    ensures
        run_poll_loop(s, events).wf(),
        run_poll_loop(s, events).verdict != RunnerVerdict::Pending ==> run_poll_loop(
            s,
            events,
        ).stdout_joined && run_poll_loop(s, events).stderr_joined,
    decreases events.len(),
{
    if events.len() == 0 || s.verdict != RunnerVerdict::Pending {
    } else {
        lemma_step_preserves_wf(s, events.first());
        lemma_no_leaked_readers(s.spec_step(events.first()), events.drop_first());
    }
}

/// The text a reader thread accumulates from a stream that yielded the
/// given lines: each line, in order, followed by a newline.
pub open spec fn join_lines(lines: Seq<Seq<char>>) -> Seq<char>
    decreases lines.len(),
{
    if lines.len() == 0 {
        Seq::empty()
    } else {
        lines.first() + seq!['\n'] + join_lines(lines.drop_first())
    }
}

pub proof fn lemma_join_lines_push(lines: Seq<Seq<char>>, line: Seq<char>)
    ensures
        join_lines(lines.push(line)) =~= join_lines(lines) + line + seq!['\n'],
    decreases lines.len(),
{
    if lines.len() == 0 {
        assert(lines.push(line).first() == line);
        assert(lines.push(line).drop_first() =~= lines);
    } else {
        assert(lines.push(line).first() == lines.first());
        assert(lines.push(line).drop_first() =~= lines.drop_first().push(line));
        lemma_join_lines_push(lines.drop_first(), line);
    }
}

/// Append one captured line to a stream's accumulated text, newline kept.
pub fn push_line(acc: &mut String, line: &str)
    ensures
        final(acc)@ == old(acc)@ + line@ + seq!['\n'],
{
    proof {
        reveal_strlit("\n");
    }
    acc.append(line);
    acc.append("\n");
    proof {
        assert("\n"@ =~= seq!['\n']);
    }
}

/// The whole text a reader thread hands back for a stream that yielded
/// the given lines.
#[verifier::loop_isolation(false)]
pub fn drain_lines(lines: &Vec<String>) -> (r: String)
    ensures
        r@ == join_lines(lines.deep_view()),
{
    let mut acc = String::new();
    let mut i: usize = 0;
    proof {
        assert(lines.deep_view().take(0) =~= Seq::<Seq<char>>::empty());
    }
    while i < lines.len()
        invariant
            i <= lines.len(),
            acc@ == join_lines(lines.deep_view().take(i as int)),
        decreases lines.len() - i,
    {
        let ghost prefix = lines.deep_view().take(i as int);
        proof {
            assert(lines.deep_view()[i as int] == lines[i as int]@);
            assert(lines.deep_view().take(i + 1) =~= prefix.push(lines[i as int]@));
            lemma_join_lines_push(prefix, lines[i as int]@);
        }
        push_line(&mut acc, lines[i].as_str());
        i = i + 1;
    }
    proof {
        assert(lines.deep_view().take(lines.len() as int) =~= lines.deep_view());
    }
    acc
}

/// The pieces of `s` between occurrences of `sep`, separators dropped,
/// empty pieces kept: the usual mathematical split.
pub open spec fn split_on(s: Seq<char>, sep: char) -> Seq<Seq<char>>
    decreases s.len(),
{
    if s.len() == 0 {
        seq![Seq::<char>::empty()]
    } else if s.first() == sep {
        seq![Seq::<char>::empty()] + split_on(s.drop_first(), sep)
    } else {
        let rest = split_on(s.drop_first(), sep);
        seq![seq![s.first()] + rest.first()] + rest.drop_first()
    }
}

/// A separator-free text splits into just itself.
pub proof fn lemma_split_on_no_sep(s: Seq<char>, sep: char)
    requires
        forall|i: int| 0 <= i < s.len() ==> s[i] != sep,
    ensures
        split_on(s, sep) =~~= seq![s],
    decreases s.len(),
{
    if s.len() == 0 {
        assert(split_on(s, sep) =~~= seq![s]);
    } else {
        lemma_split_on_no_sep(s.drop_first(), sep);
        let rest = split_on(s.drop_first(), sep);
        assert(rest =~~= seq![s.drop_first()]);
        assert(seq![s.first()] + rest.first() =~= s);
        assert(rest.drop_first() =~= Seq::<Seq<char>>::empty());
    }
}

/// Splitting at the first separator: everything before it is one piece,
/// and the rest splits on its own.
pub proof fn lemma_split_on_first_sep(s: Seq<char>, sep: char, i: int)
    requires
        0 <= i < s.len(),
        s[i] == sep,
        forall|j: int| 0 <= j < i ==> s[j] != sep,
    ensures
        split_on(s, sep) =~~= seq![s.take(i)] + split_on(s.skip(i + 1), sep),
    decreases i,
{
    if i == 0 {
        assert(s.take(0) =~= Seq::<char>::empty());
        assert(s.skip(1) =~= s.drop_first());
    } else {
        let d = s.drop_first();
        lemma_split_on_first_sep(d, sep, i - 1);
        let rest = split_on(d, sep);
        assert(rest =~~= seq![d.take(i - 1)] + split_on(d.skip(i), sep));
        assert(seq![s.first()] + rest.first() =~= s.take(i));
        assert(d.skip(i) =~= s.skip(i + 1));
        assert(rest.drop_first() =~~= split_on(s.skip(i + 1), sep));
    }
}

/// A split distributes over gluing a separator-free piece on the front.
pub proof fn lemma_split_on_append(a: Seq<char>, b: Seq<char>, sep: char)
    requires
        forall|i: int| 0 <= i < a.len() ==> a[i] != sep,
    ensures
        split_on(a + seq![sep] + b, sep) =~~= seq![a] + split_on(b, sep),
    decreases a.len(),
{
    let s = a + seq![sep] + b;
    if a.len() == 0 {
        assert(s.first() == sep);
        assert(s.drop_first() =~= b);
        assert(a =~= Seq::<char>::empty());
    } else {
        assert(s.first() == a.first());
        assert(s.first() != sep);
        assert(s.drop_first() =~= a.drop_first() + seq![sep] + b);
        lemma_split_on_append(a.drop_first(), b, sep);
        let rest = split_on(s.drop_first(), sep);
        assert(rest =~~= seq![a.drop_first()] + split_on(b, sep));
        assert(seq![s.first()] + rest.first() =~= a);
        assert(rest.drop_first() =~~= split_on(b, sep));
    }
}

pub open spec fn nonempty_line(l: Seq<char>) -> bool {
    l.len() > 0
}

/// The lines of a stream's accumulated text, blank lines dropped: how
/// the engine turns raw command output into a result list.
pub open spec fn parsed_lines(s: Seq<char>) -> Seq<Seq<char>> {
    split_on(s, '\n').filter(|l: Seq<char>| nonempty_line(l))
}

proof fn lemma_filter_singleton(x: Seq<char>, pred: spec_fn(Seq<char>) -> bool)
    ensures
        seq![x].filter(pred) =~~= if pred(x) {
            seq![x]
        } else {
            Seq::<Seq<char>>::empty()
        },
{
    reveal_with_fuel(Seq::filter, 2);
    assert(seq![x].drop_last() =~= Seq::<Seq<char>>::empty());
    assert(seq![x].last() == x);
    assert(Seq::<Seq<char>>::empty().filter(pred) =~~= Seq::<Seq<char>>::empty());
}

/// Split the accumulated text of a stream into its non-blank lines.
#[verifier::loop_isolation(false)]
pub fn parse_lines(out: &str) -> (r: Vec<String>)
    ensures
        r.deep_view() == parsed_lines(out@),
{
    let ghost pred = |l: Seq<char>| nonempty_line(l);
    let len = out.unicode_len();
    let mut r: Vec<String> = Vec::new();
    let mut start: usize = 0;
    proof {
        assert(r.deep_view() =~~= Seq::<Seq<char>>::empty());
        assert(out@.skip(0) =~= out@);
        assert(Seq::<Seq<char>>::empty() + parsed_lines(out@) =~~= parsed_lines(out@));
    }
    while start < len
        invariant
            start <= len,
            r.deep_view() + split_on(out@.skip(start as int), '\n').filter(pred) == parsed_lines(
                out@,
            ),
        decreases len - start,
    {
        let ghost suffix = out@.skip(start as int);
        let ghost r_before = r.deep_view();
        let mut j = start;
        while j < len && out.get_char(j) != '\n'
            invariant
                start <= j <= len,
                forall|k: int| start <= k < j ==> out@[k] != '\n',
            decreases len - j,
        {
            j = j + 1;
        }
        let segment = out.substring_char(start, j);
        proof {
            assert(segment@ =~= suffix.take(j - start));
        }
        if j > start {
            r.push(segment.to_owned());
            proof {
                assert(r.deep_view() =~~= r_before.push(segment@));
            }
        }
        proof {
            reveal(Seq::filter);
            if j < len {
                lemma_split_on_first_sep(suffix, '\n', j - start);
                assert(suffix.skip(j - start + 1) =~= out@.skip(j + 1));
                Seq::filter_distributes_over_add(
                    seq![segment@],
                    split_on(out@.skip(j + 1), '\n'),
                    pred,
                );
                lemma_filter_singleton(segment@, pred);
            } else {
                assert(forall|k: int| 0 <= k < suffix.len() ==> suffix[k] != '\n');
                lemma_split_on_no_sep(suffix, '\n');
                lemma_filter_singleton(suffix, pred);
                assert(out@.skip(len as int) =~= Seq::<char>::empty());
                lemma_filter_singleton(Seq::<char>::empty(), pred);
            }
        }
        start = if j < len {
            j + 1
        } else {
            len
        };
    }
    proof {
        reveal(Seq::filter);
        assert(out@.skip(len as int) =~= Seq::<char>::empty());
        lemma_filter_singleton(Seq::<char>::empty(), pred);
        assert(r.deep_view() + Seq::<Seq<char>>::empty() =~~= r.deep_view());
    }
    r
}

/// Accumulating lines and parsing them back round-trips: a child that
/// wrote the given non-blank, newline-free lines is read back exactly.
pub proof fn lemma_parse_of_join(lines: Seq<Seq<char>>)
    requires
        forall|i: int| 0 <= i < lines.len() ==> lines[i].len() > 0,
        forall|i: int, k: int|
            0 <= i < lines.len() && 0 <= k < lines[i].len() ==> lines[i][k] != '\n',
    ensures
        parsed_lines(join_lines(lines)) =~~= lines,
    decreases lines.len(),
{
    reveal(Seq::filter);
    if lines.len() == 0 {
        lemma_filter_singleton(Seq::<char>::empty(), |l: Seq<char>| nonempty_line(l));
    } else {
        let first = lines.first();
        let rest_text = join_lines(lines.drop_first());
        assert(join_lines(lines) == first + seq!['\n'] + rest_text);
        lemma_split_on_append(first, rest_text, '\n');
        Seq::filter_distributes_over_add(
            seq![first],
            split_on(rest_text, '\n'),
            |l: Seq<char>| nonempty_line(l),
        );
        lemma_filter_singleton(first, |l: Seq<char>| nonempty_line(l));
        lemma_parse_of_join(lines.drop_first());
        assert(parsed_lines(join_lines(lines)) =~~= seq![first] + lines.drop_first());
        assert(seq![first] + lines.drop_first() =~= lines);
    }
}

/// Cancellation terminates the child: a run can end `Cancelled` only
/// because a stale notice arrived, and then the child was killed before
/// the loop returned.
pub proof fn lemma_cancellation_kills_child(s: RunnerState, events: Seq<PollEvent>)
    requires
        s.wf(),
        s.verdict == RunnerVerdict::Pending,
    ensures
        run_poll_loop(s, events).verdict == RunnerVerdict::Cancelled ==> run_poll_loop(
            s,
            events,
        ).child_killed && exists|i: int|
            0 <= i < events.len() && events[i] == PollEvent::StaleNotice(true),
    decreases events.len(),
{
    if events.len() == 0 {
    } else {
        let s1 = s.spec_step(events.first());
        lemma_step_preserves_wf(s, events.first());
        if s1.verdict == RunnerVerdict::Pending {
            lemma_cancellation_kills_child(s1, events.drop_first());
            if run_poll_loop(s, events).verdict == RunnerVerdict::Cancelled {
                let j = choose|j: int|
                    0 <= j < events.drop_first().len() && events.drop_first()[j]
                        == PollEvent::StaleNotice(true);
                assert(events[j + 1] == PollEvent::StaleNotice(true));
            }
        } else {
            assert(run_poll_loop(s1, events.drop_first()) == s1);
            if s1.verdict == RunnerVerdict::Cancelled {
                assert(events[0] == PollEvent::StaleNotice(true));
            }
        }
    }
}

} // verus!
