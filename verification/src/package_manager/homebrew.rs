//! The Homebrew backend: the `brew` subcommands and flags behind each
//! capability operation, built as plain argument vectors with exact
//! contracts.

use vstd::prelude::*;

use crate::package_manager::{CommandPlan, CommandPlanView, PackageLocality, PackageManager};

verus! {

/// The backend that drives the `brew` command-line tool.
pub struct Homebrew;

/// A command-line flag of one of `brew`'s subcommands.
pub trait CommandFlag: Sized {
    spec fn spec_flag(self) -> Seq<char>;

    /// The flag's spelling on the command line.
    fn flag(&self) -> (r: &'static str)
        ensures
            r@ == self.spec_flag(),
    ;
}

pub open spec fn flags_of<F: CommandFlag>(options: Seq<F>) -> Seq<Seq<char>> {
    options.map_values(|o: F| o.spec_flag())
}

/// Append each option's flag to an argument vector.
#[verifier::loop_isolation(false)]
fn push_flags<F: CommandFlag>(args: &mut Vec<String>, options: &Vec<F>)
    ensures
        final(args).deep_view() == old(args).deep_view() + flags_of(options@),
{
    let ghost base = args.deep_view();
    let mut i: usize = 0;
    proof {
        assert(base + flags_of(options@.take(0)) =~~= base);
    }
    while i < options.len()
        invariant
            i <= options.len(),
            args.deep_view() == base + flags_of(options@.take(i as int)),
        decreases options.len() - i,
    {
        let ghost before = args.deep_view();
        args.push(options[i].flag().to_owned());
        proof {
            assert(args.deep_view() =~~= before.push(options@[i as int].spec_flag()));
            assert(base + flags_of(options@.take(i + 1)) =~~= before.push(
                options@[i as int].spec_flag(),
            ));
        }
        i = i + 1;
    }
    proof {
        assert(options@.take(options.len() as int) =~= options@);
    }
}

/// Append a list of names (packages, search terms) to an argument vector.
#[verifier::loop_isolation(false)]
fn push_names(args: &mut Vec<String>, names: &Vec<String>)
    ensures
        final(args).deep_view() == old(args).deep_view() + names.deep_view(),
{
    let ghost base = args.deep_view();
    let mut i: usize = 0;
    proof {
        assert(base + names.deep_view().take(0) =~~= base);
    }
    while i < names.len()
        invariant
            i <= names.len(),
            args.deep_view() == base + names.deep_view().take(i as int),
        decreases names.len() - i,
    {
        let ghost before = args.deep_view();
        args.push(names[i].clone());
        proof {
            assert(args.deep_view() =~~= before.push(names.deep_view()[i as int]));
            assert(base + names.deep_view().take(i + 1) =~~= before.push(
                names.deep_view()[i as int],
            ));
        }
        i = i + 1;
    }
    proof {
        assert(names.deep_view().take(names.len() as int) =~= names.deep_view());
    }
}

impl Homebrew {
    /// Display homebrew version
    pub fn brew_version() -> (r: Vec<String>)
        ensures
            r.deep_view() =~~= seq!["--version"@],
    {
        let mut args: Vec<String> = Vec::new();
        args.push("--version".to_owned());
        args
    }

    /// Install specified packages (casks/ formulae)
    pub fn brew_install(options: &Vec<InstallOption>, package_list: &Vec<String>) -> (r: Vec<
        String,
    >)
        ensures
            r.deep_view() =~~= seq!["install"@] + flags_of(options@) + package_list.deep_view(),
    {
        let mut args: Vec<String> = Vec::new();
        args.push("install".to_owned());
        proof {
            assert(args.deep_view() =~~= seq!["install"@]);
        }
        push_flags(&mut args, options);
        push_names(&mut args, package_list);
        args
    }

    /// Upgrade installed packages
    pub fn brew_upgrade(package_list: &Vec<String>) -> (r: Vec<String>)
        ensures
            r.deep_view() =~~= seq!["upgrade"@] + package_list.deep_view(),
    {
        let mut args: Vec<String> = Vec::new();
        args.push("upgrade".to_owned());
        proof {
            assert(args.deep_view() =~~= seq!["upgrade"@]);
        }
        push_names(&mut args, package_list);
        args
    }

    /// Uninstall specified packages (casks/ formulae)
    pub fn brew_uninstall(options: &Vec<UninstallOption>, package_list: &Vec<String>) -> (r: Vec<
        String,
    >)
        ensures
            r.deep_view() =~~= seq!["uninstall"@] + flags_of(options@) + package_list.deep_view(),
    {
        let mut args: Vec<String> = Vec::new();
        args.push("uninstall".to_owned());
        proof {
            assert(args.deep_view() =~~= seq!["uninstall"@]);
        }
        push_flags(&mut args, options);
        push_names(&mut args, package_list);
        args
    }

    /// List installed packages (casks/ formulae)
    pub fn brew_list() -> (r: Vec<String>)
        ensures
            r.deep_view() =~~= seq!["list"@],
    {
        let mut args: Vec<String> = Vec::new();
        args.push("list".to_owned());
        args
    }

    /// Search homebrew core for specified pattern
    pub fn brew_search(pattern: &str) -> (r: Vec<String>)
        ensures
            r.deep_view() =~~= seq!["search"@, pattern@],
    {
        let mut args: Vec<String> = Vec::new();
        args.push("search".to_owned());
        args.push(pattern.to_owned());
        args
    }

    /// Uninstall formulae that were only installed as a dependency
    /// of another formula and are now no longer needed
    pub fn brew_autoremove(dry_run: Option<AutoremoveOption>) -> (r: Vec<String>)
        ensures
            r.deep_view() =~~= match dry_run {
                Some(opt) => seq!["autoremove"@, opt.spec_flag()],
                None => seq!["autoremove"@],
            },
    {
        let mut args: Vec<String> = Vec::new();
        args.push("autoremove".to_owned());
        if let Some(opt) = dry_run {
            args.push(opt.flag().to_owned());
        }
        args
    }

    /// List all locally installable casks including short names
    pub fn brew_casks() -> (r: Vec<String>)
        ensures
            r.deep_view() =~~= seq!["casks"@],
    {
        let mut args: Vec<String> = Vec::new();
        args.push("casks".to_owned());
        args
    }

    /// List all locally installable formulae including short
    /// names
    pub fn brew_formulae() -> (r: Vec<String>)
        ensures
            r.deep_view() =~~= seq!["formulae"@],
    {
        let mut args: Vec<String> = Vec::new();
        args.push("formulae".to_owned());
        args
    }

    /// Remove stale lock files and outdated downloads for all
    /// formulae and casks, and remove old versions of installed
    /// formulae. If packages are specified, only do this for
    /// the given formulae and casks.
    pub fn brew_cleanup(options: &Vec<CleanupOption>, packages: &Vec<String>) -> (r: Vec<String>)
        ensures
            r.deep_view() =~~= seq!["cleanup"@] + flags_of(options@) + packages.deep_view(),
    {
        let mut args: Vec<String> = Vec::new();
        args.push("cleanup".to_owned());
        proof {
            assert(args.deep_view() =~~= seq!["cleanup"@]);
        }
        push_flags(&mut args, options);
        push_names(&mut args, packages);
        args
    }

    /// Control whether Homebrew automatically links external
    /// tap shell completion files
    pub fn brew_completions(subcommand: Option<CompletionsSubcommand>) -> (r: Vec<String>)
        ensures
            r.deep_view() =~~= match subcommand {
                Some(sub) => seq!["completions"@, sub.spec_flag()],
                None => seq!["completions"@],
            },
    {
        let mut args: Vec<String> = Vec::new();
        args.push("completions".to_owned());
        if let Some(sub) = subcommand {
            args.push(sub.flag().to_owned());
        }
        args
    }

    /// Show Homebrew and system configuration info useful
    /// for debugging
    pub fn brew_config() -> (r: Vec<String>)
        ensures
            r.deep_view() =~~= seq!["config"@],
    {
        let mut args: Vec<String> = Vec::new();
        args.push("config".to_owned());
        args
    }

    /// Display formula's name and one-line description
    pub fn brew_desc(options: &Vec<DescOption>, query: &Vec<String>) -> (r: Vec<String>)
        ensures
            r.deep_view() =~~= seq!["desc"@] + flags_of(options@) + query.deep_view(),
    {
        let mut args: Vec<String> = Vec::new();
        args.push("desc".to_owned());
        proof {
            assert(args.deep_view() =~~= seq!["desc"@]);
        }
        push_flags(&mut args, options);
        push_names(&mut args, query);
        args
    }

    /// Check your system for potential problems
    pub fn brew_doctor(options: &Vec<DoctorOption>) -> (r: Vec<String>)
        ensures
            r.deep_view() =~~= seq!["doctor"@] + flags_of(options@),
    {
        let mut args: Vec<String> = Vec::new();
        args.push("doctor".to_owned());
        proof {
            assert(args.deep_view() =~~= seq!["doctor"@]);
        }
        push_flags(&mut args, options);
        args
    }

    /// Open a formula or cask's homepage in a browser, or
    /// open Homebrew's own homepage if no query is provided
    pub fn brew_home(option: Option<HomeOption>, query: &Vec<String>) -> (r: Vec<String>)
        ensures
            r.deep_view() =~~= match option {
                Some(opt) => seq!["home"@, opt.spec_flag()] + query.deep_view(),
                None => seq!["home"@] + query.deep_view(),
            },
    {
        let mut args: Vec<String> = Vec::new();
        args.push("home".to_owned());
        if let Some(opt) = option {
            args.push(opt.flag().to_owned());
            proof {
                assert(args.deep_view() =~~= seq!["home"@, opt.spec_flag()]);
            }
        } else {
            proof {
                assert(args.deep_view() =~~= seq!["home"@]);
            }
        }
        push_names(&mut args, query);
        args
    }

    /// Display brief statistics for your Homebrew installation
    ///
    /// If a formula or cask is provided, show summary of
    /// information about it
    pub fn brew_info(options: &Vec<InfoOption>, query: &Vec<String>) -> (r: Vec<String>)
        ensures
            r.deep_view() =~~= seq!["info"@] + flags_of(options@) + query.deep_view(),
    {
        let mut args: Vec<String> = Vec::new();
        args.push("info".to_owned());
        proof {
            assert(args.deep_view() =~~= seq!["info"@]);
        }
        push_flags(&mut args, options);
        push_names(&mut args, query);
        args
    }
}

impl PackageManager for Homebrew {
    open spec fn spec_alias(&self) -> Seq<char> {
        "brew"@
    }

    fn alias(&self) -> (r: &'static str) {
        "brew"
    }

    open spec fn spec_filter_packages(&self, source: PackageLocality, pattern: Seq<char>)
        -> CommandPlanView {
        match source {
            PackageLocality::Local => CommandPlanView { args: seq!["list"@], read_stderr: false },
            PackageLocality::Remote => CommandPlanView {
                args: seq!["search"@, pattern],
                read_stderr: false,
            },
        }
    }

    fn filter_packages(&self, source: PackageLocality, pattern: &str) -> (r: CommandPlan) {
        match source {
            PackageLocality::Local => CommandPlan { args: Self::brew_list(), read_stderr: false },
            PackageLocality::Remote => CommandPlan {
                args: Self::brew_search(pattern),
                read_stderr: false,
            },
        }
    }

    open spec fn spec_package_manager_config(&self) -> CommandPlanView {
        CommandPlanView { args: seq!["config"@], read_stderr: false }
    }

    fn package_manager_config(&self) -> (r: CommandPlan) {
        CommandPlan { args: Self::brew_config(), read_stderr: false }
    }

    open spec fn spec_package_info(&self, package_name: Seq<char>) -> CommandPlanView {
        CommandPlanView {
            args: seq!["desc"@, "--search"@, "--eval-all"@, package_name],
            read_stderr: false,
        }
    }

    fn package_info(&self, package_name: &str) -> (r: CommandPlan) {
        let mut options: Vec<DescOption> = Vec::new();
        options.push(DescOption::Search);
        options.push(DescOption::EvalAll);
        let mut query: Vec<String> = Vec::new();
        query.push(package_name.to_owned());
        let args = Self::brew_desc(&options, &query);
        proof {
            assert(flags_of(options@) =~~= seq!["--search"@, "--eval-all"@]);
            assert(query.deep_view() =~~= seq![package_name@]);
            assert(args.deep_view() =~~= seq!["desc"@, "--search"@, "--eval-all"@, package_name@]);
        }
        CommandPlan { args, read_stderr: false }
    }

    open spec fn spec_check_health(&self) -> CommandPlanView {
        CommandPlanView { args: seq!["doctor"@], read_stderr: true }
    }

    fn check_health(&self) -> (r: CommandPlan) {
        let options: Vec<DoctorOption> = Vec::new();
        let args = Self::brew_doctor(&options);
        proof {
            assert(flags_of(options@) =~~= Seq::<Seq<char>>::empty());
            assert(args.deep_view() =~~= seq!["doctor"@]);
        }
        // `brew doctor` writes its findings to standard error.
        CommandPlan { args, read_stderr: true }
    }

    open spec fn spec_clean(&self) -> CommandPlanView {
        CommandPlanView { args: seq!["cleanup"@], read_stderr: false }
    }

    fn clean(&self) -> (r: CommandPlan) {
        let options: Vec<CleanupOption> = Vec::new();
        let packages: Vec<String> = Vec::new();
        let args = Self::brew_cleanup(&options, &packages);
        proof {
            assert(flags_of(options@) =~~= Seq::<Seq<char>>::empty());
            assert(packages.deep_view() =~~= Seq::<Seq<char>>::empty());
            assert(args.deep_view() =~~= seq!["cleanup"@]);
        }
        CommandPlan { args, read_stderr: false }
    }

    open spec fn spec_install_package(&self, package_name: Seq<char>) -> CommandPlanView {
        CommandPlanView { args: seq!["install"@, package_name], read_stderr: false }
    }

    fn install_package(&self, package_name: &str) -> (r: CommandPlan) {
        let options: Vec<InstallOption> = Vec::new();
        let mut packages: Vec<String> = Vec::new();
        packages.push(package_name.to_owned());
        let args = Self::brew_install(&options, &packages);
        proof {
            assert(flags_of(options@) =~~= Seq::<Seq<char>>::empty());
            assert(packages.deep_view() =~~= seq![package_name@]);
            assert(args.deep_view() =~~= seq!["install"@, package_name@]);
        }
        CommandPlan { args, read_stderr: false }
    }

    open spec fn spec_update_package(&self, package_name: Seq<char>) -> CommandPlanView {
        CommandPlanView { args: seq!["upgrade"@, package_name], read_stderr: false }
    }

    fn update_package(&self, package_name: &str) -> (r: CommandPlan) {
        let mut packages: Vec<String> = Vec::new();
        packages.push(package_name.to_owned());
        let args = Self::brew_upgrade(&packages);
        proof {
            assert(packages.deep_view() =~~= seq![package_name@]);
            assert(args.deep_view() =~~= seq!["upgrade"@, package_name@]);
        }
        CommandPlan { args, read_stderr: false }
    }

    open spec fn spec_uninstall_package(&self, package_name: Seq<char>) -> CommandPlanView {
        CommandPlanView { args: seq!["uninstall"@, package_name], read_stderr: false }
    }

    fn uninstall_package(&self, package_name: &str) -> (r: CommandPlan) {
        let options: Vec<UninstallOption> = Vec::new();
        let mut packages: Vec<String> = Vec::new();
        packages.push(package_name.to_owned());
        let args = Self::brew_uninstall(&options, &packages);
        proof {
            assert(flags_of(options@) =~~= Seq::<Seq<char>>::empty());
            assert(packages.deep_view() =~~= seq![package_name@]);
            assert(args.deep_view() =~~= seq!["uninstall"@, package_name@]);
        }
        CommandPlan { args, read_stderr: false }
    }
}

pub enum AutoremoveOption {
    DryRun,
}

impl CommandFlag for AutoremoveOption {
    open spec fn spec_flag(self) -> Seq<char> {
        match self {
            AutoremoveOption::DryRun => "--dry-run"@,
        }
    }

    fn flag(&self) -> (r: &'static str) {
        match self {
            AutoremoveOption::DryRun => "--dry-run",
        }
    }
}

pub enum CleanupOption {
    Prune,
    DryRun,
    Scrub,
    PrunePrefix,
}

impl CommandFlag for CleanupOption {
    open spec fn spec_flag(self) -> Seq<char> {
        match self {
            CleanupOption::Prune => "--prune"@,
            CleanupOption::DryRun => "--dry-run"@,
            CleanupOption::Scrub => "--scrub"@,
            CleanupOption::PrunePrefix => "--prune-prefix"@,
        }
    }

    fn flag(&self) -> (r: &'static str) {
        match self {
            CleanupOption::Prune => "--prune",
            CleanupOption::DryRun => "--dry-run",
            CleanupOption::Scrub => "--scrub",
            CleanupOption::PrunePrefix => "--prune-prefix",
        }
    }
}

pub enum CompletionsSubcommand {
    Link,
    Unlink,
}

impl CommandFlag for CompletionsSubcommand {
    open spec fn spec_flag(self) -> Seq<char> {
        match self {
            CompletionsSubcommand::Link => "link"@,
            CompletionsSubcommand::Unlink => "unlink"@,
        }
    }

    fn flag(&self) -> (r: &'static str) {
        match self {
            CompletionsSubcommand::Link => "link",
            CompletionsSubcommand::Unlink => "unlink",
        }
    }
}

pub enum DescOption {
    Search,
    Name,
    Description,
    EvalAll,
    Formula,
    Cask,
}

impl CommandFlag for DescOption {
    open spec fn spec_flag(self) -> Seq<char> {
        match self {
            DescOption::Search => "--search"@,
            DescOption::Name => "--name"@,
            DescOption::Description => "--description"@,
            DescOption::EvalAll => "--eval-all"@,
            DescOption::Formula => "--formula"@,
            DescOption::Cask => "--cask"@,
        }
    }

    fn flag(&self) -> (r: &'static str) {
        match self {
            DescOption::Search => "--search",
            DescOption::Name => "--name",
            DescOption::Description => "--description",
            DescOption::EvalAll => "--eval-all",
            DescOption::Formula => "--formula",
            DescOption::Cask => "--cask",
        }
    }
}

pub enum DoctorOption {
    ListChecks,
    AuditDebug,
}

impl CommandFlag for DoctorOption {
    open spec fn spec_flag(self) -> Seq<char> {
        match self {
            DoctorOption::ListChecks => "--list-checks"@,
            DoctorOption::AuditDebug => "--audit-debug"@,
        }
    }

    fn flag(&self) -> (r: &'static str) {
        match self {
            DoctorOption::ListChecks => "--list-checks",
            DoctorOption::AuditDebug => "--audit-debug",
        }
    }
}

pub enum HomeOption {
    Formula,
    Cask,
}

impl CommandFlag for HomeOption {
    open spec fn spec_flag(self) -> Seq<char> {
        match self {
            HomeOption::Formula => "--formula"@,
            HomeOption::Cask => "--cask"@,
        }
    }

    fn flag(&self) -> (r: &'static str) {
        match self {
            HomeOption::Formula => "--formula",
            HomeOption::Cask => "--cask",
        }
    }
}

pub enum InfoOption {
    Analytics,
    Days,
    Category,
    Github,
    FetchManifest,
    Json,
    Installed,
    EvalAll,
    Variations,
    Verbose,
    Formula,
    Cask,
}

impl CommandFlag for InfoOption {
    open spec fn spec_flag(self) -> Seq<char> {
        match self {
            InfoOption::Analytics => "--analytics"@,
            InfoOption::Days => "--days"@,
            InfoOption::Category => "--category"@,
            InfoOption::Github => "--github"@,
            InfoOption::FetchManifest => "--fetch-manifest"@,
            InfoOption::Json => "--json"@,
            InfoOption::Installed => "--installed"@,
            InfoOption::EvalAll => "--eval-all"@,
            InfoOption::Variations => "--variations"@,
            InfoOption::Verbose => "--verbose"@,
            InfoOption::Formula => "--formula"@,
            InfoOption::Cask => "--cask"@,
        }
    }

    fn flag(&self) -> (r: &'static str) {
        match self {
            InfoOption::Analytics => "--analytics",
            InfoOption::Days => "--days",
            InfoOption::Category => "--category",
            InfoOption::Github => "--github",
            InfoOption::FetchManifest => "--fetch-manifest",
            InfoOption::Json => "--json",
            InfoOption::Installed => "--installed",
            InfoOption::EvalAll => "--eval-all",
            InfoOption::Variations => "--variations",
            InfoOption::Verbose => "--verbose",
            InfoOption::Formula => "--formula",
            InfoOption::Cask => "--cask",
        }
    }
}

pub enum InstallOption {
    Debug,
    DisplayTimes,
    Force,
    Verbose,
    DryRun,
    Ask,
    Formula,
    IgnoreDependencies,
    OnlyDependencies,
    Cc,
    BuildFromSource,
    ForceBottle,
    IncludeTest,
    Head,
    FetchHead,
    KeepTmp,
    DebugSymbols,
    BuildBottle,
    SkipPostInstall,
    SkipLink,
    AsDependency,
    BottleArch,
    Interactive,
    Git,
    Overwrite,
    Cask,
    NoBinaries,
    Binaries,
    RequireSHA,
    Quarantine,
    Adopt,
    SkipCaskDeps,
    Zap,
}

impl CommandFlag for InstallOption {
    open spec fn spec_flag(self) -> Seq<char> {
        match self {
            InstallOption::Debug => "--debug"@,
            InstallOption::DisplayTimes => "--display-times"@,
            InstallOption::Force => "--force"@,
            InstallOption::Verbose => "--verbose"@,
            InstallOption::DryRun => "--dry-run"@,
            InstallOption::Ask => "--ask"@,
            InstallOption::Formula => "--formula"@,
            InstallOption::IgnoreDependencies => "--ignore-dependencies"@,
            InstallOption::OnlyDependencies => "--only-dependencies"@,
            InstallOption::Cc => "--cc"@,
            InstallOption::BuildFromSource => "--build-from-source"@,
            InstallOption::ForceBottle => "--force-bottle"@,
            InstallOption::IncludeTest => "--include-test"@,
            InstallOption::Head => "--HEAD"@,
            InstallOption::FetchHead => "--fetch-head"@,
            InstallOption::KeepTmp => "--keep-tmp"@,
            InstallOption::DebugSymbols => "--debug-symbols"@,
            InstallOption::BuildBottle => "--build-bottle"@,
            InstallOption::SkipPostInstall => "--skip-post-install"@,
            InstallOption::SkipLink => "--skip-link"@,
            InstallOption::AsDependency => "--as-dependency"@,
            InstallOption::BottleArch => "--bottle-arch"@,
            InstallOption::Interactive => "--interactive"@,
            InstallOption::Git => "--git"@,
            InstallOption::Overwrite => "--overwrite"@,
            InstallOption::Cask => "--cask"@,
            InstallOption::NoBinaries => "--no-binaries"@,
            InstallOption::Binaries => "--binaries"@,
            InstallOption::RequireSHA => "--require-sha"@,
            InstallOption::Quarantine => "--quarantine"@,
            InstallOption::Adopt => "--adopt"@,
            InstallOption::SkipCaskDeps => "--skip-cask-deps"@,
            InstallOption::Zap => "--zap"@,
        }
    }

    fn flag(&self) -> (r: &'static str) {
        match self {
            InstallOption::Debug => "--debug",
            InstallOption::DisplayTimes => "--display-times",
            InstallOption::Force => "--force",
            InstallOption::Verbose => "--verbose",
            InstallOption::DryRun => "--dry-run",
            InstallOption::Ask => "--ask",
            InstallOption::Formula => "--formula",
            InstallOption::IgnoreDependencies => "--ignore-dependencies",
            InstallOption::OnlyDependencies => "--only-dependencies",
            InstallOption::Cc => "--cc",
            InstallOption::BuildFromSource => "--build-from-source",
            InstallOption::ForceBottle => "--force-bottle",
            InstallOption::IncludeTest => "--include-test",
            InstallOption::Head => "--HEAD",
            InstallOption::FetchHead => "--fetch-head",
            InstallOption::KeepTmp => "--keep-tmp",
            InstallOption::DebugSymbols => "--debug-symbols",
            InstallOption::BuildBottle => "--build-bottle",
            InstallOption::SkipPostInstall => "--skip-post-install",
            InstallOption::SkipLink => "--skip-link",
            InstallOption::AsDependency => "--as-dependency",
            InstallOption::BottleArch => "--bottle-arch",
            InstallOption::Interactive => "--interactive",
            InstallOption::Git => "--git",
            InstallOption::Overwrite => "--overwrite",
            InstallOption::Cask => "--cask",
            InstallOption::NoBinaries => "--no-binaries",
            InstallOption::Binaries => "--binaries",
            InstallOption::RequireSHA => "--require-sha",
            InstallOption::Quarantine => "--quarantine",
            InstallOption::Adopt => "--adopt",
            InstallOption::SkipCaskDeps => "--skip-cask-deps",
            InstallOption::Zap => "--zap",
        }
    }
}

pub enum UninstallOption {
    Force,
    Zap,
    IgnoreDependencies,
    Formula,
    Cask,
}

impl CommandFlag for UninstallOption {
    open spec fn spec_flag(self) -> Seq<char> {
        match self {
            UninstallOption::Force => "--force"@,
            UninstallOption::Zap => "--zap"@,
            UninstallOption::IgnoreDependencies => "--ignore-dependencies"@,
            UninstallOption::Formula => "--formula"@,
            UninstallOption::Cask => "--cask"@,
        }
    }

    fn flag(&self) -> (r: &'static str) {
        match self {
            UninstallOption::Force => "--force",
            UninstallOption::Zap => "--zap",
            UninstallOption::IgnoreDependencies => "--ignore-dependencies",
            UninstallOption::Formula => "--formula",
            UninstallOption::Cask => "--cask",
        }
    }
}

} // verus!
