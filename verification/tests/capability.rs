//! The Homebrew backend's command-line syntax.

use wherehouse::package_manager::Backend;
use wherehouse::package_manager::PackageLocality;
use wherehouse::package_manager::PackageManager;
use wherehouse::package_manager::homebrew::AutoremoveOption;
use wherehouse::package_manager::homebrew::CleanupOption;
use wherehouse::package_manager::homebrew::CommandFlag;
use wherehouse::package_manager::homebrew::CompletionsSubcommand;
use wherehouse::package_manager::homebrew::DescOption;
use wherehouse::package_manager::homebrew::DoctorOption;
use wherehouse::package_manager::homebrew::HomeOption;
use wherehouse::package_manager::homebrew::Homebrew;
use wherehouse::package_manager::homebrew::InfoOption;
use wherehouse::package_manager::homebrew::InstallOption;
use wherehouse::package_manager::homebrew::UninstallOption;

fn strings(args: &[&str]) -> Vec<String> {
    args.iter().map(|a| a.to_string()).collect()
}

#[test]
fn remote_filter_searches_for_the_pattern() {
    let plan = Homebrew.filter_packages(PackageLocality::Remote, "wget");
    assert_eq!(plan.args, strings(&["search", "wget"]));
    assert!(!plan.read_stderr);
}

#[test]
fn local_filter_lists_installed_packages() {
    let plan = Homebrew.filter_packages(PackageLocality::Local, "wget");
    assert_eq!(plan.args, strings(&["list"]));
    assert!(!plan.read_stderr);
}

#[test]
fn package_info_searches_descriptions() {
    let plan = Homebrew.package_info("wget");
    assert_eq!(plan.args, strings(&["desc", "--search", "--eval-all", "wget"]));
    assert!(!plan.read_stderr);
}

#[test]
fn check_health_reads_the_doctor_on_stderr() {
    let plan = Homebrew.check_health();
    assert_eq!(plan.args, strings(&["doctor"]));
    assert!(plan.read_stderr);
}

#[test]
fn config_install_update_uninstall_clean_syntax() {
    assert_eq!(Homebrew.package_manager_config().args, strings(&["config"]));
    assert_eq!(Homebrew.install_package("wget").args, strings(&["install", "wget"]));
    assert_eq!(Homebrew.update_package("wget").args, strings(&["upgrade", "wget"]));
    assert_eq!(Homebrew.uninstall_package("wget").args, strings(&["uninstall", "wget"]));
    assert_eq!(Homebrew.clean().args, strings(&["cleanup"]));
}

#[test]
fn builders_interleave_flags_and_names() {
    let install = Homebrew::brew_install(
        &vec![InstallOption::Force, InstallOption::Verbose],
        &strings(&["wget", "curl"]),
    );
    assert_eq!(install, strings(&["install", "--force", "--verbose", "wget", "curl"]));

    let uninstall = Homebrew::brew_uninstall(&vec![UninstallOption::Zap], &strings(&["wget"]));
    assert_eq!(uninstall, strings(&["uninstall", "--zap", "wget"]));

    let cleanup = Homebrew::brew_cleanup(&vec![CleanupOption::DryRun], &strings(&["wget"]));
    assert_eq!(cleanup, strings(&["cleanup", "--dry-run", "wget"]));

    let desc = Homebrew::brew_desc(
        &vec![DescOption::Search, DescOption::EvalAll],
        &strings(&["wget"]),
    );
    assert_eq!(desc, strings(&["desc", "--search", "--eval-all", "wget"]));

    let doctor = Homebrew::brew_doctor(&vec![DoctorOption::ListChecks]);
    assert_eq!(doctor, strings(&["doctor", "--list-checks"]));

    let info = Homebrew::brew_info(&vec![InfoOption::Json], &strings(&["wget"]));
    assert_eq!(info, strings(&["info", "--json", "wget"]));

    let upgrade = Homebrew::brew_upgrade(&strings(&["wget"]));
    assert_eq!(upgrade, strings(&["upgrade", "wget"]));
}

#[test]
fn simple_builders() {
    assert_eq!(Homebrew::brew_version(), strings(&["--version"]));
    assert_eq!(Homebrew::brew_list(), strings(&["list"]));
    assert_eq!(Homebrew::brew_search("wget"), strings(&["search", "wget"]));
    assert_eq!(Homebrew::brew_casks(), strings(&["casks"]));
    assert_eq!(Homebrew::brew_formulae(), strings(&["formulae"]));
    assert_eq!(Homebrew::brew_config(), strings(&["config"]));
    assert_eq!(
        Homebrew::brew_autoremove(Some(AutoremoveOption::DryRun)),
        strings(&["autoremove", "--dry-run"])
    );
    assert_eq!(Homebrew::brew_autoremove(None), strings(&["autoremove"]));
    assert_eq!(
        Homebrew::brew_completions(Some(CompletionsSubcommand::Link)),
        strings(&["completions", "link"])
    );
    assert_eq!(Homebrew::brew_completions(None), strings(&["completions"]));
    assert_eq!(
        Homebrew::brew_home(Some(HomeOption::Cask), &strings(&["wget"])),
        strings(&["home", "--cask", "wget"])
    );
    assert_eq!(Homebrew::brew_home(None, &strings(&[])), strings(&["home"]));
}

#[test]
fn every_install_flag_spells_itself() {
    assert_eq!(InstallOption::Head.flag(), "--HEAD");
    assert_eq!(InstallOption::IgnoreDependencies.flag(), "--ignore-dependencies");
    assert_eq!(InstallOption::RequireSHA.flag(), "--require-sha");
    assert_eq!(InstallOption::SkipCaskDeps.flag(), "--skip-cask-deps");
    assert_eq!(UninstallOption::Force.flag(), "--force");
    assert_eq!(CleanupOption::PrunePrefix.flag(), "--prune-prefix");
    assert_eq!(DoctorOption::AuditDebug.flag(), "--audit-debug");
    assert_eq!(InfoOption::FetchManifest.flag(), "--fetch-manifest");
    assert_eq!(DescOption::Description.flag(), "--description");
    assert_eq!(HomeOption::Formula.flag(), "--formula");
}

#[test]
fn backend_aliases_and_names() {
    assert_eq!(Backend::Homebrew.alias(), "brew");
    assert_eq!(Backend::Pacman.alias(), "pacman");
    assert_eq!(Backend::Winget.alias(), "winget");
    assert_eq!(Backend::Homebrew.name(), "Homebrew");
    assert_eq!(Backend::Yay.name(), "Yet Another Yogurt");
    assert_eq!(Backend::Dnf.name(), "Dandified YUM");
    assert_eq!(Backend::Apt.name(), "Advanced Package Tool");
    assert!(matches!(Backend::from("brew"), Backend::Homebrew));
    assert!(matches!(Backend::from("homebrew"), Backend::Homebrew));
    assert!(matches!(Backend::from("anything else"), Backend::Homebrew));
    assert_eq!(Homebrew.alias(), "brew");
}
