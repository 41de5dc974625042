use dotctl::bootstrap::{install_command, requires_sudo, script_command, sudo_managers};
use dotctl::manifest::{Package, PackageManager};

fn pkg(manager: PackageManager, name: &str) -> Package {
    Package { manager, name: name.to_string() }
}

#[test]
fn sudo_is_required_for_system_managers_only() {
    assert!(requires_sudo(&PackageManager::Apt));
    assert!(requires_sudo(&PackageManager::Pacman));
    assert!(requires_sudo(&PackageManager::Dnf));
    assert!(!requires_sudo(&PackageManager::Brew));
    assert!(!requires_sudo(&PackageManager::Flatpak));
}

#[test]
fn install_command_per_manager() {
    let (argv, sudo) = install_command(&pkg(PackageManager::Apt, "ripgrep"));
    assert_eq!(argv, vec!["apt", "install", "ripgrep"]);
    assert!(sudo);

    let (argv, sudo) = install_command(&pkg(PackageManager::Brew, "jq"));
    assert_eq!(argv, vec!["brew", "install", "jq"]);
    assert!(!sudo);

    let (argv, sudo) = install_command(&pkg(PackageManager::Flatpak, "org.gimp.GIMP"));
    assert_eq!(argv, vec!["flatpak", "install", "--noninteractive", "org.gimp.GIMP"]);
    assert!(!sudo);

    let (argv, sudo) = install_command(&pkg(PackageManager::Pacman, "fd"));
    assert_eq!(argv, vec!["pacman", "-S", "fd"]);
    assert!(sudo);

    let (argv, sudo) = install_command(&pkg(PackageManager::Dnf, "bat"));
    assert_eq!(argv, vec!["dnf", "install", "bat"]);
    assert!(sudo);
}

#[test]
fn shell_scripts_run_through_bash() {
    let argv = script_command(&"setup/install.sh".to_string());
    assert_eq!(argv, vec!["bash", "setup/install.sh"]);
}

#[test]
fn other_scripts_run_directly() {
    let argv = script_command(&"setup/install.py".to_string());
    assert_eq!(argv, vec!["setup/install.py"]);
    let argv = script_command(&"sh".to_string());
    assert_eq!(argv, vec!["sh"]);
}

#[test]
fn a_name_of_exactly_dot_sh_has_no_extension_and_runs_directly() {
    let argv = script_command(&".sh".to_string());
    assert_eq!(argv, vec![".sh"]);
    let argv = script_command(&"setup/.sh".to_string());
    assert_eq!(argv, vec!["setup/.sh"]);
}

#[test]
fn trailing_separators_do_not_hide_the_extension() {
    let argv = script_command(&"setup/install.sh/".to_string());
    assert_eq!(argv, vec!["bash", "setup/install.sh/"]);
}

#[test]
fn dotted_stem_still_counts_as_shell_script() {
    let argv = script_command(&"setup/.env.sh".to_string());
    assert_eq!(argv, vec!["bash", "setup/.env.sh"]);
}

#[test]
fn sudo_managers_deduplicates_and_filters() {
    let packages = vec![
        pkg(PackageManager::Apt, "a"),
        pkg(PackageManager::Brew, "b"),
        pkg(PackageManager::Apt, "c"),
        pkg(PackageManager::Dnf, "d"),
    ];
    let managers = sudo_managers(&packages);
    assert_eq!(managers.len(), 2);
    assert!(managers.contains(&PackageManager::Apt));
    assert!(managers.contains(&PackageManager::Dnf));
    assert!(!managers.contains(&PackageManager::Brew));
}

#[test]
fn manager_names() {
    assert_eq!(PackageManager::Apt.name(), "apt");
    assert_eq!(PackageManager::Brew.name(), "brew");
    assert_eq!(PackageManager::Flatpak.name(), "flatpak");
    assert_eq!(PackageManager::Pacman.name(), "pacman");
    assert_eq!(PackageManager::Dnf.name(), "dnf");
}
