//! Decisions of the bootstrap subsystem: which package managers need sudo,
//! which command line installs a package, and how a setup script is invoked.
//! Running the resulting commands is subprocess work and stays outside the
//! library.

use vstd::prelude::*;
use crate::manifest::{Package, PackageManager};
use crate::paths::{last_index_of, lemma_last_index_of};

verus! {

/// Whether installing through this package manager needs sudo privileges.
pub open spec fn spec_requires_sudo(manager: PackageManager) -> bool {
    manager == PackageManager::Apt || manager == PackageManager::Pacman
        || manager == PackageManager::Dnf
}

/// The short command name of a package manager.
pub open spec fn spec_manager_name(manager: PackageManager) -> Seq<char> {
    match manager {
        PackageManager::Apt => "apt"@,
        PackageManager::Brew => "brew"@,
        PackageManager::Flatpak => "flatpak"@,
        PackageManager::Pacman => "pacman"@,
        PackageManager::Dnf => "dnf"@,
    }
}

/// The argument vector that installs `name` through `manager`, without any
/// sudo prefix.
pub open spec fn spec_install_argv(manager: PackageManager, name: Seq<char>) -> Seq<Seq<char>> {
    match manager {
        PackageManager::Apt => seq!["apt"@, "install"@, name],
        PackageManager::Brew => seq!["brew"@, "install"@, name],
        PackageManager::Flatpak => seq!["flatpak"@, "install"@, "--noninteractive"@, name],
        PackageManager::Pacman => seq!["pacman"@, "-S"@, name],
        PackageManager::Dnf => seq!["dnf"@, "install"@, name],
    }
}

impl PackageManager {
    /// The short command name, e.g. for diagnostics.
    pub fn name(&self) -> (r: String)
        ensures
            r@ == spec_manager_name(*self),
    {
        match self {
            PackageManager::Apt => "apt".to_owned(),
            PackageManager::Brew => "brew".to_owned(),
            PackageManager::Flatpak => "flatpak".to_owned(),
            PackageManager::Pacman => "pacman".to_owned(),
            PackageManager::Dnf => "dnf".to_owned(),
        }
    }
}

/// Whether installing through `manager` needs sudo privileges.
pub fn requires_sudo(manager: &PackageManager) -> (r: bool)
    ensures
        r == spec_requires_sudo(*manager),
{
    match manager {
        PackageManager::Apt => true,
        PackageManager::Pacman => true,
        PackageManager::Dnf => true,
        PackageManager::Brew => false,
        PackageManager::Flatpak => false,
    }
}

/// The command that installs `package`: the argument vector, and whether it
/// must be run under sudo.
pub fn install_command(package: &Package) -> (r: (Vec<String>, bool))
    ensures
        r.0@.map_values(|s: String| s@) == spec_install_argv(package.manager, package.name@),
        r.1 == spec_requires_sudo(package.manager),
{
    let mut argv: Vec<String> = Vec::new();
    let sudo: bool;
    match package.manager {
        PackageManager::Apt => {
            argv.push("apt".to_owned());
            argv.push("install".to_owned());
            sudo = true;
        }
        PackageManager::Brew => {
            argv.push("brew".to_owned());
            argv.push("install".to_owned());
            sudo = false;
        }
        PackageManager::Flatpak => {
            argv.push("flatpak".to_owned());
            argv.push("install".to_owned());
            argv.push("--noninteractive".to_owned());
            sudo = false;
        }
        PackageManager::Pacman => {
            argv.push("pacman".to_owned());
            argv.push("-S".to_owned());
            sudo = true;
        }
        PackageManager::Dnf => {
            argv.push("dnf".to_owned());
            argv.push("install".to_owned());
            sudo = true;
        }
    }
    argv.push(package.name.clone());
    proof {
        assert(argv@.map_values(|s: String| s@) =~= spec_install_argv(
            package.manager,
            package.name@,
        ));
    }
    (argv, sudo)
}

/// The package managers that appear in `packages` and need sudo, each listed
/// once; the warning list printed before installation starts.
pub fn sudo_managers(packages: &Vec<Package>) -> (r: Vec<PackageManager>)
    ensures
        forall|m: PackageManager|
            r@.contains(m) <==> (spec_requires_sudo(m) && exists|i: int|
                0 <= i < packages@.len() && packages@[i].manager == m),
        forall|i: int, j: int| 0 <= i < j < r@.len() ==> r@[i] != r@[j],
{
    let mut r: Vec<PackageManager> = Vec::new();
    let mut idx: usize = 0;
    while idx < packages.len()
        invariant
            idx <= packages@.len(),
            forall|k: int|
                0 <= k < r@.len() ==> spec_requires_sudo(#[trigger] r@[k]) && exists|i: int|
                    0 <= i < idx && packages@[i].manager == r@[k],
            forall|i: int|
                0 <= i < idx && spec_requires_sudo(#[trigger] packages@[i].manager)
                    ==> r@.contains(packages@[i].manager),
            forall|i: int, j: int| 0 <= i < j < r@.len() ==> r@[i] != r@[j],
        decreases packages@.len() - idx,
    {
        let m = packages[idx].manager;
        let ghost prev = r@;
        if requires_sudo(&m) && !contains_manager(&r, &m) {
            r.push(m);
        }
        proof {
            assert(forall|k: int| 0 <= k < prev.len() ==> r@[k] == prev[k]);
            if spec_requires_sudo(m) {
                assert(r@.contains(m)) by {
                    if prev.contains(m) {
                        let k = choose|k: int| 0 <= k < prev.len() && prev[k] == m;
                        assert(r@[k] == m);
                    } else {
                        assert(r@[r@.len() - 1] == m);
                    }
                }
            }
            assert(packages@[idx as int].manager == m);
            assert forall|i: int|
                0 <= i < idx + 1 && spec_requires_sudo(#[trigger] packages@[i].manager) implies r@.contains(
                packages@[i].manager,
            ) by {
                if i < idx {
                    let x = packages@[i].manager;
                    assert(prev.contains(x));
                    let k = choose|k: int| 0 <= k < prev.len() && prev[k] == x;
                    assert(r@[k] == x);
                }
            }
        }
        idx = idx + 1;
    }
    proof {
        assert forall|m: PackageManager| #[trigger] r@.contains(m) implies (spec_requires_sudo(m)
            && exists|i: int| 0 <= i < packages@.len() && packages@[i].manager == m) by {
            let k = choose|k: int| 0 <= k < r@.len() && r@[k] == m;
        }
    }
    r
}

/// Whether `managers` already lists `m`.
fn contains_manager(managers: &Vec<PackageManager>, m: &PackageManager) -> (r: bool)
    ensures
        r == managers@.contains(*m),
{
    let mut idx: usize = 0;
    while idx < managers.len()
        invariant
            idx <= managers@.len(),
            forall|i: int| 0 <= i < idx ==> managers@[i] != *m,
        decreases managers@.len() - idx,
    {
        if managers[idx] == *m {
            return true;
        }
        idx = idx + 1;
    }
    false
}

/// The command that runs one setup script: a script whose file name
/// carries the extension `sh` runs through bash, anything else is invoked
/// directly.
pub fn script_command(script: &String) -> (r: Vec<String>)
    ensures
        r@.map_values(|s: String| s@) == spec_script_argv(script@),
{
    let s = script.as_str();
    let n = s.unicode_len();
    // Drop trailing `/` separators, as path inspection does.
    let mut e: usize = n;
    proof {
        assert(s@.take(n as int) =~= s@);
    }
    while e > 0 && s.get_char(e - 1) == '/'
        invariant
            e <= n,
            n == s@.len(),
            trim_trailing_slashes(s@) == trim_trailing_slashes(s@.take(e as int)),
        decreases e,
    {
        proof {
            assert(s@.take(e as int)[e - 1] == s@[e - 1]);
            assert(s@.take(e as int).drop_last() =~= s@.take(e - 1));
        }
        e = e - 1;
    }
    let ghost t = s@.take(e as int);
    proof {
        if e > 0 {
            assert(t[e - 1] == s@[e - 1]);
        }
        assert(trim_trailing_slashes(s@) == t);
    }
    // The file name starts after the last `/` of what remains.
    let mut b: usize = e;
    while b > 0 && s.get_char(b - 1) != '/'
        invariant
            b <= e <= n,
            n == s@.len(),
            forall|j: int| b <= j < e ==> s@[j] != '/',
        decreases b,
    {
        b = b - 1;
    }
    proof {
        lemma_last_index_of(t, '/');
        let d = last_index_of(t, '/');
        assert(forall|j: int| 0 <= j < e ==> t[j] == s@[j]);
        if b > 0 {
            assert(t[b - 1] == '/');
            assert(d == b - 1);
        } else {
            if d >= 0 {
                assert(t[d] == '/');
            }
            assert(d == -1);
        }
        assert(spec_script_name(script@) =~= t.skip(d + 1));
        assert(t.skip(d + 1) =~= s@.subrange(b as int, e as int));
    }
    let shell = e - b > 3 && s.get_char(e - 3) == '.' && s.get_char(e - 2) == 's' && s.get_char(
        e - 1,
    ) == 'h';
    proof {
        let name = spec_script_name(script@);
        assert(name.len() == e - b);
        if e - b > 3 {
            assert(name[name.len() - 3] == s@[e - 3]);
            assert(name[name.len() - 2] == s@[e - 2]);
            assert(name[name.len() - 1] == s@[e - 1]);
        }
        assert(shell == spec_is_shell_script(script@));
    }
    let mut argv: Vec<String> = Vec::new();
    if shell {
        argv.push("bash".to_owned());
        argv.push(script.clone());
        proof {
            assert(argv@.map_values(|s: String| s@) =~= spec_script_argv(script@));
        }
    } else {
        argv.push(script.clone());
        proof {
            assert(argv@.map_values(|s: String| s@) =~= spec_script_argv(script@));
        }
    }
    argv
}

/// `s` with trailing `/` separators removed: path inspection ignores them
/// when it takes a path's file name.
pub open spec fn trim_trailing_slashes(s: Seq<char>) -> Seq<char>
    decreases s.len(),
{
    if s.len() > 0 && s[s.len() - 1] == '/' {
        trim_trailing_slashes(s.drop_last())
    } else {
        s
    }
}

/// The file name of a script path: its final component.
pub open spec fn spec_script_name(script: Seq<char>) -> Seq<char> {
    let t = trim_trailing_slashes(script);
    t.skip(last_index_of(t, '/') + 1)
}

/// Whether the script's file name carries the extension `sh`: it ends in
/// `.sh` after a nonempty stem. A name that is exactly `.sh` is a
/// leading-dot name with no other dot, so it has no extension and the
/// script is invoked directly.
pub open spec fn spec_is_shell_script(script: Seq<char>) -> bool {
    let n = spec_script_name(script);
    n.len() > 3 && n[n.len() - 3] == '.' && n[n.len() - 2] == 's' && n[n.len() - 1] == 'h'
}

/// The argument vector that runs one setup script.
pub open spec fn spec_script_argv(script: Seq<char>) -> Seq<Seq<char>> {
    if spec_is_shell_script(script) {
        seq!["bash"@, script]
    } else {
        seq![script]
    }
}

} // verus!
