//! The running distribution and the repository packages installed on it.
use vstd::prelude::*;
use crate::action::{action_views, cat3, extend, print, quiet_shell, run, run_quiet, shell, Action, ActionView, Command, CommandView};
use crate::linux_setup::package::Package;
use crate::name_set::NameSet;
use crate::text::{
    chars_of, contains, contains_spec, find_numeric_byte_capped, find_numeric_byte_spec, nonempty_pieces,
    last_match_below, matches_at, rsplit_once, rsplit_once_spec, split, split_spec, split_whitespace, split_whitespace_spec,
    string_of, views,
};

verus! {

/// A desktop environment.
#[derive(PartialEq, Eq, Structural, Clone, Copy, Debug)]
pub enum DesktopEnvironment {
    Gnome,
    KDE,
}

/// A family of package repositories.
#[derive(PartialEq, Eq, Structural, Clone, Copy, Debug)]
pub enum Repository {
    Arch,
    Debian,
    Fedora,
    RedHat,
    Ubuntu,
}

/// A system package manager.
#[derive(PartialEq, Eq, Structural, Clone, Copy, Debug)]
pub enum PackageManager {
    APT,
    DNF,
    PACMAN,
    RPMOSTree,
}

/// A set of desktop environments.
pub struct DesktopSet {
    pub gnome: bool,
    pub kde: bool,
}

impl View for DesktopSet {
    type V = Set<DesktopEnvironment>;

    open spec fn view(&self) -> Set<DesktopEnvironment> {
        Set::new(
            |d: DesktopEnvironment|
                match d {
                    DesktopEnvironment::Gnome => self.gnome,
                    DesktopEnvironment::KDE => self.kde,
                },
        )
    }
}

impl DesktopSet {
    /// The empty set.
    pub fn new() -> (s: Self)
        ensures
            s@ == Set::<DesktopEnvironment>::empty(),
    {
        let s = DesktopSet { gnome: false, kde: false };
        assert(s@ =~= Set::<DesktopEnvironment>::empty());
        s
    }

    /// Whether `d` is in the set.
    pub fn contains(&self, d: &DesktopEnvironment) -> (r: bool)
        ensures
            r == self@.contains(*d),
    {
        match d {
            DesktopEnvironment::Gnome => self.gnome,
            DesktopEnvironment::KDE => self.kde,
        }
    }

    /// Adds `d`.
    pub fn insert(&mut self, d: DesktopEnvironment)
        ensures
            final(self)@ == old(self)@.insert(d),
    {
        match d {
            DesktopEnvironment::Gnome => self.gnome = true,
            DesktopEnvironment::KDE => self.kde = true,
        }
        assert(self@ =~= old(self)@.insert(d));
    }
}

/// The abstract state of a [`Distribution`].
#[verifier::ext_equal]
pub struct DistState {
    pub repository: Repository,
    pub package_manager: PackageManager,
    pub desktop_environments: Set<DesktopEnvironment>,
    pub packages: Set<Seq<char>>,
    pub flatpaks: Set<Seq<char>>,
    pub snaps: Set<Seq<char>>,
    pub others: Set<Seq<char>>,
}

/// The running distribution and what is installed on it.
pub struct Distribution {
    pub repository: Repository,
    pub package_manager: PackageManager,
    pub desktop_environments: DesktopSet,
    pub packages: NameSet,
    pub flatpaks: NameSet,
    pub snaps: NameSet,
    pub others: NameSet,
}


impl View for Distribution {
    type V = DistState;

    open spec fn view(&self) -> DistState {
        DistState {
            repository: self.repository,
            package_manager: self.package_manager,
            desktop_environments: self.desktop_environments@,
            packages: self.packages@,
            flatpaks: self.flatpaks@,
            snaps: self.snaps@,
            others: self.others@,
        }
    }
}

/// What installing the package's repository packages does to the state, and the
/// steps it takes.
pub open spec fn install_effect(d: DistState, names: Option<Seq<Seq<char>>>) -> (DistState, Seq<ActionView>) {
    match names {
        Some(n) => (
            DistState { packages: insert_all(d.packages, n), ..d },
            install_all_spec(d.package_manager, d.packages, n),
        ),
        None => (d, Seq::empty()),
    }
}

/// What removing the package's repository packages does to the state, and the
/// steps it takes.
pub open spec fn uninstall_effect(d: DistState, names: Option<Seq<Seq<char>>>) -> (DistState, Seq<ActionView>) {
    match names {
        Some(n) => (
            DistState { packages: remove_all(d.packages, n), ..d },
            uninstall_all_spec(d.package_manager, d.packages, n),
        ),
        None => (d, Seq::empty()),
    }
}

/// The repository family and package manager named by the content of
/// `/etc/os-release`, tested in this order.
pub open spec fn detect_spec(os_release: Seq<char>) -> Option<(Repository, PackageManager)> {
    if contains_spec(os_release, "Arch"@) {
        Some((Repository::Arch, PackageManager::PACMAN))
    } else if contains_spec(os_release, "Alma"@) {
        Some((Repository::RedHat, PackageManager::DNF))
    } else if contains_spec(os_release, "CentOS"@) {
        Some((Repository::RedHat, PackageManager::DNF))
    } else if contains_spec(os_release, "Debian"@) {
        Some((Repository::Debian, PackageManager::APT))
    } else if contains_spec(os_release, "Silverblue"@) {
        Some((Repository::Fedora, PackageManager::RPMOSTree))
    } else if contains_spec(os_release, "Fedora"@) {
        Some((Repository::Fedora, PackageManager::DNF))
    } else if contains_spec(os_release, "Mint"@) {
        Some((Repository::Ubuntu, PackageManager::APT))
    } else if contains_spec(os_release, "Ubuntu"@) {
        Some((Repository::Ubuntu, PackageManager::APT))
    } else {
        None
    }
}

/// The package name at the start of an `rpm -qa` line: the text before the `-`
/// that precedes the first numeric character, the position of that `-` taken as
/// the byte offset of the numeric character less one; empty when there is none.
pub open spec fn rpm_name_spec(line: Seq<char>) -> Seq<char> {
    match find_numeric_byte_spec(line) {
        Some(b) => if b > 0 && b - 1 < line.len() && line[b - 1] == '-' {
            line.take(b - 1)
        } else {
            Seq::empty()
        },
        None => Seq::empty(),
    }
}

/// The package named by one line of the package manager's list of installed
/// packages; empty when the line names none.
pub open spec fn installed_entry_spec(pm: PackageManager, line: Seq<char>) -> Seq<char> {
    match pm {
        PackageManager::APT => split_spec(line, "/"@)[0],
        PackageManager::DNF => match rsplit_once_spec(split_whitespace_spec(line)[0], "."@) {
            Some(p) => p.0,
            None => Seq::empty(),
        },
        PackageManager::PACMAN => split_spec(line, " "@)[0],
        PackageManager::RPMOSTree => rpm_name_spec(line),
    }
}

/// The packages named by the first `n` lines.
pub open spec fn entries_upto(pm: PackageManager, lines: Seq<Seq<char>>, n: nat) -> Set<Seq<char>>
    decreases n,
{
    if n == 0 {
        Set::empty()
    } else {
        let e = installed_entry_spec(pm, lines[n - 1]);
        let prev = entries_upto(pm, lines, (n - 1) as nat);
        if lines[n - 1].len() > 0 && e.len() > 0 {
            prev.insert(e)
        } else {
            prev
        }
    }
}

/// The lines of `s`, split at each line feed.
pub open spec fn lines_spec(s: Seq<char>) -> Seq<Seq<char>> {
    split_spec(s, "\n"@)
}

/// The installed packages that the package manager's list names.
pub open spec fn installed_set_spec(pm: PackageManager, output: Seq<char>) -> Set<Seq<char>> {
    entries_upto(pm, lines_spec(output), lines_spec(output).len())
}

/// Every non-empty line holds a word; without one the first column of a dnf line
/// cannot be taken.
pub open spec fn lines_have_words_spec(output: Seq<char>) -> bool {
    forall|i: int|
        0 <= i < lines_spec(output).len() && lines_spec(output)[i].len() > 0
            ==> #[trigger] split_whitespace_spec(lines_spec(output)[i]).len() > 0
}

/// The release packages that enable the free EPEL and RPM Fusion repositories.
pub open spec fn free_release_urls(repo: Repository) -> Seq<Seq<char>> {
    match repo {
        Repository::Fedora => seq![
            "https://download1.rpmfusion.org/free/fedora/rpmfusion-free-release-38.noarch.rpm"@,
        ],
        Repository::RedHat => seq![
            "https://dl.fedoraproject.org/pub/epel/epel-release-latest-9.noarch.rpm"@,
            "https://download1.rpmfusion.org/free/el/rpmfusion-free-release-9.noarch.rpm"@,
        ],
        _ => Seq::empty(),
    }
}

/// The release packages that enable the non-free RPM Fusion repositories.
pub open spec fn nonfree_release_urls(repo: Repository) -> Seq<Seq<char>> {
    match repo {
        Repository::Fedora => seq![
            "https://download1.rpmfusion.org/nonfree/fedora/rpmfusion-nonfree-release-38.noarch.rpm"@,
        ],
        Repository::RedHat => seq![
            "https://download1.rpmfusion.org/nonfree/el/rpmfusion-nonfree-release-9.noarch.rpm"@,
        ],
        _ => Seq::empty(),
    }
}

/// Upgrading every repository package.
pub open spec fn update_spec(pm: PackageManager) -> Seq<ActionView> {
    seq![ActionView::Print("Updating repository..."@)] + match pm {
        PackageManager::APT => seq![shell("sudo apt update"@), shell("sudo apt upgrade -Vy"@)],
        PackageManager::DNF => seq![shell("sudo dnf upgrade --refresh -y"@)],
        PackageManager::PACMAN => seq![shell("sudo pacman -Syu --noconfirm"@)],
        PackageManager::RPMOSTree => seq![shell("rpm-ostree upgrade"@)],
    }
}

/// The repository setup: for dnf, parallel downloads, then, when `free` was
/// confirmed, the free repositories, and, when `nonfree` was confirmed as well,
/// the non-free ones, then an upgrade.
pub open spec fn setup_spec(
    pm: PackageManager,
    repo: Repository,
    installed: Set<Seq<char>>,
    free: bool,
    nonfree: bool,
) -> Seq<ActionView> {
    seq![ActionView::Print("Setup repository..."@)] + if pm != PackageManager::DNF {
        Seq::empty()
    } else {
        seq![
            ActionView::AppendIfMissing {
                path: "/etc/dnf/dnf.conf"@,
                marker: "max_parallel_downloads"@,
                text: "max_parallel_downloads=10"@,
                sudo: true,
            },
        ] + if !free {
            Seq::empty()
        } else {
            let after_free = insert_all(installed, free_release_urls(repo));
            install_all_spec(pm, installed, free_release_urls(repo)) + (if repo == Repository::RedHat {
                seq![quiet_shell("sudo dnf config-manager --set-enabled crb"@)]
            } else {
                Seq::empty()
            }) + (if nonfree {
                install_all_spec(pm, after_free, nonfree_release_urls(repo))
            } else {
                Seq::empty()
            }) + update_spec(pm)
        }
    }
}

/// The repository packages installed by the setup.
pub open spec fn setup_installed_spec(
    pm: PackageManager,
    repo: Repository,
    installed: Set<Seq<char>>,
    free: bool,
    nonfree: bool,
) -> Set<Seq<char>> {
    if pm != PackageManager::DNF || !free {
        installed
    } else if nonfree {
        insert_all(insert_all(installed, free_release_urls(repo)), nonfree_release_urls(repo))
    } else {
        insert_all(installed, free_release_urls(repo))
    }
}

/// Removing the packages that nothing depends on.
pub open spec fn auto_remove_spec(pm: PackageManager) -> Seq<ActionView> {
    seq![ActionView::Print("Auto removing repository..."@)] + match pm {
        PackageManager::APT => seq![shell("sudo apt autoremove -Vy"@)],
        PackageManager::DNF => seq![shell("sudo dnf autoremove -y"@)],
        PackageManager::PACMAN => seq![ActionView::RemoveOrphans],
        PackageManager::RPMOSTree => Seq::empty(),
    }
}

/// The content of `/etc/os-release` names no supported distribution.
#[derive(PartialEq, Eq, Structural, Clone, Copy, Debug)]
pub struct DistributionNotFound;

/// The command line that lists the installed packages for a package manager.
pub open spec fn installed_command_spec(pm: PackageManager) -> Seq<char> {
    match pm {
        PackageManager::APT => "apt list --installed"@,
        PackageManager::DNF => "dnf list installed"@,
        PackageManager::PACMAN => "pacman -Q"@,
        PackageManager::RPMOSTree => "rpm -qa"@,
    }
}

/// The command line that installs `p`.
pub open spec fn install_command_spec(pm: PackageManager, p: Seq<char>) -> Seq<char> {
    match pm {
        PackageManager::APT => "sudo apt install "@ + p + " -Vy"@,
        PackageManager::DNF => "sudo dnf install "@ + p + " -y"@,
        PackageManager::PACMAN => "sudo pacman -S "@ + p + " --noconfirm --needed"@,
        PackageManager::RPMOSTree => "sudo rpm-ostree install "@ + p + " -y"@,
    }
}

/// The command line that removes `p`.
pub open spec fn uninstall_command_spec(pm: PackageManager, p: Seq<char>) -> Seq<char> {
    match pm {
        PackageManager::APT => "sudo apt remove "@ + p + " -Vy"@,
        PackageManager::DNF => "sudo dnf remove "@ + p + " -y"@,
        PackageManager::PACMAN => "sudo pacman -Rsun "@ + p + " --noconfirm"@,
        PackageManager::RPMOSTree => "sudo rpm-ostree uninstall "@ + p + " -y"@,
    }
}

/// What installing the repository package `p` does, given the installed set.
pub open spec fn install_package_spec(pm: PackageManager, installed: Set<Seq<char>>, p: Seq<char>) -> Seq<ActionView> {
    if installed.contains(p) {
        Seq::empty()
    } else {
        seq![
            ActionView::Print("Installing repository "@ + p + "..."@),
            shell(install_command_spec(pm, p)),
        ]
    }
}

/// What installing the repository packages `names`, in order, does.
pub open spec fn install_all_spec(pm: PackageManager, installed: Set<Seq<char>>, names: Seq<Seq<char>>) -> Seq<ActionView>
    decreases names.len(),
{
    if names.len() == 0 {
        Seq::empty()
    } else {
        install_package_spec(pm, installed, names[0]) + install_all_spec(
            pm,
            installed.insert(names[0]),
            names.skip(1),
        )
    }
}

/// What removing the repository packages `names`, in order, does.
pub open spec fn uninstall_all_spec(pm: PackageManager, installed: Set<Seq<char>>, names: Seq<Seq<char>>) -> Seq<ActionView>
    decreases names.len(),
{
    if names.len() == 0 {
        Seq::empty()
    } else {
        let first = if installed.contains(names[0]) {
            seq![
                ActionView::Print("Uninstalling repository "@ + names[0] + "..."@),
                shell(uninstall_command_spec(pm, names[0])),
            ]
        } else {
            Seq::empty()
        };
        first + uninstall_all_spec(pm, installed.remove(names[0]), names.skip(1))
    }
}

/// A distribution is recognised exactly when one of the names Arch, Alma,
/// CentOS, Debian, Silverblue, Fedora, Mint and Ubuntu occurs, the first of them
/// in that order deciding: Arch gives Arch with pacman; Alma and CentOS give Red
/// Hat with dnf; Debian gives Debian with apt; Silverblue gives Fedora with
/// rpm-ostree; Fedora gives Fedora with dnf; Mint and Ubuntu give Ubuntu with apt.
pub proof fn law_detection(s: Seq<char>)
    ensures
        detect_spec(s) is None <==> !(contains_spec(s, "Arch"@) || contains_spec(s, "Alma"@)
            || contains_spec(s, "CentOS"@) || contains_spec(s, "Debian"@) || contains_spec(s, "Silverblue"@)
            || contains_spec(s, "Fedora"@) || contains_spec(s, "Mint"@) || contains_spec(s, "Ubuntu"@)),
        contains_spec(s, "Arch"@) ==> detect_spec(s) == Some((Repository::Arch, PackageManager::PACMAN)),
        !contains_spec(s, "Arch"@) && (contains_spec(s, "Alma"@) || contains_spec(s, "CentOS"@))
            ==> detect_spec(s) == Some((Repository::RedHat, PackageManager::DNF)),
        !contains_spec(s, "Arch"@) && !contains_spec(s, "Alma"@) && !contains_spec(s, "CentOS"@)
            && contains_spec(s, "Debian"@) ==> detect_spec(s) == Some((Repository::Debian, PackageManager::APT)),
        !contains_spec(s, "Arch"@) && !contains_spec(s, "Alma"@) && !contains_spec(s, "CentOS"@)
            && !contains_spec(s, "Debian"@) && contains_spec(s, "Silverblue"@) ==> detect_spec(s) == Some(
            (Repository::Fedora, PackageManager::RPMOSTree),
        ),
        !contains_spec(s, "Arch"@) && !contains_spec(s, "Alma"@) && !contains_spec(s, "CentOS"@)
            && !contains_spec(s, "Debian"@) && !contains_spec(s, "Silverblue"@) && contains_spec(s, "Fedora"@)
            ==> detect_spec(s) == Some((Repository::Fedora, PackageManager::DNF)),
        !contains_spec(s, "Arch"@) && !contains_spec(s, "Alma"@) && !contains_spec(s, "CentOS"@)
            && !contains_spec(s, "Debian"@) && !contains_spec(s, "Silverblue"@) && !contains_spec(s, "Fedora"@)
            && (contains_spec(s, "Mint"@) || contains_spec(s, "Ubuntu"@)) ==> detect_spec(s) == Some(
            (Repository::Ubuntu, PackageManager::APT),
        ),
{
}

proof fn lemma_last_dot(name: Seq<char>, arch: Seq<char>, n: nat)
    requires
        name.len() < n <= name.len() + arch.len() + 2,
        !arch.contains('.'),
        "."@ == seq!['.'],
    ensures
        last_match_below(name + "."@ + arch, "."@, n) == Some(name.len() as int),
    decreases n,
{
    let s = name + "."@ + arch;
    if n - 1 > name.len() {
        let j = n - 1;
        if matches_at(s, "."@, j) {
            assert(s.subrange(j, j + 1)[0] == s[j]);
            assert(s[j] == arch[j - name.len() - 1]);
        }
        lemma_last_dot(name, arch, (n - 1) as nat);
    } else {
        assert(s.subrange(name.len() as int, name.len() + 1int) =~= "."@);
    }
}

/// On a dnf system the package recorded for a line is its first column without
/// the architecture: a first column `name.arch`, the architecture holding no
/// `.`, gives `name`.
pub proof fn law_dnf_entry_drops_architecture(line: Seq<char>, name: Seq<char>, arch: Seq<char>)
    requires
        split_whitespace_spec(line).len() > 0,
        split_whitespace_spec(line)[0] == name + "."@ + arch,
        !arch.contains('.'),
    ensures
        installed_entry_spec(PackageManager::DNF, line) == name,
{
    reveal_strlit(".");
    assert("."@ =~= seq!['.']);
    let s = name + "."@ + arch;
    lemma_last_dot(name, arch, (s.len() + 1) as nat);
    assert(s.take(name.len() as int) =~= name);
}

/// Removing the repository packages `names` takes one removal (a message and a
/// command) for each distinct name among them that is installed.
pub proof fn law_one_removal_per_installed_name(pm: PackageManager, installed: Set<Seq<char>>, names: Seq<Seq<char>>)
    ensures
        uninstall_all_spec(pm, installed, names).len() == 2 * names.to_set().intersect(installed).len(),
    decreases names.len(),
{
    if names.len() == 0 {
        assert(names.to_set().intersect(installed) =~= Set::<Seq<char>>::empty());
    } else {
        let n0 = names[0];
        let rest = names.skip(1);
        law_one_removal_per_installed_name(pm, installed.remove(n0), rest);
        assert(names.to_set() =~= rest.to_set().insert(n0)) by {
            assert forall|x: Seq<char>| names.to_set().contains(x) == rest.to_set().insert(n0).contains(x) by {
                if names.contains(x) && x != n0 {
                    let j = choose|j: int| 0 <= j < names.len() && names[j] == x;
                    assert(j > 0 && rest[j - 1] == x);
                }
                if rest.contains(x) {
                    let j = choose|j: int| 0 <= j < rest.len() && rest[j] == x;
                    assert(names[j + 1] == x);
                }
                if x == n0 {
                    assert(names[0] == x);
                }
            }
        }
        let a = names.to_set().intersect(installed);
        let b = rest.to_set().intersect(installed.remove(n0));
        vstd::seq_lib::seq_to_set_is_finite(rest);
        vstd::set::axiom_set_intersect_finite(rest.to_set(), installed.remove(n0));
        if installed.contains(n0) {
            assert(a =~= b.insert(n0));
            vstd::set::axiom_set_insert_len(b, n0);
        } else {
            assert(installed.remove(n0) =~= installed);
            assert(a =~= b);
        }
    }
}

/// Removing the repository packages of a package right after installing them,
/// where none was installed before, gives back the installed set and takes one
/// removal for each distinct package name.
pub proof fn law_uninstall_after_install(d: DistState, p: Package)
    requires
        p.repository.names(d.repository) matches Some(n) && forall|i: int|
            0 <= i < n.len() ==> !d.packages.contains(#[trigger] n[i]),
    ensures
        ({
            let names = p.repository.names(d.repository);
            let n = names->0;
            let u = uninstall_effect(install_effect(d, names).0, names);
            &&& u.0.packages == d.packages
            &&& u.1.len() == 2 * n.to_set().len()
        }),
{
    let names = p.repository.names(d.repository);
    let n = names->0;
    let e = install_effect(d, names).0;
    assert(remove_all(insert_all(d.packages, n), n) =~= d.packages) by {
        assert forall|x: Seq<char>| n.to_set().contains(x) implies !d.packages.contains(x) by {
            let j = choose|j: int| 0 <= j < n.len() && n[j] == x;
            assert(!d.packages.contains(n[j]));
        }
    }
    law_one_removal_per_installed_name(d.package_manager, e.packages, n);
    assert(n.to_set().intersect(e.packages) =~= n.to_set());
}

/// Pushing `x` adds it to the set of the sequence's elements.
pub proof fn lemma_to_set_push<A>(s: Seq<A>, x: A)
    ensures
        s.push(x).to_set() == s.to_set().insert(x),
{
    assert forall|y: A| #[trigger] s.push(x).contains(y) == (s.contains(y) || y == x) by {
        if s.push(x).contains(y) {
            let j = choose|j: int| 0 <= j < s.push(x).len() && s.push(x)[j] == y;
            if j < s.len() {
                assert(s[j] == y);
            }
        }
        if s.contains(y) {
            let j = choose|j: int| 0 <= j < s.len() && s[j] == y;
            assert(s.push(x)[j] == y);
        }
        if y == x {
            assert(s.push(x)[s.len() as int] == y);
        }
    }
    assert(s.push(x).to_set() =~= s.to_set().insert(x));
}

/// Some name of `names` is in `installed`.
pub open spec fn any_installed(installed: Set<Seq<char>>, names: Option<Seq<Seq<char>>>) -> bool {
    names is Some && any_in(installed, names->0)
}

/// Some name of `names` is in `installed`.
pub open spec fn any_in(installed: Set<Seq<char>>, names: Seq<Seq<char>>) -> bool {
    exists|i: int| 0 <= i < names.len() && installed.contains(#[trigger] names[i])
}

/// The set `s` with all of `names` added.
pub open spec fn insert_all(s: Set<Seq<char>>, names: Seq<Seq<char>>) -> Set<Seq<char>> {
    s.union(names.to_set())
}

/// The set `s` with all of `names` taken out.
pub open spec fn remove_all(s: Set<Seq<char>>, names: Seq<Seq<char>>) -> Set<Seq<char>> {
    s.difference(names.to_set())
}

impl Distribution {
    /// A distribution recognised from the content of `/etc/os-release`, with
    /// nothing recorded as installed yet.
    pub fn new(os_release: &str) -> (r: Result<Self, DistributionNotFound>)
        ensures
            match (r, detect_spec(os_release@)) {
                (Ok(d), Some((repo, pm))) => {
                    &&& d.repository == repo
                    &&& d.package_manager == pm
                    &&& d.desktop_environments@ == Set::<DesktopEnvironment>::empty()
                    &&& d.packages@ == Set::<Seq<char>>::empty()
                    &&& d.flatpaks@ == Set::<Seq<char>>::empty()
                    &&& d.snaps@ == Set::<Seq<char>>::empty()
                    &&& d.others@ == Set::<Seq<char>>::empty()
                },
                (Err(_), None) => true,
                _ => false,
            },
    {
        let found = if contains(os_release, "Arch") {
            (Repository::Arch, PackageManager::PACMAN)
        } else if contains(os_release, "Alma") {
            (Repository::RedHat, PackageManager::DNF)
        } else if contains(os_release, "CentOS") {
            (Repository::RedHat, PackageManager::DNF)
        } else if contains(os_release, "Debian") {
            (Repository::Debian, PackageManager::APT)
        } else if contains(os_release, "Silverblue") {
            (Repository::Fedora, PackageManager::RPMOSTree)
        } else if contains(os_release, "Fedora") {
            (Repository::Fedora, PackageManager::DNF)
        } else if contains(os_release, "Mint") {
            (Repository::Ubuntu, PackageManager::APT)
        } else if contains(os_release, "Ubuntu") {
            (Repository::Ubuntu, PackageManager::APT)
        } else {
            return Err(DistributionNotFound);
        };
        Ok(Distribution {
            repository: found.0,
            package_manager: found.1,
            desktop_environments: DesktopSet::new(),
            packages: NameSet::new(),
            flatpaks: NameSet::new(),
            snaps: NameSet::new(),
            others: NameSet::new(),
        })
    }

    /// The command line whose output lists the installed repository packages.
    pub fn installed_command(&self) -> (r: &'static str)
        ensures
            r@ == installed_command_spec(self.package_manager),
    {
        match self.package_manager {
            PackageManager::APT => "apt list --installed",
            PackageManager::DNF => "dnf list installed",
            PackageManager::PACMAN => "pacman -Q",
            PackageManager::RPMOSTree => "rpm -qa",
        }
    }

    /// Whether the package can be installed from this distribution's repositories.
    pub fn is_available(&self, package: &Package) -> (r: bool)
        ensures
            r == package.repository.names(self.repository) is Some,
    {
        package.repository.contains_key(&self.repository)
    }

    /// Whether one of the package's repository packages is installed.
    pub fn is_installed(&self, package: &Package) -> (r: bool)
        ensures
            r == any_installed(self.packages@, package.repository.names(self.repository)),
    {
        if let Some(packages) = package.repository.get(&self.repository) {
            let mut i: usize = 0;
            while i < packages.len()
                invariant
                    i <= packages@.len(),
                    package.repository.names(self.repository) == Some(
                        crate::linux_setup::package::str_views(packages@),
                    ),
                    forall|j: int|
                        0 <= j < i ==> !self.packages@.contains(#[trigger] packages@[j]@),
                decreases packages.len() - i,
            {
                if self.packages.contains(packages[i]) {
                    let ghost names = crate::linux_setup::package::str_views(packages@);
                    assert(names[i as int] == packages@[i as int]@);
                    assert(0 <= i < names.len() && self.packages@.contains(names[i as int]));
                    assert(any_in(self.packages@, names));
                    return true;
                }
                i += 1;
            }
            assert forall|j: int| 0 <= j < packages@.len() implies !self.packages@.contains(
                #[trigger] crate::linux_setup::package::str_views(packages@)[j],
            ) by {
                assert(crate::linux_setup::package::str_views(packages@)[j] == packages@[j]@);
            }
        }
        false
    }

    /// Records the repository package `package` as installed and gives what
    /// installing it takes; nothing when it is installed already.
    pub fn install_package(&mut self, package: &str) -> (acts: Vec<Action>)
        ensures
            final(self).packages@ == old(self).packages@.insert(package@),
            action_views(acts@) == install_package_spec(
                old(self).package_manager,
                old(self).packages@,
                package@,
            ),
            final(self).repository == old(self).repository,
            final(self).package_manager == old(self).package_manager,
            final(self).desktop_environments@ == old(self).desktop_environments@,
            final(self).flatpaks@ == old(self).flatpaks@,
            final(self).snaps@ == old(self).snaps@,
            final(self).others@ == old(self).others@,
    {
        let mut acts: Vec<Action> = Vec::new();
        if !self.packages.insert(package) {
            assert(action_views(acts@) =~= Seq::<ActionView>::empty());
            return acts;
        }
        acts.push(print(cat3("Installing repository ", package, "...")));
        let command = match self.package_manager {
            PackageManager::APT => cat3("sudo apt install ", package, " -Vy"),
            PackageManager::DNF => cat3("sudo dnf install ", package, " -y"),
            PackageManager::PACMAN => cat3("sudo pacman -S ", package, " --noconfirm --needed"),
            PackageManager::RPMOSTree => cat3("sudo rpm-ostree install ", package, " -y"),
        };
        acts.push(run(command));
        assert(action_views(acts@) =~= install_package_spec(
            old(self).package_manager,
            old(self).packages@,
            package@,
        ));
        acts
    }

    /// Installs the package's repository packages for this distribution, in order.
    pub fn install(&mut self, package: &Package) -> (acts: Vec<Action>)
        ensures
            (final(self)@, action_views(acts@)) == install_effect(old(self)@, package.repository.names(old(self).repository)),
            match package.repository.names(old(self).repository) {
                Some(names) => {
                    &&& final(self).packages@ == insert_all(old(self).packages@, names)
                    &&& action_views(acts@) == install_all_spec(
                        old(self).package_manager,
                        old(self).packages@,
                        names,
                    )
                },
                None => final(self).packages@ == old(self).packages@ && acts@.len() == 0,
            },
            final(self).repository == old(self).repository,
            final(self).package_manager == old(self).package_manager,
            final(self).desktop_environments@ == old(self).desktop_environments@,
            final(self).flatpaks@ == old(self).flatpaks@,
            final(self).snaps@ == old(self).snaps@,
            final(self).others@ == old(self).others@,
    {
        match package.repository.get(&self.repository) {
            Some(packages) => self.install_names(packages),
            None => Vec::new(),
        }
    }

    /// Installs the repository packages `packages`, in order.
    pub fn install_names(&mut self, packages: &Vec<&'static str>) -> (acts: Vec<Action>)
        ensures
            final(self).packages@ == insert_all(old(self).packages@, crate::linux_setup::package::str_views(packages@)),
            action_views(acts@) == install_all_spec(
                old(self).package_manager,
                old(self).packages@,
                crate::linux_setup::package::str_views(packages@),
            ),
            final(self).repository == old(self).repository,
            final(self).package_manager == old(self).package_manager,
            final(self).desktop_environments@ == old(self).desktop_environments@,
            final(self).flatpaks@ == old(self).flatpaks@,
            final(self).snaps@ == old(self).snaps@,
            final(self).others@ == old(self).others@,
    {
        let mut acts: Vec<Action> = Vec::new();
        let ghost names = crate::linux_setup::package::str_views(packages@);
        let mut i: usize = 0;
        proof {
            assert(names.skip(0) =~= names);
            assert(action_views(acts@) + install_all_spec(old(self).package_manager, self.packages@, names) =~= install_all_spec(old(self).package_manager, self.packages@, names));
            assert(names.take(0).to_set() =~= Set::<Seq<char>>::empty());
            assert(insert_all(old(self).packages@, names.take(0)) =~= old(self).packages@);
        }
        while i < packages.len()
            invariant
                i <= packages@.len(),
                names == crate::linux_setup::package::str_views(packages@),
                self.packages@ == insert_all(old(self).packages@, names.take(i as int)),
                install_all_spec(old(self).package_manager, old(self).packages@, names)
                    == action_views(acts@) + install_all_spec(
                    old(self).package_manager,
                    self.packages@,
                    names.skip(i as int),
                ),
                self.repository == old(self).repository,
                self.package_manager == old(self).package_manager,
                self.desktop_environments@ == old(self).desktop_environments@,
                self.flatpaks@ == old(self).flatpaks@,
                self.snaps@ == old(self).snaps@,
                self.others@ == old(self).others@,
            decreases packages.len() - i,
        {
            let ghost before = self.packages@;
            let ghost rest = names.skip(i as int);
            let more = self.install_package(packages[i]);
            proof {
                assert(rest[0] == packages@[i as int]@);
                assert(rest.skip(1) =~= names.skip(i + 1));
                assert(names.take(i + 1) =~= names.take(i as int).push(packages@[i as int]@));
                lemma_to_set_push(names.take(i as int), packages@[i as int]@);
                assert(insert_all(old(self).packages@, names.take(i + 1)) =~= insert_all(
                    old(self).packages@,
                    names.take(i as int),
                ).insert(packages@[i as int]@));
            }
            let ghost prev_acts = action_views(acts@);
            extend(&mut acts, more);
            proof {
                assert(prev_acts + install_all_spec(old(self).package_manager, before, rest)
                    =~= action_views(acts@) + install_all_spec(
                    old(self).package_manager,
                    self.packages@,
                    names.skip(i + 1),
                ));
            }
            i += 1;
        }
        proof {
            assert(names.take(packages@.len() as int) =~= names);
            assert(names.skip(packages@.len() as int) =~= Seq::<Seq<char>>::empty());
            assert(action_views(acts@) + Seq::<ActionView>::empty() =~= action_views(acts@));
        }
        acts
    }

    /// Removes the package's repository packages that are installed, in order.
    pub fn uninstall(&mut self, package: &Package) -> (acts: Vec<Action>)
        ensures
            (final(self)@, action_views(acts@)) == uninstall_effect(old(self)@, package.repository.names(old(self).repository)),
            match package.repository.names(old(self).repository) {
                Some(names) => {
                    &&& final(self).packages@ == remove_all(old(self).packages@, names)
                    &&& action_views(acts@) == uninstall_all_spec(
                        old(self).package_manager,
                        old(self).packages@,
                        names,
                    )
                },
                None => final(self).packages@ == old(self).packages@ && acts@.len() == 0,
            },
            final(self).repository == old(self).repository,
            final(self).package_manager == old(self).package_manager,
            final(self).desktop_environments@ == old(self).desktop_environments@,
            final(self).flatpaks@ == old(self).flatpaks@,
            final(self).snaps@ == old(self).snaps@,
            final(self).others@ == old(self).others@,
    {
        let mut acts: Vec<Action> = Vec::new();
        if let Some(packages) = package.repository.get(&self.repository) {
            let ghost names = crate::linux_setup::package::str_views(packages@);
            let mut i: usize = 0;
            proof {
                assert(names.skip(0) =~= names);
                assert(action_views(acts@) + uninstall_all_spec(old(self).package_manager, self.packages@, names) =~= uninstall_all_spec(old(self).package_manager, self.packages@, names));
                assert(names.take(0).to_set() =~= Set::<Seq<char>>::empty());
                assert(remove_all(old(self).packages@, names.take(0)) =~= old(self).packages@);
            }
            while i < packages.len()
                invariant
                    i <= packages@.len(),
                    names == crate::linux_setup::package::str_views(packages@),
                    self.packages@ == remove_all(old(self).packages@, names.take(i as int)),
                    uninstall_all_spec(old(self).package_manager, old(self).packages@, names)
                        == action_views(acts@) + uninstall_all_spec(
                        old(self).package_manager,
                        self.packages@,
                        names.skip(i as int),
                    ),
                    self.repository == old(self).repository,
                    self.package_manager == old(self).package_manager,
                    self.desktop_environments@ == old(self).desktop_environments@,
                    self.flatpaks@ == old(self).flatpaks@,
                    self.snaps@ == old(self).snaps@,
                    self.others@ == old(self).others@,
                decreases packages.len() - i,
            {
                let ghost before = self.packages@;
                let ghost rest = names.skip(i as int);
                let pkg: &str = packages[i];
                proof {
                    assert(rest[0] == pkg@);
                    assert(rest.skip(1) =~= names.skip(i + 1));
                    assert(names.take(i + 1) =~= names.take(i as int).push(pkg@));
                    lemma_to_set_push(names.take(i as int), pkg@);
                    assert(remove_all(old(self).packages@, names.take(i + 1)) =~= remove_all(
                        old(self).packages@,
                        names.take(i as int),
                    ).remove(pkg@));
                }
                let ghost prev_acts = action_views(acts@);
                if self.packages.remove(pkg) {
                    acts.push(print(cat3("Uninstalling repository ", pkg, "...")));
                    let command = match self.package_manager {
                        PackageManager::APT => cat3("sudo apt remove ", pkg, " -Vy"),
                        PackageManager::DNF => cat3("sudo dnf remove ", pkg, " -y"),
                        PackageManager::PACMAN => cat3("sudo pacman -Rsun ", pkg, " --noconfirm"),
                        PackageManager::RPMOSTree => cat3("sudo rpm-ostree uninstall ", pkg, " -y"),
                    };
                    acts.push(run(command));
                    proof {
                        assert(action_views(acts@) =~= prev_acts + seq![
                            ActionView::Print("Uninstalling repository "@ + pkg@ + "..."@),
                            shell(uninstall_command_spec(self.package_manager, pkg@)),
                        ]);
                    }
                } else {
                    assert(before.remove(pkg@) =~= before);
                }
                proof {
                    assert(prev_acts + uninstall_all_spec(old(self).package_manager, before, rest)
                        =~= action_views(acts@) + uninstall_all_spec(
                        old(self).package_manager,
                        self.packages@,
                        names.skip(i + 1),
                    ));
                }
                i += 1;
            }
            proof {
                assert(names.take(packages@.len() as int) =~= names);
                assert(names.skip(packages@.len() as int) =~= Seq::<Seq<char>>::empty());
                assert(action_views(acts@) + Seq::<ActionView>::empty() =~= action_views(acts@));
            }
        }
        acts
    }

    /// Upgrades every repository package.
    pub fn update(&self) -> (acts: Vec<Action>)
        ensures
            action_views(acts@) == update_spec(self.package_manager),
    {
        let mut acts: Vec<Action> = Vec::new();
        acts.push(print("Updating repository...".to_owned()));
        match self.package_manager {
            PackageManager::APT => {
                acts.push(run("sudo apt update".to_owned()));
                acts.push(run("sudo apt upgrade -Vy".to_owned()));
            },
            PackageManager::DNF => {
                acts.push(run("sudo dnf upgrade --refresh -y".to_owned()));
            },
            PackageManager::PACMAN => {
                acts.push(run("sudo pacman -Syu --noconfirm".to_owned()));
            },
            PackageManager::RPMOSTree => {
                acts.push(run("rpm-ostree upgrade".to_owned()));
            },
        }
        assert(action_views(acts@) =~= seq![ActionView::Print("Updating repository..."@)] + match self.package_manager {
            PackageManager::APT => seq![shell("sudo apt update"@), shell("sudo apt upgrade -Vy"@)],
            PackageManager::DNF => seq![shell("sudo dnf upgrade --refresh -y"@)],
            PackageManager::PACMAN => seq![shell("sudo pacman -Syu --noconfirm"@)],
            PackageManager::RPMOSTree => seq![shell("rpm-ostree upgrade"@)],
        });
        acts
    }

    /// Removes packages nothing depends on. With pacman the orphans are listed by
    /// `pacman -Qdtq` and removed with [`orphan_removal`].
    pub fn auto_remove(&self) -> (acts: Vec<Action>)
        ensures
            action_views(acts@) == auto_remove_spec(self.package_manager),
    {
        let mut acts: Vec<Action> = Vec::new();
        acts.push(print("Auto removing repository...".to_owned()));
        match self.package_manager {
            PackageManager::APT => {
                acts.push(run("sudo apt autoremove -Vy".to_owned()));
            },
            PackageManager::DNF => {
                acts.push(run("sudo dnf autoremove -y".to_owned()));
            },
            PackageManager::PACMAN => {
                acts.push(Action::RemoveOrphans);
            },
            _ => {},
        }
        assert(action_views(acts@) =~= auto_remove_spec(self.package_manager));
        acts
    }

    /// Enables snaps where the distribution does not do so by itself.
    pub fn setup_snap(&self) -> (acts: Vec<Action>)
        ensures
            action_views(acts@) == if self.package_manager == PackageManager::DNF {
                seq![
                    shell("sudo systemctl enable --now snapd.socket"@),
                    shell("sudo ln -s /var/lib/snapd/snap /snap"@),
                ]
            } else {
                Seq::empty()
            },
    {
        let mut acts: Vec<Action> = Vec::new();
        if self.package_manager == PackageManager::DNF {
            acts.push(run("sudo systemctl enable --now snapd.socket".to_owned()));
            acts.push(run("sudo ln -s /var/lib/snapd/snap /snap".to_owned()));
        }
        assert(action_views(acts@) =~= if self.package_manager == PackageManager::DNF {
            seq![
                shell("sudo systemctl enable --now snapd.socket"@),
                shell("sudo ln -s /var/lib/snapd/snap /snap"@),
            ]
        } else {
            Seq::empty()
        });
        acts
    }

    /// The command lines whose outputs list the installed Flatpaks and snaps:
    /// each only where its package (`flatpak`, `snapd`) is installed.
    pub fn app_listings(&self) -> (r: (Option<&'static str>, Option<&'static str>))
        ensures
            match r.0 {
                Some(c) => self.packages@.contains("flatpak"@) && c@ == "flatpak list --app"@,
                None => !self.packages@.contains("flatpak"@),
            },
            match r.1 {
                Some(c) => self.packages@.contains("snapd"@) && c@ == "snap list"@,
                None => !self.packages@.contains("snapd"@),
            },
    {
        let flatpak = if self.packages.contains("flatpak") {
            Some("flatpak list --app")
        } else {
            None
        };
        let snap = if self.packages.contains("snapd") {
            Some("snap list")
        } else {
            None
        };
        (flatpak, snap)
    }

    /// The package named by one line of the list of installed packages.
    pub fn installed_entry(&self, line: &str) -> (r: String)
        requires
            self.package_manager == PackageManager::DNF ==> split_whitespace_spec(line@).len() > 0,
        ensures
            r@ == installed_entry_spec(self.package_manager, line@),
    {
        match self.package_manager {
            PackageManager::APT => {
                proof {
                    reveal_strlit("/");
                }
                let columns = split(line, "/");
                proof {
                    crate::text::lemma_split_nonempty(line@, "/"@);
                    assert(views(columns@)[0] == columns@[0]@);
                }
                columns[0].clone()
            },
            PackageManager::DNF => {
                let columns = split_whitespace(line);
                assert(views(columns@)[0] == columns@[0]@);
                match rsplit_once(columns[0].as_str(), ".") {
                    Some(parts) => parts.0,
                    None => String::new(),
                }
            },
            PackageManager::PACMAN => {
                proof {
                    reveal_strlit(" ");
                }
                let columns = split(line, " ");
                proof {
                    crate::text::lemma_split_nonempty(line@, " "@);
                    assert(views(columns@)[0] == columns@[0]@);
                }
                columns[0].clone()
            },
            PackageManager::RPMOSTree => {
                let v = chars_of(line);
                match find_numeric_byte_capped(&v, v.len()) {
                    Some(b) => {
                        if b > 0 && v[b - 1] == '-' {
                            string_of(&v, 0, b - 1)
                        } else {
                            String::new()
                        }
                    },
                    None => String::new(),
                }
            },
        }
    }

    /// The installed repository packages that the output of
    /// [`installed_command`](Self::installed_command) names.
    pub fn get_installed(&self, output: &str) -> (r: NameSet)
        requires
            self.package_manager == PackageManager::DNF ==> lines_have_words_spec(output@),
        ensures
            r@ == installed_set_spec(self.package_manager, output@),
    {
        proof {
            reveal_strlit("\n");
        }
        let lines = split(output, "\n");
        let mut set = NameSet::new();
        let mut i: usize = 0;
        while i < lines.len()
            invariant
                i <= lines@.len(),
                views(lines@) == lines_spec(output@),
                self.package_manager == PackageManager::DNF ==> lines_have_words_spec(output@),
                set@ == entries_upto(self.package_manager, views(lines@), i as nat),
            decreases lines.len() - i,
        {
            let line = lines[i].as_str();
            assert(views(lines@)[i as int] == line@);
            if !line.is_empty() {
                proof {
                    if self.package_manager == PackageManager::DNF {
                        assert(split_whitespace_spec(lines_spec(output@)[i as int]).len() > 0);
                    }
                }
                let entry = self.installed_entry(line);
                if !entry.as_str().is_empty() {
                    set.insert(entry.as_str());
                }
            }
            i += 1;
        }
        set
    }

    /// Sets up the repositories. `enable_free` is the answer to whether the free
    /// EPEL/RPM Fusion repositories are wanted, `enable_nonfree` to whether the
    /// non-free ones are; the latter is asked only after a yes to the former, and
    /// both only for dnf.
    pub fn setup(&mut self, enable_free: bool, enable_nonfree: bool) -> (acts: Vec<Action>)
        ensures
            action_views(acts@) == setup_spec(
                old(self).package_manager,
                old(self).repository,
                old(self).packages@,
                enable_free,
                enable_nonfree,
            ),
            final(self).packages@ == setup_installed_spec(
                old(self).package_manager,
                old(self).repository,
                old(self).packages@,
                enable_free,
                enable_nonfree,
            ),
            final(self).repository == old(self).repository,
            final(self).package_manager == old(self).package_manager,
            final(self).desktop_environments@ == old(self).desktop_environments@,
            final(self).flatpaks@ == old(self).flatpaks@,
            final(self).snaps@ == old(self).snaps@,
            final(self).others@ == old(self).others@,
    {
        let mut acts: Vec<Action> = Vec::new();
        acts.push(print("Setup repository...".to_owned()));
        if self.package_manager != PackageManager::DNF {
            assert(action_views(acts@) =~= setup_spec(
                old(self).package_manager,
                old(self).repository,
                old(self).packages@,
                enable_free,
                enable_nonfree,
            ));
            return acts;
        }
        acts.push(
            Action::AppendIfMissing {
                path: "/etc/dnf/dnf.conf".to_owned(),
                marker: "max_parallel_downloads".to_owned(),
                text: "max_parallel_downloads=10".to_owned(),
                sudo: true,
            },
        );
        if !enable_free {
            assert(action_views(acts@) =~= setup_spec(
                old(self).package_manager,
                old(self).repository,
                old(self).packages@,
                enable_free,
                enable_nonfree,
            ));
            return acts;
        }
        let ghost head = action_views(acts@);
        let free: Vec<&'static str> = match self.repository {
            Repository::Fedora => vec![
                "https://download1.rpmfusion.org/free/fedora/rpmfusion-free-release-38.noarch.rpm",
            ],
            Repository::RedHat => vec![
                "https://dl.fedoraproject.org/pub/epel/epel-release-latest-9.noarch.rpm",
                "https://download1.rpmfusion.org/free/el/rpmfusion-free-release-9.noarch.rpm",
            ],
            _ => Vec::new(),
        };
        assert(crate::linux_setup::package::str_views(free@) =~= free_release_urls(self.repository));
        let more = self.install_names(&free);
        extend(&mut acts, more);
        let ghost after_free = action_views(acts@);
        let mut crb: Vec<Action> = Vec::new();
        if self.repository == Repository::RedHat {
            crb.push(run_quiet("sudo dnf config-manager --set-enabled crb".to_owned()));
        }
        extend(&mut acts, crb);
        let ghost after_crb = action_views(acts@);
        if enable_nonfree {
            let nonfree: Vec<&'static str> = match self.repository {
                Repository::Fedora => vec![
                    "https://download1.rpmfusion.org/nonfree/fedora/rpmfusion-nonfree-release-38.noarch.rpm",
                ],
                Repository::RedHat => vec![
                    "https://download1.rpmfusion.org/nonfree/el/rpmfusion-nonfree-release-9.noarch.rpm",
                ],
                _ => Vec::new(),
            };
            assert(crate::linux_setup::package::str_views(nonfree@) =~= nonfree_release_urls(self.repository));
            let more = self.install_names(&nonfree);
            extend(&mut acts, more);
        }
        let ghost after_nonfree = action_views(acts@);
        let more = self.update();
        extend(&mut acts, more);
        assert(action_views(acts@) =~= setup_spec(
            old(self).package_manager,
            old(self).repository,
            old(self).packages@,
            enable_free,
            enable_nonfree,
        ));
        acts
    }
}

/// Whether every non-empty line of `output` holds a word.
pub fn lines_have_words(output: &str) -> (r: bool)
    ensures
        r == lines_have_words_spec(output@),
{
    proof {
        reveal_strlit("\n");
    }
    let lines = split(output, "\n");
    let mut i: usize = 0;
    while i < lines.len()
        invariant
            i <= lines@.len(),
            views(lines@) == lines_spec(output@),
            forall|j: int|
                0 <= j < i && lines_spec(output@)[j].len() > 0
                    ==> #[trigger] split_whitespace_spec(lines_spec(output@)[j]).len() > 0,
        decreases lines.len() - i,
    {
        assert(views(lines@)[i as int] == lines@[i as int]@);
        if !lines[i].as_str().is_empty() {
            let words = split_whitespace(lines[i].as_str());
            if words.len() == 0 {
                assert(views(words@).len() == 0);
                return false;
            }
        }
        i += 1;
    }
    true
}

/// The removal of the orphaned packages that `pacman -Qdtq` listed, one per line;
/// nothing when it listed none.
pub open spec fn orphan_removal_spec(orphans: Seq<char>) -> Seq<ActionView> {
    let names = nonempty_pieces(lines_spec(orphans));
    if names.len() == 0 {
        Seq::empty()
    } else {
        seq![ActionView::Exec(CommandView {
            program: "sudo"@,
            args: seq!["pacman"@, "-Rsun"@] + names + seq!["--noconfirm"@],
        })]
    }
}

/// Removes the orphaned packages listed in `orphans`, one per line.
pub fn orphan_removal(orphans: &str) -> (acts: Vec<Action>)
    ensures
        action_views(acts@) == orphan_removal_spec(orphans@),
{
    proof {
        reveal_strlit("\n");
    }
    let lines = split(orphans, "\n");
    let mut args: Vec<String> = Vec::new();
    args.push("pacman".to_owned());
    args.push("-Rsun".to_owned());
    let mut i: usize = 0;
    let ghost all = views(lines@);
    proof {
        assert(all.skip(0) =~= all);
        assert(views(args@) =~= seq!["pacman"@, "-Rsun"@] + Seq::<Seq<char>>::empty());
    }
    while i < lines.len()
        invariant
            i <= lines@.len(),
            all == views(lines@),
            nonempty_pieces(all) == views(args@).skip(2) + nonempty_pieces(all.skip(i as int)),
            views(args@).take(2) == seq!["pacman"@, "-Rsun"@],
            views(args@).len() >= 2,
        decreases lines.len() - i,
    {
        let line = &lines[i];
        proof {
            assert(all.skip(i as int)[0] == line@);
            assert(all.skip(i as int).skip(1) =~= all.skip(i + 1));
        }
        let ghost before = views(args@);
        if !line.as_str().is_empty() {
            args.push(line.clone());
            proof {
                assert(views(args@) =~= before.push(line@));
                assert(views(args@).skip(2) =~= before.skip(2).push(line@));
                assert(views(args@).take(2) =~= before.take(2));
                assert(before.skip(2) + nonempty_pieces(all.skip(i as int)) =~= before.skip(2).push(line@) + nonempty_pieces(all.skip(i + 1)));
            }
        }
        i += 1;
    }
    proof {
        assert(all.skip(i as int) =~= Seq::<Seq<char>>::empty());
        assert(nonempty_pieces(all) =~= views(args@).skip(2));
    }
    let mut acts: Vec<Action> = Vec::new();
    if args.len() > 2 {
        args.push("--noconfirm".to_owned());
        proof {
            assert(views(args@) =~= seq!["pacman"@, "-Rsun"@] + nonempty_pieces(all) + seq!["--noconfirm"@]);
        }
        acts.push(Action::Exec(Command { program: "sudo".to_owned(), args }));
    }
    assert(action_views(acts@) =~= orphan_removal_spec(orphans@));
    acts
}

} // verus!
