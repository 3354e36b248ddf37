//! The decisions behind the installer's menus: which options are offered, what a
//! choice removes and installs, and what each menu entry does.
use vstd::prelude::*;
use crate::action::{action_views, extend, Action, ActionView};
use crate::linux_setup::distribution::{
    auto_remove_spec, install_effect, setup_installed_spec, setup_spec, uninstall_effect, update_spec,
    DesktopEnvironment, DistState, Distribution,
};
use crate::linux_setup::package::{all_categories, category_title};
use crate::linux_setup::flatpak;
use crate::linux_setup::other;
use crate::linux_setup::hooks::{hook_effect, run_hook};
use crate::linux_setup::package::{Category, InstallHook, Package};
use crate::linux_setup::snap;

verus! {

/// How a package is to be installed, or removed.
#[derive(PartialEq, Eq, Structural, Clone, Copy, Debug)]
pub enum InstallMethod {
    Repository,
    Flatpak,
    Snap,
    Other,
    Uninstall,
    Cancel,
}

/// A terminal colour.
#[derive(PartialEq, Eq, Structural, Clone, Copy, Debug)]
pub enum Color {
    Red,
    Green,
    Yellow,
    Blue,
    Magenta,
    Cyan,
    White,
}

/// Menu text, in a colour or plain.
pub struct Label {
    pub text: String,
    pub color: Option<Color>,
}

impl View for Label {
    type V = (Seq<char>, Option<Color>);

    open spec fn view(&self) -> (Seq<char>, Option<Color>) {
        (self.text@, self.color)
    }
}

fn label(text: &str, color: Option<Color>) -> (l: Label)
    ensures
        l@ == (text@, color),
{
    Label { text: text.to_owned(), color }
}

/// The package is installed in some way.
pub open spec fn installed_spec(p: Package, d: DistState) -> bool {
    crate::linux_setup::distribution::any_installed(d.packages, p.repository.names(d.repository))
        || (p.flatpak matches Some(fp) && d.flatpaks.contains(fp.name@))
        || (p.snap matches Some(snp) && d.snaps.contains(snp.name@))
        || (p.other matches Some(otr) && d.others.contains(otr.name@))
}

/// Whether the package is installed in some way.
pub fn is_installed(package: &Package, distribution: &Distribution) -> (r: bool)
    ensures
        r == installed_spec(*package, distribution@),
{
    distribution.is_installed(package) || flatpak::is_installed(package, distribution)
        || snap::is_installed(package, distribution) || other::is_installed(package, distribution)
}

/// How the package is installed, as the menus show it.
pub open spec fn install_method_label(p: Package, d: DistState) -> (Seq<char>, Option<Color>) {
    if crate::linux_setup::distribution::any_installed(d.packages, p.repository.names(d.repository)) {
        ("Repository"@, Some(Color::Green))
    } else if p.flatpak matches Some(fp) && d.flatpaks.contains(fp.name@) {
        ("Flatpak"@, Some(Color::Blue))
    } else if p.snap matches Some(snp) && d.snaps.contains(snp.name@) {
        ("Snap"@, Some(Color::Magenta))
    } else if p.other matches Some(otr) && d.others.contains(otr.name@) {
        ("Other"@, Some(Color::Yellow))
    } else {
        ("Uninstalled"@, Some(Color::Red))
    }
}

/// How the package is installed, as the menus show it.
pub fn get_install_method(package: &Package, distribution: &Distribution) -> (l: Label)
    ensures
        l@ == install_method_label(*package, distribution@),
{
    if distribution.is_installed(package) {
        return label("Repository", Some(Color::Green));
    }
    if flatpak::is_installed(package, distribution) {
        return label("Flatpak", Some(Color::Blue));
    }
    if snap::is_installed(package, distribution) {
        return label("Snap", Some(Color::Magenta));
    }
    if other::is_installed(package, distribution) {
        return label("Other", Some(Color::Yellow));
    }
    label("Uninstalled", Some(Color::Red))
}

/// An entry of the package menu.
pub struct MethodOption {
    pub label: Label,
    pub method: InstallMethod,
}

/// The label of the snap entry.
pub open spec fn snap_option_text(p: Package) -> Seq<char> {
    match p.snap {
        Some(snp) => "Install Snap"@ + (if snp.is_official {
            " (Official)"@
        } else {
            Seq::empty()
        }) + (if snp.is_classic {
            " (classic)"@
        } else {
            Seq::empty()
        }),
        None => "Install Snap"@,
    }
}

/// The entries of the package menu: each way the package can be installed, then
/// uninstalling and cancelling.
pub open spec fn package_options_spec(p: Package, d: DistState) -> Seq<((Seq<char>, Option<Color>), InstallMethod)> {
    (if p.repository.names(d.repository) is Some {
        seq![(("Install Repository"@, Some(Color::Green)), InstallMethod::Repository)]
    } else {
        Seq::empty()
    }) + (if p.flatpak is Some {
        seq![(("Install Flatpak"@, Some(Color::Blue)), InstallMethod::Flatpak)]
    } else {
        Seq::empty()
    }) + (if p.snap is Some {
        seq![((snap_option_text(p), Some(Color::Magenta)), InstallMethod::Snap)]
    } else {
        Seq::empty()
    }) + (if p.other is Some {
        seq![(("Install Other"@, Some(Color::Yellow)), InstallMethod::Other)]
    } else {
        Seq::empty()
    }) + seq![
        (("Uninstall"@, Some(Color::Red)), InstallMethod::Uninstall),
        (("Cancel"@, None), InstallMethod::Cancel),
    ]
}

/// The abstract entries of a package menu.
pub open spec fn option_views(v: Seq<MethodOption>) -> Seq<((Seq<char>, Option<Color>), InstallMethod)> {
    v.map_values(|o: MethodOption| (o.label@, o.method))
}

/// The entries of the package menu.
pub fn package_options(package: &Package, distribution: &Distribution) -> (r: Vec<MethodOption>)
    ensures
        option_views(r@) == package_options_spec(*package, distribution@),
{
    let mut r: Vec<MethodOption> = Vec::new();
    if distribution.is_available(package) {
        r.push(MethodOption { label: label("Install Repository", Some(Color::Green)), method: InstallMethod::Repository });
    }
    let ghost a = option_views(r@);
    if flatpak::is_available(package) {
        r.push(MethodOption { label: label("Install Flatpak", Some(Color::Blue)), method: InstallMethod::Flatpak });
    }
    let ghost b = option_views(r@);
    if snap::is_available(package) {
        let mut text = "Install Snap".to_owned();
        if let Some(snp) = &package.snap {
            if snp.is_official {
                text.append(" (Official)");
            }
            if snp.is_classic {
                text.append(" (classic)");
            }
        }
        assert(text@ =~= snap_option_text(*package));
        r.push(MethodOption { label: Label { text, color: Some(Color::Magenta) }, method: InstallMethod::Snap });
    }
    let ghost c = option_views(r@);
    if other::is_available(package) {
        r.push(MethodOption { label: label("Install Other", Some(Color::Yellow)), method: InstallMethod::Other });
    }
    r.push(MethodOption { label: label("Uninstall", Some(Color::Red)), method: InstallMethod::Uninstall });
    r.push(MethodOption { label: Label { text: "Cancel".to_owned(), color: None }, method: InstallMethod::Cancel });
    assert(option_views(r@) =~= package_options_spec(*package, distribution@));
    r
}

/// What choosing `m` removes first: every other way the package is installed.
/// Flatpaks are looked at only while the `flatpak` package is installed, snaps
/// only while `snapd` is.
pub open spec fn prepare_effect(d: DistState, p: Package, m: InstallMethod) -> (DistState, Seq<ActionView>) {
    let s1 = if m != InstallMethod::Repository {
        uninstall_effect(d, p.repository.names(d.repository))
    } else {
        (d, Seq::empty())
    };
    let s2 = if m != InstallMethod::Flatpak && s1.0.packages.contains("flatpak"@) {
        flatpak::uninstall_effect(s1.0, flatpak::flatpak_name(p))
    } else {
        (s1.0, Seq::empty())
    };
    let s3 = if m != InstallMethod::Snap && s2.0.packages.contains("snapd"@) {
        snap::uninstall_effect(s2.0, p.snap)
    } else {
        (s2.0, Seq::empty())
    };
    let s4 = if m != InstallMethod::Other {
        other::uninstall_effect(s3.0, p.other)
    } else {
        (s3.0, Seq::empty())
    };
    (s4.0, s1.1 + s2.1 + s3.1 + s4.1)
}

/// Removes every way the package is installed other than `method`.
pub fn prepare_for_method(package: &Package, method: InstallMethod, distribution: &mut Distribution) -> (acts: Vec<Action>)
    ensures
        (final(distribution)@, action_views(acts@)) == prepare_effect(old(distribution)@, *package, method),
{
    let mut acts: Vec<Action> = Vec::new();
    if method != InstallMethod::Repository {
        let more = distribution.uninstall(package);
        extend(&mut acts, more);
    }
    let ghost a1 = action_views(acts@);
    let ghost d1 = distribution@;
    if method != InstallMethod::Flatpak {
        if distribution.packages.contains("flatpak") {
            let more = flatpak::uninstall(package, distribution);
            extend(&mut acts, more);
        }
    }
    let ghost a2 = action_views(acts@);
    let ghost d2 = distribution@;
    if method != InstallMethod::Snap {
        if distribution.packages.contains("snapd") {
            let more = snap::uninstall(package, distribution);
            extend(&mut acts, more);
        }
    }
    let ghost a3 = action_views(acts@);
    if method != InstallMethod::Other {
        let more = other::uninstall(package, distribution);
        extend(&mut acts, more);
    }
    proof {
        let e = prepare_effect(old(distribution)@, *package, method);
        assert(distribution@ =~= e.0);
        assert(action_views(acts@) =~= e.1);
    }
    acts
}

/// What installing with `m` does; a Flatpak needs the remote that was chosen.
pub open spec fn install_method_effect(d: DistState, p: Package, m: InstallMethod, remote: Option<Seq<char>>) -> (DistState, Seq<ActionView>) {
    match m {
        InstallMethod::Repository => install_effect(d, p.repository.names(d.repository)),
        InstallMethod::Flatpak => match remote {
            Some(r) => flatpak::install_effect(d, flatpak::flatpak_name(p), r),
            None => (d, Seq::empty()),
        },
        InstallMethod::Snap => snap::install_effect(d, p.snap),
        InstallMethod::Other => other::install_effect(d, p.other),
        _ => (d, Seq::empty()),
    }
}

/// Installs the package with `method`; a Flatpak from `remote`, and not at all
/// when no remote was chosen.
pub fn install_with_method(
    package: &Package,
    method: InstallMethod,
    remote: Option<&str>,
    distribution: &mut Distribution,
) -> (acts: Vec<Action>)
    ensures
        (final(distribution)@, action_views(acts@)) == install_method_effect(
            old(distribution)@,
            *package,
            method,
            match remote {
                Some(r) => Some(r@),
                None => None,
            },
        ),
{
    match method {
        InstallMethod::Repository => distribution.install(package),
        InstallMethod::Flatpak => match remote {
            Some(r) => flatpak::install(package, r, distribution),
            None => {
                let v: Vec<Action> = Vec::new();
                assert(action_views(v@) =~= Seq::<ActionView>::empty());
                v
            },
        },
        InstallMethod::Snap => snap::install(package, distribution),
        InstallMethod::Other => other::install(package, distribution),
        _ => {
            let v: Vec<Action> = Vec::new();
            assert(action_views(v@) =~= Seq::<ActionView>::empty());
            v
        },
    }
}

/// A hook's effect, where the package has one.
pub open spec fn optional_hook_effect(h: Option<InstallHook>, d: DistState, m: InstallMethod, home: Seq<char>) -> (DistState, Seq<ActionView>) {
    match h {
        Some(h) => hook_effect(h, d, m, home),
        None => (d, Seq::empty()),
    }
}

fn run_optional_hook(h: Option<InstallHook>, method: InstallMethod, home: &str, distribution: &mut Distribution) -> (acts: Vec<Action>)
    ensures
        (final(distribution)@, action_views(acts@)) == optional_hook_effect(h, old(distribution)@, method, home@),
{
    match h {
        Some(h) => run_hook(h, distribution, method, home),
        None => {
            let v: Vec<Action> = Vec::new();
            assert(action_views(v@) =~= Seq::<ActionView>::empty());
            v
        },
    }
}

/// What a choice does before the install itself: nothing for `Cancel`; else
/// every other way the package is installed is removed, then its pre-install
/// hook runs.
pub open spec fn before_install_effect(d: DistState, p: Package, m: InstallMethod, home: Seq<char>) -> (DistState, Seq<ActionView>) {
    if m == InstallMethod::Cancel {
        (d, Seq::empty())
    } else {
        let a = prepare_effect(d, p, m);
        let b = optional_hook_effect(p.pre_install, a.0, m, home);
        (b.0, a.1 + b.1)
    }
}

/// The steps of a choice before the install itself; `home` is the home directory.
pub fn before_install(package: &Package, method: InstallMethod, home: &str, distribution: &mut Distribution) -> (acts: Vec<Action>)
    ensures
        (final(distribution)@, action_views(acts@)) == before_install_effect(old(distribution)@, *package, method, home@),
{
    if method == InstallMethod::Cancel {
        let v: Vec<Action> = Vec::new();
        assert(action_views(v@) =~= Seq::<ActionView>::empty());
        return v;
    }
    let mut acts = prepare_for_method(package, method, distribution);
    let more = run_optional_hook(package.pre_install, method, home, distribution);
    extend(&mut acts, more);
    acts
}

/// What a choice does after the install itself: the package's post-install hook,
/// unless the choice was `Cancel`.
pub open spec fn after_install_effect(d: DistState, p: Package, m: InstallMethod, home: Seq<char>) -> (DistState, Seq<ActionView>) {
    if m == InstallMethod::Cancel {
        (d, Seq::empty())
    } else {
        optional_hook_effect(p.post_install, d, m, home)
    }
}

/// The steps of a choice after the install itself; `home` is the home directory.
pub fn after_install(package: &Package, method: InstallMethod, home: &str, distribution: &mut Distribution) -> (acts: Vec<Action>)
    ensures
        (final(distribution)@, action_views(acts@)) == after_install_effect(old(distribution)@, *package, method, home@),
{
    if method == InstallMethod::Cancel {
        let v: Vec<Action> = Vec::new();
        assert(action_views(v@) =~= Seq::<ActionView>::empty());
        return v;
    }
    run_optional_hook(package.post_install, method, home, distribution)
}

/// The remotes offered for the package's Flatpak, then `Cancel`.
pub fn flatpak_remote_options(package: &Package) -> (r: Vec<&'static str>)
    ensures
        r@ == match package.flatpak {
            Some(fp) => fp.remotes@,
            None => Seq::empty(),
        }.push("Cancel"),
{
    let mut r: Vec<&'static str> = Vec::new();
    if let Some(fp) = &package.flatpak {
        let mut i: usize = 0;
        while i < fp.remotes.len()
            invariant
                i <= fp.remotes@.len(),
                r@ == fp.remotes@.take(i as int),
            decreases fp.remotes.len() - i,
        {
            r.push(fp.remotes[i]);
            assert(fp.remotes@.take(i + 1) =~= fp.remotes@.take(i as int).push(fp.remotes@[i as int]));
            i += 1;
        }
        assert(fp.remotes@.take(fp.remotes@.len() as int) =~= fp.remotes@);
    }
    r.push("Cancel");
    r
}


/// The package can be installed in some way.
pub open spec fn available_spec(p: Package, d: DistState) -> bool {
    p.repository.names(d.repository) is Some || p.flatpak is Some || p.snap is Some
        || p.other is Some
}

/// The package belongs to a desktop environment that is not installed.
pub open spec fn desktop_missing(p: Package, d: DistState) -> bool {
    p.desktop_environment matches Some(de) && !d.desktop_environments.contains(de)
}

/// An entry of a category menu.
#[derive(PartialEq, Eq, Structural, Clone, Copy, Debug)]
pub enum CategoryEntry {
    /// Shows or hides the packages of missing desktop environments.
    Toggle,
    /// The package at `index`; `missing_desktop` marks one of a missing desktop environment.
    Package { index: usize, missing_desktop: bool },
    Exit,
}

/// What follows the choice of a category menu entry.
#[derive(PartialEq, Eq, Structural, Clone, Copy, Debug)]
pub enum CategoryStep {
    /// Open the menu again at `start`, showing the packages of missing desktop
    /// environments or not.
    Reopen { start: usize, show_all: bool },
    /// Open the package at `index`, then the menu again at `start`.
    OpenPackage { index: usize, start: usize },
    /// Leave the menu.
    Leave,
}

/// What follows choosing `entry`, the entry at `selection`, while the packages of
/// missing desktop environments are shown or not: the toggle reopens the menu
/// at the same place with the other choice, a package is opened and the menu
/// reopened at the next entry, and `Exit` leaves.
pub open spec fn category_step_spec(entry: CategoryEntry, selection: usize, show_all: bool) -> CategoryStep {
    match entry {
        CategoryEntry::Toggle => CategoryStep::Reopen { start: selection, show_all: !show_all },
        CategoryEntry::Package { index, .. } => CategoryStep::OpenPackage { index, start: (selection + 1) as usize },
        CategoryEntry::Exit => CategoryStep::Leave,
    }
}

/// What follows choosing `entry`, the entry at `selection`.
pub fn category_step(entry: CategoryEntry, selection: usize, show_all: bool) -> (r: CategoryStep)
    requires
        selection < usize::MAX,
    ensures
        r == category_step_spec(entry, selection, show_all),
{
    match entry {
        CategoryEntry::Toggle => CategoryStep::Reopen { start: selection, show_all: !show_all },
        CategoryEntry::Package { index, .. } => CategoryStep::OpenPackage { index, start: selection + 1 },
        CategoryEntry::Exit => CategoryStep::Leave,
    }
}

/// The package entries for the first `n` packages: those that can be installed,
/// leaving out, unless `show_all`, uninstalled ones of missing desktop environments.
pub open spec fn package_rows(pkgs: Seq<Package>, d: DistState, show_all: bool, n: nat) -> Seq<CategoryEntry>
    decreases n,
{
    if n == 0 {
        Seq::empty()
    } else {
        let p = pkgs[n - 1];
        let prev = package_rows(pkgs, d, show_all, (n - 1) as nat);
        if available_spec(p, d) && (!desktop_missing(p, d) || show_all || installed_spec(p, d)) {
            prev.push(CategoryEntry::Package { index: (n - 1) as usize, missing_desktop: desktop_missing(p, d) })
        } else {
            prev
        }
    }
}

/// Some of the first `n` packages can be installed but belongs to a missing
/// desktop environment.
pub open spec fn some_desktop_missing(pkgs: Seq<Package>, d: DistState, n: nat) -> bool {
    exists|i: int| 0 <= i < n && available_spec(#[trigger] pkgs[i], d) && desktop_missing(pkgs[i], d)
}

/// The entries of a category menu: the toggle when some package belongs to a
/// missing desktop environment, the listed packages, and `Exit`.
pub open spec fn category_entries_spec(pkgs: Seq<Package>, d: DistState, show_all: bool) -> Seq<CategoryEntry> {
    (if some_desktop_missing(pkgs, d, pkgs.len()) {
        seq![CategoryEntry::Toggle]
    } else {
        Seq::empty()
    }) + package_rows(pkgs, d, show_all, pkgs.len()) + seq![CategoryEntry::Exit]
}

/// The entries of the menu of a category whose packages are `packages`.
pub fn category_entries(packages: &Vec<Package>, distribution: &Distribution, show_all: bool) -> (r: Vec<CategoryEntry>)
    ensures
        r@ == category_entries_spec(packages@, distribution@, show_all),
{
    let mut rows: Vec<CategoryEntry> = Vec::new();
    let mut missing = false;
    let mut i: usize = 0;
    while i < packages.len()
        invariant
            i <= packages@.len(),
            rows@ == package_rows(packages@, distribution@, show_all, i as nat),
            missing == some_desktop_missing(packages@, distribution@, i as nat),
        decreases packages.len() - i,
    {
        let package = &packages[i];
        let available = distribution.is_available(package) || flatpak::is_available(package)
            || snap::is_available(package) || other::is_available(package);
        let mut missing_de = false;
        if let Some(de) = &package.desktop_environment {
            if !distribution.desktop_environments.contains(de) {
                missing_de = true;
            }
        }
        assert(missing_de == desktop_missing(*package, distribution@));
        if available {
            if missing_de {
                missing = true;
                assert(some_desktop_missing(packages@, distribution@, (i + 1) as nat)) by {
                    assert(available_spec(packages@[i as int], distribution@));
                }
            }
            if !missing_de || show_all || is_installed(package, distribution) {
                rows.push(CategoryEntry::Package { index: i, missing_desktop: missing_de });
            }
        }
        proof {
            if !(available && missing_de) {
                assert(some_desktop_missing(packages@, distribution@, (i + 1) as nat) == some_desktop_missing(
                    packages@,
                    distribution@,
                    i as nat,
                )) by {
                    if some_desktop_missing(packages@, distribution@, (i + 1) as nat) {
                        let j = choose|j: int|
                            0 <= j < i + 1 && available_spec(#[trigger] packages@[j], distribution@)
                                && desktop_missing(packages@[j], distribution@);
                        assert(j != i);
                    }
                }
            }
        }
        i += 1;
    }
    let mut r: Vec<CategoryEntry> = Vec::new();
    if missing {
        r.push(CategoryEntry::Toggle);
    }
    let ghost head = r@;
    r.append(&mut rows);
    r.push(CategoryEntry::Exit);
    assert(r@ =~= category_entries_spec(packages@, distribution@, show_all));
    r
}

/// The entries of the main menu.
pub open spec fn main_menu_spec(d: DistState) -> Seq<Seq<char>> {
    seq!["Repository Setup"@] + (if d.desktop_environments.contains(DesktopEnvironment::Gnome) {
        seq!["GNOME Setup"@]
    } else {
        Seq::empty()
    }) + (if d.desktop_environments.contains(DesktopEnvironment::KDE) {
        seq!["KDE Setup"@]
    } else {
        Seq::empty()
    }) + seq!["Update Packages"@, "Auto Remove Packages"@, "Install Packages"@, "Exit"@]
}

/// The entries of the main menu.
pub fn main_menu_options(distribution: &Distribution) -> (r: Vec<&'static str>)
    ensures
        crate::linux_setup::package::str_views(r@) == main_menu_spec(distribution@),
{
    let mut r: Vec<&'static str> = vec!["Repository Setup"];
    if distribution.desktop_environments.contains(&DesktopEnvironment::Gnome) {
        r.push("GNOME Setup");
    }
    if distribution.desktop_environments.contains(&DesktopEnvironment::KDE) {
        r.push("KDE Setup");
    }
    r.push("Update Packages");
    r.push("Auto Remove Packages");
    r.push("Install Packages");
    r.push("Exit");
    assert(crate::linux_setup::package::str_views(r@) =~= main_menu_spec(distribution@));
    r
}

/// The entries of the category menu: every category's title, then `Exit`.
pub fn category_menu_options() -> (r: Vec<&'static str>)
    ensures
        crate::linux_setup::package::str_views(r@) == all_categories().map_values(
            |c: Category| category_title(c),
        ).push("Exit"@),
{
    let categories = Category::iterator();
    let mut r: Vec<&'static str> = Vec::new();
    let mut i: usize = 0;
    while i < categories.len()
        invariant
            i <= categories@.len(),
            categories@ == all_categories(),
            crate::linux_setup::package::str_views(r@) == all_categories().take(i as int).map_values(
                |c: Category| category_title(c),
            ),
        decreases categories.len() - i,
    {
        let ghost prev = r@;
        let t = categories[i].as_str();
        r.push(t);
        proof {
            assert(crate::linux_setup::package::str_views(r@) =~= crate::linux_setup::package::str_views(prev).push(t@));
            assert(all_categories().take(i + 1) =~= all_categories().take(i as int).push(categories@[i as int]));
            assert(all_categories().take(i + 1).map_values(|c: Category| category_title(c)) =~= all_categories().take(i as int).map_values(|c: Category| category_title(c)).push(category_title(categories@[i as int])));
            assert(crate::linux_setup::package::str_views(r@) =~= all_categories().take(i + 1).map_values(
                |c: Category| category_title(c),
            ));
        }
        i += 1;
    }
    r.push("Exit");
    proof {
        assert(all_categories().take(10) =~= all_categories());
    }
    assert(crate::linux_setup::package::str_views(r@) =~= all_categories().map_values(
        |c: Category| category_title(c),
    ).push("Exit"@));
    r
}

/// Updating everything: the repository packages, the Flatpaks and snaps when
/// their tools are installed, and the packages with their own installers.
pub open spec fn update_all_spec(d: DistState) -> Seq<ActionView> {
    update_spec(d.package_manager) + (if d.packages.contains("flatpak"@) {
        seq![ActionView::Print("Update flatpak..."@), crate::action::shell("flatpak update -y"@)]
    } else {
        Seq::empty()
    }) + (if d.packages.contains("snapd"@) {
        seq![ActionView::Print("Update snap..."@), crate::action::shell("sudo snap refresh"@)]
    } else {
        Seq::empty()
    }) + seq![ActionView::Print("Update other..."@)] + if d.others.contains("rust"@) {
        seq![crate::action::shell("rustup self update"@), crate::action::shell("rustup update stable"@)]
    } else {
        Seq::empty()
    }
}

/// The `Update Packages` entry.
pub fn update_all(distribution: &Distribution) -> (acts: Vec<Action>)
    ensures
        action_views(acts@) == update_all_spec(distribution@),
{
    let mut acts = distribution.update();
    if distribution.packages.contains("flatpak") {
        extend(&mut acts, flatpak::update());
    }
    let ghost a = action_views(acts@);
    if distribution.packages.contains("snapd") {
        extend(&mut acts, snap::update());
    }
    let ghost b = action_views(acts@);
    extend(&mut acts, other::update(distribution));
    assert(action_views(acts@) =~= update_all_spec(distribution@));
    acts
}

/// Removing what is unused: repository packages, then Flatpak runtimes when the
/// `flatpak` package is installed.
pub open spec fn auto_remove_all_spec(d: DistState) -> Seq<ActionView> {
    auto_remove_spec(d.package_manager) + if d.packages.contains("flatpak"@) {
        seq![
            ActionView::Print("Auto removing flatpak..."@),
            crate::action::shell("flatpak remove --unused -y"@),
        ]
    } else {
        Seq::empty()
    }
}

/// The `Auto Remove Packages` entry.
pub fn auto_remove_all(distribution: &Distribution) -> (acts: Vec<Action>)
    ensures
        action_views(acts@) == auto_remove_all_spec(distribution@),
{
    let mut acts = distribution.auto_remove();
    if distribution.packages.contains("flatpak") {
        extend(&mut acts, flatpak::auto_remove());
    }
    assert(action_views(acts@) =~= auto_remove_all_spec(distribution@));
    acts
}

/// The `Repository Setup` entry: the repository setup with the answers given,
/// then the Flatpak remotes when the `flatpak` package is installed.
pub fn repository_setup(distribution: &mut Distribution, enable_free: bool, enable_nonfree: bool) -> (acts: Vec<Action>)
    ensures
        action_views(acts@) == setup_spec(
            old(distribution).package_manager,
            old(distribution).repository,
            old(distribution).packages@,
            enable_free,
            enable_nonfree,
        ) + if setup_installed_spec(
            old(distribution).package_manager,
            old(distribution).repository,
            old(distribution).packages@,
            enable_free,
            enable_nonfree,
        ).contains("flatpak"@) {
            flatpak::setup_spec(old(distribution).package_manager)
        } else {
            Seq::empty()
        },
        final(distribution).packages@ == setup_installed_spec(
            old(distribution).package_manager,
            old(distribution).repository,
            old(distribution).packages@,
            enable_free,
            enable_nonfree,
        ),
        final(distribution).repository == old(distribution).repository,
        final(distribution).package_manager == old(distribution).package_manager,
{
    let mut acts = distribution.setup(enable_free, enable_nonfree);
    let ghost a = action_views(acts@);
    if distribution.packages.contains("flatpak") {
        extend(&mut acts, flatpak::setup(distribution));
    } else {
        assert(action_views(acts@) =~= a + Seq::<ActionView>::empty());
    }
    acts
}

} // verus!
