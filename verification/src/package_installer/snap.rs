//! Applications from the Snap store.
use vstd::prelude::*;
use crate::action::{action_views, cat3, command, command_spec, print, Action, ActionView, Command};
use crate::package_installer::{position, Info};
use crate::text::{split, split_spec, split_whitespace, split_whitespace_spec, str_eq, views};

verus! {

/// How an application is published in the Snap store.
pub struct Snap {
    pub name: &'static str,
    pub is_official: bool,
    pub is_classic: bool,
    pub channel: &'static str,
}

/// The abstract value of a [`Snap`].
#[verifier::ext_equal]
pub struct SnapView {
    pub name: Seq<char>,
    pub is_official: bool,
    pub is_classic: bool,
    pub channel: Seq<char>,
}

impl View for Snap {
    type V = SnapView;

    open spec fn view(&self) -> SnapView {
        snap_view(self.name@, self.is_official, self.is_classic, self.channel@)
    }
}

/// A snap's abstract value from its parts.
pub open spec fn snap_view(name: Seq<char>, is_official: bool, is_classic: bool, channel: Seq<char>) -> SnapView {
    SnapView { name, is_official, is_classic, channel }
}

/// The snap of a package name, if it is published in the store.
pub open spec fn snap_spec(package: Seq<char>) -> Option<SnapView> {
    if package == "0ad"@ {
        Some(snap_view("0ad"@, true, false, ""@))
    } else if package == "ark"@ {
        Some(snap_view("ark"@, true, false, ""@))
    } else if package == "blender"@ {
        Some(snap_view("blender"@, true, true, ""@))
    } else if package == "chromium"@ {
        Some(snap_view("chromium"@, true, false, ""@))
    } else if package == "code"@ {
        Some(snap_view("code"@, true, true, ""@))
    } else if package == "codium"@ {
        Some(snap_view("codium"@, false, true, ""@))
    } else if package == "discord"@ {
        Some(snap_view("discord"@, false, false, ""@))
    } else if package == "eog"@ {
        Some(snap_view("eog"@, true, false, ""@))
    } else if package == "firefox"@ {
        Some(snap_view("firefox"@, true, false, ""@))
    } else if package == "firefox-esr"@ {
        Some(snap_view("firefox"@, true, false, "esr-stable"@))
    } else if package == "gedit"@ {
        Some(snap_view("gedit"@, true, false, ""@))
    } else if package == "gimp"@ {
        Some(snap_view("gimp"@, false, false, ""@))
    } else if package == "gnome-calculator"@ {
        Some(snap_view("gnome-calculator"@, true, false, ""@))
    } else if package == "gnome-clocks"@ {
        Some(snap_view("gnome-clocks"@, true, false, ""@))
    } else if package == "gnome-sudoku"@ {
        Some(snap_view("gnome-sudoku"@, true, false, ""@))
    } else if package == "gwenview"@ {
        Some(snap_view("gwenview"@, true, false, ""@))
    } else if package == "intellij"@ {
        Some(snap_view("intellij-idea-community"@, true, true, ""@))
    } else if package == "kate"@ {
        Some(snap_view("kate"@, true, true, ""@))
    } else if package == "kcalc"@ {
        Some(snap_view("kcalc"@, true, false, ""@))
    } else if package == "kdenlive"@ {
        Some(snap_view("kdenlive"@, true, false, ""@))
    } else if package == "kdevelop"@ {
        Some(snap_view("kdevelop"@, true, true, ""@))
    } else if package == "kmines"@ {
        Some(snap_view("kmines"@, true, false, ""@))
    } else if package == "knights"@ {
        Some(snap_view("knights"@, true, false, ""@))
    } else if package == "ksudoku"@ {
        Some(snap_view("ksudoku"@, true, false, ""@))
    } else if package == "libreoffice"@ {
        Some(snap_view("libreoffice"@, true, false, ""@))
    } else if package == "node"@ {
        Some(snap_view("node"@, true, true, "18/stable"@))
    } else if package == "okular"@ {
        Some(snap_view("okular"@, true, false, ""@))
    } else if package == "pycharm"@ {
        Some(snap_view("pycharm-community"@, true, true, ""@))
    } else if package == "quadrapassel"@ {
        Some(snap_view("quadrapassel"@, true, false, ""@))
    } else if package == "snap-store"@ {
        Some(snap_view("snap-store"@, true, false, ""@))
    } else if package == "steam"@ {
        Some(snap_view("steam"@, true, false, ""@))
    } else if package == "supertuxkart"@ {
        Some(snap_view("supertuxkart"@, false, false, ""@))
    } else if package == "thunderbird"@ {
        Some(snap_view("thunderbird"@, true, false, ""@))
    } else if package == "vlc"@ {
        Some(snap_view("vlc"@, true, false, ""@))
    } else if package == "xonotic"@ {
        Some(snap_view("xonotic"@, false, false, ""@))
    } else {
        None
    }
}

/// The snap of a package name, if it is published in the store.
pub fn get_package(package: &str) -> (r: Option<Snap>)
    ensures
        match r {
            Some(s) => snap_spec(package@) == Some(s@),
            None => snap_spec(package@) is None,
        },
{
    if str_eq(package, "0ad") {
        return Some(Snap { name: "0ad", is_official: true, is_classic: false, channel: "" });
    }
    if str_eq(package, "ark") {
        return Some(Snap { name: "ark", is_official: true, is_classic: false, channel: "" });
    }
    if str_eq(package, "blender") {
        return Some(Snap { name: "blender", is_official: true, is_classic: true, channel: "" });
    }
    if str_eq(package, "chromium") {
        return Some(Snap { name: "chromium", is_official: true, is_classic: false, channel: "" });
    }
    if str_eq(package, "code") {
        return Some(Snap { name: "code", is_official: true, is_classic: true, channel: "" });
    }
    if str_eq(package, "codium") {
        return Some(Snap { name: "codium", is_official: false, is_classic: true, channel: "" });
    }
    if str_eq(package, "discord") {
        return Some(Snap { name: "discord", is_official: false, is_classic: false, channel: "" });
    }
    if str_eq(package, "eog") {
        return Some(Snap { name: "eog", is_official: true, is_classic: false, channel: "" });
    }
    if str_eq(package, "firefox") {
        return Some(Snap { name: "firefox", is_official: true, is_classic: false, channel: "" });
    }
    if str_eq(package, "firefox-esr") {
        return Some(Snap { name: "firefox", is_official: true, is_classic: false, channel: "esr-stable" });
    }
    if str_eq(package, "gedit") {
        return Some(Snap { name: "gedit", is_official: true, is_classic: false, channel: "" });
    }
    if str_eq(package, "gimp") {
        return Some(Snap { name: "gimp", is_official: false, is_classic: false, channel: "" });
    }
    if str_eq(package, "gnome-calculator") {
        return Some(Snap { name: "gnome-calculator", is_official: true, is_classic: false, channel: "" });
    }
    if str_eq(package, "gnome-clocks") {
        return Some(Snap { name: "gnome-clocks", is_official: true, is_classic: false, channel: "" });
    }
    if str_eq(package, "gnome-sudoku") {
        return Some(Snap { name: "gnome-sudoku", is_official: true, is_classic: false, channel: "" });
    }
    if str_eq(package, "gwenview") {
        return Some(Snap { name: "gwenview", is_official: true, is_classic: false, channel: "" });
    }
    if str_eq(package, "intellij") {
        return Some(Snap { name: "intellij-idea-community", is_official: true, is_classic: true, channel: "" });
    }
    if str_eq(package, "kate") {
        return Some(Snap { name: "kate", is_official: true, is_classic: true, channel: "" });
    }
    if str_eq(package, "kcalc") {
        return Some(Snap { name: "kcalc", is_official: true, is_classic: false, channel: "" });
    }
    if str_eq(package, "kdenlive") {
        return Some(Snap { name: "kdenlive", is_official: true, is_classic: false, channel: "" });
    }
    if str_eq(package, "kdevelop") {
        return Some(Snap { name: "kdevelop", is_official: true, is_classic: true, channel: "" });
    }
    if str_eq(package, "kmines") {
        return Some(Snap { name: "kmines", is_official: true, is_classic: false, channel: "" });
    }
    if str_eq(package, "knights") {
        return Some(Snap { name: "knights", is_official: true, is_classic: false, channel: "" });
    }
    if str_eq(package, "ksudoku") {
        return Some(Snap { name: "ksudoku", is_official: true, is_classic: false, channel: "" });
    }
    if str_eq(package, "libreoffice") {
        return Some(Snap { name: "libreoffice", is_official: true, is_classic: false, channel: "" });
    }
    if str_eq(package, "node") {
        return Some(Snap { name: "node", is_official: true, is_classic: true, channel: "18/stable" });
    }
    if str_eq(package, "okular") {
        return Some(Snap { name: "okular", is_official: true, is_classic: false, channel: "" });
    }
    if str_eq(package, "pycharm") {
        return Some(Snap { name: "pycharm-community", is_official: true, is_classic: true, channel: "" });
    }
    if str_eq(package, "quadrapassel") {
        return Some(Snap { name: "quadrapassel", is_official: true, is_classic: false, channel: "" });
    }
    if str_eq(package, "snap-store") {
        return Some(Snap { name: "snap-store", is_official: true, is_classic: false, channel: "" });
    }
    if str_eq(package, "steam") {
        return Some(Snap { name: "steam", is_official: true, is_classic: false, channel: "" });
    }
    if str_eq(package, "supertuxkart") {
        return Some(Snap { name: "supertuxkart", is_official: false, is_classic: false, channel: "" });
    }
    if str_eq(package, "thunderbird") {
        return Some(Snap { name: "thunderbird", is_official: true, is_classic: false, channel: "" });
    }
    if str_eq(package, "vlc") {
        return Some(Snap { name: "vlc", is_official: true, is_classic: false, channel: "" });
    }
    if str_eq(package, "xonotic") {
        return Some(Snap { name: "xonotic", is_official: false, is_classic: false, channel: "" });
    }
    None
}

/// Whether the package name is published in the store.
pub fn is_available(package: &str) -> (r: bool)
    ensures
        r == snap_spec(package@) is Some,
{
    get_package(package).is_some()
}

/// Whether the package's snap is in the installed list.
pub open spec fn installed_spec(installed: Seq<Seq<char>>, package: Seq<char>) -> bool {
    match snap_spec(package) {
        Some(s) => installed.contains(s.name),
        None => false,
    }
}

/// Whether the package's snap is installed.
pub fn is_installed(package: &str, info: &Info) -> (r: bool)
    ensures
        r == installed_spec(views(info.snap_installed@), package@),
{
    match get_package(package) {
        Some(s) => position(&info.snap_installed, s.name).is_some(),
        None => false,
    }
}

/// The arguments of `sudo` that install the snap: its name, `--classic` for a
/// classic snap, and the channel where one is set.
pub open spec fn install_args(s: SnapView) -> Seq<Seq<char>> {
    seq!["snap"@, "install"@, s.name] + (if s.is_classic {
        seq!["--classic"@]
    } else {
        Seq::empty()
    }) + (if s.channel.len() > 0 {
        seq!["--channel"@, s.channel]
    } else {
        Seq::empty()
    })
}

fn install_command(s: &Snap) -> (c: Command)
    ensures
        c@ == command_spec("sudo"@, install_args(s@)),
{
    let mut c = command("sudo", vec!["snap", "install", s.name]);
    assert(c@.args =~= seq!["snap"@, "install"@, s.name@]);
    let ghost base = c@.args;
    if s.is_classic {
        c.args.push("--classic".to_owned());
        assert(c@.args =~= base.push("--classic"@));
    }
    let ghost mid = c@.args;
    if !s.channel.is_empty() {
        c.args.push("--channel".to_owned());
        c.args.push(s.channel.to_owned());
        assert(c@.args =~= mid.push("--channel"@).push(s.channel@));
    }
    assert(c@.args =~= install_args(s@));
    c
}

/// Installing a package name: the installed list after it, and the steps.
pub open spec fn install_spec(installed: Seq<Seq<char>>, package: Seq<char>) -> (Seq<Seq<char>>, Seq<ActionView>) {
    match snap_spec(package) {
        Some(s) => if installed.contains(s.name) {
            (installed, Seq::empty())
        } else {
            (
                installed.push(s.name),
                seq![
                    ActionView::Print("Installing snap "@ + s.name + "..."@),
                    ActionView::Exec(command_spec("sudo"@, install_args(s))),
                ],
            )
        },
        None => (installed, Seq::empty()),
    }
}

/// Installs the package's snap unless it is in the installed list, and adds it
/// to the list.
pub fn install(package: &str, info: &mut Info) -> (acts: Vec<Action>)
    ensures
        (views(final(info).snap_installed@), action_views(acts@)) == install_spec(
            views(old(info).snap_installed@),
            package@,
        ),
        final(info).flatpak_installed@ == old(info).flatpak_installed@,
{
    let mut acts: Vec<Action> = Vec::new();
    if let Some(s) = get_package(package) {
        if position(&info.snap_installed, s.name).is_none() {
            let ghost before = views(info.snap_installed@);
            info.snap_installed.push(s.name.to_owned());
            assert(views(info.snap_installed@) =~= before.push(s.name@));
            acts.push(print(cat3("Installing snap ", s.name, "...")));
            acts.push(Action::Exec(install_command(&s)));
        }
    }
    assert(action_views(acts@) =~= install_spec(views(old(info).snap_installed@), package@).1);
    acts
}

/// Uninstalling a package name: the installed list after it, and the steps.
pub open spec fn uninstall_spec(installed: Seq<Seq<char>>, package: Seq<char>) -> (Seq<Seq<char>>, Seq<ActionView>) {
    match snap_spec(package) {
        Some(s) => if installed.contains(s.name) {
            (
                installed.remove_value(s.name),
                seq![
                    ActionView::Print("Uninstalling snap "@ + s.name + "..."@),
                    ActionView::Exec(command_spec("sudo"@, seq!["snap"@, "remove"@, s.name])),
                ],
            )
        } else {
            (installed, Seq::empty())
        },
        None => (installed, Seq::empty()),
    }
}

/// Removes the package's snap if it is in the installed list, and takes its
/// first entry out of the list.
pub fn uninstall(package: &str, info: &mut Info) -> (acts: Vec<Action>)
    ensures
        (views(final(info).snap_installed@), action_views(acts@)) == uninstall_spec(
            views(old(info).snap_installed@),
            package@,
        ),
        final(info).flatpak_installed@ == old(info).flatpak_installed@,
{
    let mut acts: Vec<Action> = Vec::new();
    if let Some(s) = get_package(package) {
        if let Some(index) = position(&info.snap_installed, s.name) {
            let ghost before = info.snap_installed@;
            info.snap_installed.remove(index);
            assert(views(info.snap_installed@) =~= views(before).remove(index as int));
            acts.push(print(cat3("Uninstalling snap ", s.name, "...")));
            let c = command("sudo", vec!["snap", "remove", s.name]);
            assert(c@.args =~= seq!["snap"@, "remove"@, s.name@]);
            acts.push(Action::Exec(c));
        }
    }
    assert(action_views(acts@) =~= uninstall_spec(views(old(info).snap_installed@), package@).1);
    acts
}

/// Refreshes every snap.
pub fn update() -> (acts: Vec<Action>)
    ensures
        action_views(acts@) == seq![
            ActionView::Print("Update snap..."@),
            ActionView::Exec(command_spec("sudo"@, seq!["snap"@, "refresh"@])),
        ],
{
    let c = command("sudo", vec!["snap", "refresh"]);
    assert(c@.args =~= seq!["snap"@, "refresh"@]);
    let acts = vec![print("Update snap...".to_owned()), Action::Exec(c)];
    assert(action_views(acts@) =~= seq![
        ActionView::Print("Update snap..."@),
        ActionView::Exec(command_spec("sudo"@, seq!["snap"@, "refresh"@])),
    ]);
    acts
}

/// The first whitespace-separated word of each of the first `n` non-empty lines
/// that have one, in order.
pub open spec fn first_words(lines: Seq<Seq<char>>, n: nat) -> Seq<Seq<char>>
    decreases n,
{
    if n == 0 {
        Seq::empty()
    } else {
        let words = split_whitespace_spec(lines[n - 1]);
        let prev = first_words(lines, (n - 1) as nat);
        if lines[n - 1].len() > 0 && words.len() > 0 {
            prev.push(words[0])
        } else {
            prev
        }
    }
}

/// The snaps listed by the output of `snap list` (its header line included);
/// no output gives none.
pub fn get_installed(output: Option<&str>) -> (r: Vec<String>)
    ensures
        views(r@) == match output {
            Some(o) => first_words(split_spec(o@, "\n"@), split_spec(o@, "\n"@).len()),
            None => Seq::empty(),
        },
{
    let mut packages: Vec<String> = Vec::new();
    if let Some(o) = output {
        proof {
            reveal_strlit("\n");
        }
        let lines = split(o, "\n");
        let mut i: usize = 0;
        while i < lines.len()
            invariant
                i <= lines@.len(),
                views(lines@) == split_spec(o@, "\n"@),
                views(packages@) == first_words(views(lines@), i as nat),
            decreases lines.len() - i,
        {
            let line = lines[i].as_str();
            assert(views(lines@)[i as int] == line@);
            let ghost before = views(packages@);
            if !line.is_empty() {
                let words = split_whitespace(line);
                if words.len() > 0 {
                    packages.push(words[0].clone());
                    assert(views(packages@) =~= before.push(views(words@)[0]));
                }
            }
            i += 1;
        }
    }
    packages
}

/// Installing a package that is published leaves it installed.
pub proof fn law_install_makes_installed(installed: Seq<Seq<char>>, package: Seq<char>)
    requires
        snap_spec(package) is Some,
    ensures
        installed_spec(install_spec(installed, package).0, package),
{
    let id = snap_spec(package)->0.name;
    if !installed.contains(id) {
        assert(installed.push(id)[installed.len() as int] == id);
    }
}

/// Installing a package a second time changes nothing and takes no steps.
pub proof fn law_second_install_changes_nothing(installed: Seq<Seq<char>>, package: Seq<char>)
    ensures
        install_spec(install_spec(installed, package).0, package) == (install_spec(installed, package).0, Seq::<ActionView>::empty()),
{
    if snap_spec(package) is Some {
        law_install_makes_installed(installed, package);
    }
}

/// Removing a package that was not installed before it was installed gives back
/// the list as it was.
pub proof fn law_uninstall_undoes_install(installed: Seq<Seq<char>>, package: Seq<char>)
    requires
        !installed_spec(installed, package),
    ensures
        uninstall_spec(install_spec(installed, package).0, package).0 == installed,
{
    if snap_spec(package) is Some {
        let id = snap_spec(package)->0.name;
        let after = installed.push(id);
        law_install_makes_installed(installed, package);
        after.index_of_first_ensures(id);
        let k = after.index_of_first(id)->0;
        if k < installed.len() {
            assert(installed[k] == id);
        }
        assert(after.remove(installed.len() as int) =~= installed);
    }
}

} // verus!
