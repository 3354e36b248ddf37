//! Flatpak applications.
use vstd::prelude::*;
use crate::action::{
    action_views, cat3, extend, print, quiet_shell, run, run_quiet, shell, Action, ActionView,
};
use crate::linux_setup::distribution::{
    install_package_spec, lines_spec, DistState, Distribution, PackageManager,
};
use crate::linux_setup::package::Package;
use crate::name_set::NameSet;
use crate::text::{split, split_spec, views};

verus! {

/// How a package is published on Flatpak remotes.
pub struct Flatpak {
    pub name: &'static str,
    pub is_verified: bool,
    pub remotes: Vec<&'static str>,
}

/// Adding the Flatpak remotes.
pub open spec fn setup_spec(pm: PackageManager) -> Seq<ActionView> {
    seq![
        ActionView::Print("Setup flatpak..."@),
        quiet_shell(
            "flatpak remote-add --if-not-exists flathub https://flathub.org/repo/flathub.flatpakrepo"@,
        ),
    ] + if pm == PackageManager::DNF {
        seq![
            quiet_shell(
                "flatpak remote-add --if-not-exists fedora oci+https://registry.fedoraproject.org"@,
            ),
        ]
    } else {
        Seq::empty()
    }
}

/// Adds the Flathub remote, and the Fedora remote where dnf is used.
pub fn setup(distribution: &Distribution) -> (acts: Vec<Action>)
    ensures
        action_views(acts@) == setup_spec(distribution.package_manager),
{
    let mut acts: Vec<Action> = Vec::new();
    acts.push(print("Setup flatpak...".to_owned()));
    acts.push(
        run_quiet(
            "flatpak remote-add --if-not-exists flathub https://flathub.org/repo/flathub.flatpakrepo".to_owned(),
        ),
    );
    if distribution.package_manager == PackageManager::DNF {
        acts.push(
            run_quiet(
                "flatpak remote-add --if-not-exists fedora oci+https://registry.fedoraproject.org".to_owned(),
            ),
        );
    }
    assert(action_views(acts@) =~= setup_spec(distribution.package_manager));
    acts
}

/// Whether the package is published as a Flatpak.
pub fn is_available(package: &Package) -> (r: bool)
    ensures
        r == package.flatpak is Some,
{
    package.flatpak.is_some()
}

/// Whether the package's Flatpak is installed.
pub fn is_installed(package: &Package, distribution: &Distribution) -> (r: bool)
    ensures
        r == (package.flatpak matches Some(fp) && distribution.flatpaks@.contains(fp.name@)),
{
    if let Some(fp) = &package.flatpak {
        if distribution.flatpaks.contains(fp.name) {
            return true;
        }
    }
    false
}

/// Installing the Flatpak `name` from `remote`, given the installed Flatpaks.
pub open spec fn install_flatpak_spec(installed: Set<Seq<char>>, name: Seq<char>, remote: Seq<char>) -> Seq<ActionView> {
    if installed.contains(name) {
        Seq::empty()
    } else {
        seq![
            ActionView::Print("Installing flatpak "@ + name + " from "@ + remote + "..."@),
            shell("flatpak install "@ + remote + " "@ + name + " -y"@),
        ]
    }
}

/// The Flatpak application id of a package, if it has one.
pub open spec fn flatpak_name(package: Package) -> Option<Seq<char>> {
    match package.flatpak {
        Some(fp) => Some(fp.name@),
        None => None,
    }
}

/// What installing the Flatpak `name` from `remote` does to the state, and the
/// steps it takes.
pub open spec fn install_effect(d: DistState, name: Option<Seq<char>>, remote: Seq<char>) -> (DistState, Seq<ActionView>) {
    let d1 = DistState { packages: d.packages.insert("flatpak"@), ..d };
    let pre = install_package_spec(d.package_manager, d.packages, "flatpak"@) + setup_spec(
        d.package_manager,
    );
    match name {
        Some(n) => (
            DistState { flatpaks: d.flatpaks.insert(n), ..d1 },
            pre + install_flatpak_spec(d.flatpaks, n, remote),
        ),
        None => (d1, pre),
    }
}

/// What removing the Flatpak `name` does to the state, and the steps it takes.
pub open spec fn uninstall_effect(d: DistState, name: Option<Seq<char>>) -> (DistState, Seq<ActionView>) {
    match name {
        Some(n) => (DistState { flatpaks: d.flatpaks.remove(n), ..d }, uninstall_flatpak_spec(d.flatpaks, n)),
        None => (d, Seq::empty()),
    }
}

/// Installs the package's Flatpak from `remote`, after the `flatpak` package and
/// the remotes.
pub fn install(package: &Package, remote: &str, distribution: &mut Distribution) -> (acts: Vec<Action>)
    ensures
        (final(distribution)@, action_views(acts@)) == install_effect(old(distribution)@, flatpak_name(*package), remote@),
        action_views(acts@) == install_package_spec(
            old(distribution).package_manager,
            old(distribution).packages@,
            "flatpak"@,
        ) + setup_spec(old(distribution).package_manager) + match package.flatpak {
            Some(fp) => install_flatpak_spec(old(distribution).flatpaks@, fp.name@, remote@),
            None => Seq::empty(),
        },
        final(distribution).packages@ == old(distribution).packages@.insert("flatpak"@),
        final(distribution).flatpaks@ == match package.flatpak {
            Some(fp) => old(distribution).flatpaks@.insert(fp.name@),
            None => old(distribution).flatpaks@,
        },
        final(distribution).repository == old(distribution).repository,
        final(distribution).package_manager == old(distribution).package_manager,
        final(distribution).desktop_environments@ == old(distribution).desktop_environments@,
        final(distribution).snaps@ == old(distribution).snaps@,
        final(distribution).others@ == old(distribution).others@,
{
    let mut acts = distribution.install_package("flatpak");
    let more = setup(distribution);
    extend(&mut acts, more);
    let ghost head = action_views(acts@);
    if let Some(fp) = &package.flatpak {
        let name: &str = fp.name;
        if distribution.flatpaks.insert(name) {
            let mut msg = cat3("Installing flatpak ", name, " from ");
            msg.append(remote);
            msg.append("...");
            acts.push(print(msg));
            let mut cmd = cat3("flatpak install ", remote, " ");
            cmd.append(name);
            cmd.append(" -y");
            acts.push(run(cmd));
            assert(action_views(acts@) =~= head + install_flatpak_spec(
                old(distribution).flatpaks@,
                name@,
                remote@,
            ));
        } else {
            assert(action_views(acts@) =~= head + Seq::<ActionView>::empty());
        }
    } else {
        assert(action_views(acts@) =~= head + Seq::<ActionView>::empty());
    }
    acts
}

/// Uninstalling the Flatpak `name`, given the installed Flatpaks.
pub open spec fn uninstall_flatpak_spec(installed: Set<Seq<char>>, name: Seq<char>) -> Seq<ActionView> {
    if installed.contains(name) {
        seq![
            ActionView::Print("Uninstalling flatpak "@ + name + "..."@),
            shell("flatpak remove "@ + name + " -y"@),
        ]
    } else {
        Seq::empty()
    }
}

/// Removes the package's Flatpak if it is installed.
pub fn uninstall(package: &Package, distribution: &mut Distribution) -> (acts: Vec<Action>)
    ensures
        (final(distribution)@, action_views(acts@)) == uninstall_effect(old(distribution)@, flatpak_name(*package)),
        action_views(acts@) == match package.flatpak {
            Some(fp) => uninstall_flatpak_spec(old(distribution).flatpaks@, fp.name@),
            None => Seq::empty(),
        },
        final(distribution).flatpaks@ == match package.flatpak {
            Some(fp) => old(distribution).flatpaks@.remove(fp.name@),
            None => old(distribution).flatpaks@,
        },
        final(distribution).packages@ == old(distribution).packages@,
        final(distribution).repository == old(distribution).repository,
        final(distribution).package_manager == old(distribution).package_manager,
        final(distribution).desktop_environments@ == old(distribution).desktop_environments@,
        final(distribution).snaps@ == old(distribution).snaps@,
        final(distribution).others@ == old(distribution).others@,
{
    let mut acts: Vec<Action> = Vec::new();
    if let Some(fp) = &package.flatpak {
        let name: &str = fp.name;
        if distribution.flatpaks.remove(name) {
            acts.push(print(cat3("Uninstalling flatpak ", name, "...")));
            acts.push(run(cat3("flatpak remove ", name, " -y")));
        }
    }
    assert(action_views(acts@) =~= match package.flatpak {
        Some(fp) => uninstall_flatpak_spec(old(distribution).flatpaks@, fp.name@),
        None => Seq::empty(),
    });
    acts
}

/// Updates every Flatpak.
pub fn update() -> (acts: Vec<Action>)
    ensures
        action_views(acts@) == seq![
            ActionView::Print("Update flatpak..."@),
            shell("flatpak update -y"@),
        ],
{
    let acts = vec![print("Update flatpak...".to_owned()), run("flatpak update -y".to_owned())];
    assert(action_views(acts@) =~= seq![
        ActionView::Print("Update flatpak..."@),
        shell("flatpak update -y"@),
    ]);
    acts
}

/// Removes runtimes that no Flatpak uses.
pub fn auto_remove() -> (acts: Vec<Action>)
    ensures
        action_views(acts@) == seq![
            ActionView::Print("Auto removing flatpak..."@),
            shell("flatpak remove --unused -y"@),
        ],
{
    let acts = vec![
        print("Auto removing flatpak...".to_owned()),
        run("flatpak remove --unused -y".to_owned()),
    ];
    assert(action_views(acts@) =~= seq![
        ActionView::Print("Auto removing flatpak..."@),
        shell("flatpak remove --unused -y"@),
    ]);
    acts
}

/// The application ids in the second tab-separated column of the first `n`
/// non-empty lines that have one.
pub open spec fn app_ids_upto(lines: Seq<Seq<char>>, n: nat) -> Set<Seq<char>>
    decreases n,
{
    if n == 0 {
        Set::empty()
    } else {
        let cols = split_spec(lines[n - 1], "\t"@);
        let prev = app_ids_upto(lines, (n - 1) as nat);
        if lines[n - 1].len() > 0 && cols.len() > 1 {
            prev.insert(cols[1])
        } else {
            prev
        }
    }
}

/// The installed Flatpaks named by the output of `flatpak list --app`.
pub fn get_installed(output: &str) -> (r: NameSet)
    ensures
        r@ == app_ids_upto(lines_spec(output@), lines_spec(output@).len()),
{
    proof {
        reveal_strlit("\n");
        reveal_strlit("\t");
    }
    let lines = split(output, "\n");
    let mut set = NameSet::new();
    let mut i: usize = 0;
    while i < lines.len()
        invariant
            i <= lines@.len(),
            views(lines@) == lines_spec(output@),
            set@ == app_ids_upto(views(lines@), i as nat),
        decreases lines.len() - i,
    {
        let line = lines[i].as_str();
        assert(views(lines@)[i as int] == line@);
        if !line.is_empty() {
            proof {
                reveal_strlit("\t");
            }
            let columns = split(line, "\t");
            if columns.len() > 1 {
                assert(views(columns@)[1] == columns@[1]@);
                set.insert(columns[1].as_str());
            }
        }
        i += 1;
    }
    set
}

} // verus!
