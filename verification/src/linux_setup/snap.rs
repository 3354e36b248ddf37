//! Snap packages.
use vstd::prelude::*;
use crate::action::{action_views, cat3, print, run, shell, Action, ActionView, Command, CommandView};
use crate::linux_setup::distribution::{install_package_spec, lines_spec, DistState, Distribution};
use crate::linux_setup::package::Package;
use crate::name_set::NameSet;
use crate::text::{split, split_whitespace, split_whitespace_spec, views};

verus! {

/// How a package is published in the Snap store.
pub struct Snap {
    pub name: &'static str,
    pub is_official: bool,
    pub is_classic: bool,
    pub channel: &'static str,
}

/// Whether the package is published as a snap.
pub fn is_available(package: &Package) -> (r: bool)
    ensures
        r == package.snap is Some,
{
    package.snap.is_some()
}

/// Whether the package's snap is installed.
pub fn is_installed(package: &Package, distribution: &Distribution) -> (r: bool)
    ensures
        r == (package.snap matches Some(snp) && distribution.snaps@.contains(snp.name@)),
{
    if let Some(snp) = &package.snap {
        if distribution.snaps.contains(snp.name) {
            return true;
        }
    }
    false
}

/// The command that installs the snap: classic confinement and a channel as given.
pub open spec fn install_command_spec(name: Seq<char>, classic: bool, channel: Seq<char>) -> CommandView {
    CommandView {
        program: "sudo"@,
        args: seq!["snap"@, "install"@, name] + (if classic {
            seq!["--classic"@]
        } else {
            Seq::empty()
        }) + (if channel.len() > 0 {
            seq!["--channel"@, channel]
        } else {
            Seq::empty()
        }),
    }
}

/// The command that installs the snap.
pub fn install_command(snp: &Snap) -> (c: Command)
    ensures
        c@ == install_command_spec(snp.name@, snp.is_classic, snp.channel@),
{
    let mut args: Vec<String> = Vec::new();
    args.push("snap".to_owned());
    args.push("install".to_owned());
    args.push(snp.name.to_owned());
    if snp.is_classic {
        args.push("--classic".to_owned());
    }
    if !snp.channel.is_empty() {
        args.push("--channel".to_owned());
        args.push(snp.channel.to_owned());
    }
    let c = Command { program: "sudo".to_owned(), args };
    assert(c@.args =~= install_command_spec(snp.name@, snp.is_classic, snp.channel@).args);
    c
}

/// What installing the snap does to the state, and the steps it takes.
pub open spec fn install_effect(d: DistState, snap: Option<Snap>) -> (DistState, Seq<ActionView>) {
    let d1 = DistState { packages: d.packages.insert("snapd"@), ..d };
    let pre = install_package_spec(d.package_manager, d.packages, "snapd"@);
    match snap {
        Some(snp) => (
            DistState { snaps: d.snaps.insert(snp.name@), ..d1 },
            pre + if d.snaps.contains(snp.name@) {
                Seq::empty()
            } else {
                seq![
                    ActionView::Print("Installing snap "@ + snp.name@ + "..."@),
                    ActionView::Exec(install_command_spec(snp.name@, snp.is_classic, snp.channel@)),
                ]
            },
        ),
        None => (d1, pre),
    }
}

/// What removing the snap does to the state, and the steps it takes.
pub open spec fn uninstall_effect(d: DistState, snap: Option<Snap>) -> (DistState, Seq<ActionView>) {
    match snap {
        Some(snp) => (
            DistState { snaps: d.snaps.remove(snp.name@), ..d },
            if d.snaps.contains(snp.name@) {
                seq![
                    ActionView::Print("Uninstalling snap "@ + snp.name@ + "..."@),
                    shell("sudo snap remove "@ + snp.name@),
                ]
            } else {
                Seq::empty()
            },
        ),
        None => (d, Seq::empty()),
    }
}

/// Installs the package's snap, after the `snapd` package.
pub fn install(package: &Package, distribution: &mut Distribution) -> (acts: Vec<Action>)
    ensures
        (final(distribution)@, action_views(acts@)) == install_effect(old(distribution)@, package.snap),
        action_views(acts@) == install_package_spec(
            old(distribution).package_manager,
            old(distribution).packages@,
            "snapd"@,
        ) + match package.snap {
            Some(snp) => if old(distribution).snaps@.contains(snp.name@) {
                Seq::empty()
            } else {
                seq![
                    ActionView::Print("Installing snap "@ + snp.name@ + "..."@),
                    ActionView::Exec(install_command_spec(snp.name@, snp.is_classic, snp.channel@)),
                ]
            },
            None => Seq::empty(),
        },
        final(distribution).packages@ == old(distribution).packages@.insert("snapd"@),
        final(distribution).snaps@ == match package.snap {
            Some(snp) => old(distribution).snaps@.insert(snp.name@),
            None => old(distribution).snaps@,
        },
        final(distribution).repository == old(distribution).repository,
        final(distribution).package_manager == old(distribution).package_manager,
        final(distribution).desktop_environments@ == old(distribution).desktop_environments@,
        final(distribution).flatpaks@ == old(distribution).flatpaks@,
        final(distribution).others@ == old(distribution).others@,
{
    let mut acts = distribution.install_package("snapd");
    let ghost head = action_views(acts@);
    if let Some(snp) = &package.snap {
        if distribution.snaps.insert(snp.name) {
            acts.push(print(cat3("Installing snap ", snp.name, "...")));
            acts.push(Action::Exec(install_command(snp)));
        }
    }
    assert(action_views(acts@) =~= head + match package.snap {
        Some(snp) => if old(distribution).snaps@.contains(snp.name@) {
            Seq::empty()
        } else {
            seq![
                ActionView::Print("Installing snap "@ + snp.name@ + "..."@),
                ActionView::Exec(install_command_spec(snp.name@, snp.is_classic, snp.channel@)),
            ]
        },
        None => Seq::empty(),
    });
    acts
}

/// Removes the package's snap if it is installed.
pub fn uninstall(package: &Package, distribution: &mut Distribution) -> (acts: Vec<Action>)
    ensures
        (final(distribution)@, action_views(acts@)) == uninstall_effect(old(distribution)@, package.snap),
        action_views(acts@) == match package.snap {
            Some(snp) => if old(distribution).snaps@.contains(snp.name@) {
                seq![
                    ActionView::Print("Uninstalling snap "@ + snp.name@ + "..."@),
                    shell("sudo snap remove "@ + snp.name@),
                ]
            } else {
                Seq::empty()
            },
            None => Seq::empty(),
        },
        final(distribution).snaps@ == match package.snap {
            Some(snp) => old(distribution).snaps@.remove(snp.name@),
            None => old(distribution).snaps@,
        },
        final(distribution).packages@ == old(distribution).packages@,
        final(distribution).repository == old(distribution).repository,
        final(distribution).package_manager == old(distribution).package_manager,
        final(distribution).desktop_environments@ == old(distribution).desktop_environments@,
        final(distribution).flatpaks@ == old(distribution).flatpaks@,
        final(distribution).others@ == old(distribution).others@,
{
    let mut acts: Vec<Action> = Vec::new();
    if let Some(snp) = &package.snap {
        if distribution.snaps.remove(snp.name) {
            acts.push(print(cat3("Uninstalling snap ", snp.name, "...")));
            let mut cmd = "sudo snap remove ".to_owned();
            cmd.append(snp.name);
            acts.push(run(cmd));
        }
    }
    assert(action_views(acts@) =~= match package.snap {
        Some(snp) => if old(distribution).snaps@.contains(snp.name@) {
            seq![
                ActionView::Print("Uninstalling snap "@ + snp.name@ + "..."@),
                shell("sudo snap remove "@ + snp.name@),
            ]
        } else {
            Seq::empty()
        },
        None => Seq::empty(),
    });
    acts
}

/// Refreshes every snap.
pub fn update() -> (acts: Vec<Action>)
    ensures
        action_views(acts@) == seq![
            ActionView::Print("Update snap..."@),
            shell("sudo snap refresh"@),
        ],
{
    let acts = vec![print("Update snap...".to_owned()), run("sudo snap refresh".to_owned())];
    assert(action_views(acts@) =~= seq![
        ActionView::Print("Update snap..."@),
        shell("sudo snap refresh"@),
    ]);
    acts
}

/// The snap names in the first column of the first `n` non-empty lines.
pub open spec fn snap_names_upto(lines: Seq<Seq<char>>, n: nat) -> Set<Seq<char>>
    decreases n,
{
    if n == 0 {
        Set::empty()
    } else {
        let cols = split_whitespace_spec(lines[n - 1]);
        let prev = snap_names_upto(lines, (n - 1) as nat);
        if lines[n - 1].len() > 0 && cols.len() > 0 {
            prev.insert(cols[0])
        } else {
            prev
        }
    }
}

/// The installed snaps named by the output of `snap list`.
pub fn get_installed(output: &str) -> (r: NameSet)
    ensures
        r@ == snap_names_upto(lines_spec(output@), lines_spec(output@).len()),
{
    proof {
        reveal_strlit("\n");
    }
    let lines = split(output, "\n");
    let mut set = NameSet::new();
    let mut i: usize = 0;
    while i < lines.len()
        invariant
            i <= lines@.len(),
            views(lines@) == lines_spec(output@),
            set@ == snap_names_upto(views(lines@), i as nat),
        decreases lines.len() - i,
    {
        let line = lines[i].as_str();
        assert(views(lines@)[i as int] == line@);
        if !line.is_empty() {
            let columns = split_whitespace(line);
            if columns.len() > 0 {
                assert(views(columns@)[0] == columns@[0]@);
                set.insert(columns[0].as_str());
            }
        }
        i += 1;
    }
    set
}

} // verus!
