//! Packages installed with their own installers.
use vstd::prelude::*;
use crate::action::{action_views, cat3, print, run, shell, Action, ActionView, Command, CommandView};
use crate::linux_setup::distribution::{DistState, Distribution};
use crate::linux_setup::package::Package;
use crate::name_set::NameSet;
use crate::text::str_eq;

verus! {

/// A package with its own installer.
pub struct OtherPackage {
    pub name: &'static str,
}

/// Whether the package has its own installer.
pub fn is_available(package: &Package) -> (r: bool)
    ensures
        r == package.other is Some,
{
    package.other.is_some()
}

/// Whether the package is installed with its own installer.
pub fn is_installed(package: &Package, distribution: &Distribution) -> (r: bool)
    ensures
        r == (package.other matches Some(otr) && distribution.others@.contains(otr.name@)),
{
    if let Some(otr) = &package.other {
        if distribution.others.contains(otr.name) {
            return true;
        }
    }
    false
}

/// The download of the rustup installer piped into a shell.
pub open spec fn rustup_install_spec() -> ActionView {
    ActionView::Pipe(
        CommandView {
            program: "curl"@,
            args: seq!["'=https'"@, "--tlsv1.2"@, "-sSf"@, "https://sh.rustup.rs"@],
        },
        CommandView { program: "sh"@, args: Seq::empty() },
    )
}

/// What installing the package with its own installer does to the state, and the
/// steps it takes.
pub open spec fn install_effect(d: DistState, other: Option<OtherPackage>) -> (DistState, Seq<ActionView>) {
    match other {
        Some(otr) => (
            DistState { others: d.others.insert(otr.name@), ..d },
            if d.others.contains(otr.name@) {
                Seq::empty()
            } else {
                seq![ActionView::Print("Installing other "@ + otr.name@ + "..."@)] + if otr.name@
                    == "rust"@ {
                    seq![rustup_install_spec()]
                } else {
                    Seq::empty()
                }
            },
        ),
        None => (d, Seq::empty()),
    }
}

/// What removing the package installed with its own installer does to the
/// state, and the steps it takes.
pub open spec fn uninstall_effect(d: DistState, other: Option<OtherPackage>) -> (DistState, Seq<ActionView>) {
    match other {
        Some(otr) => (
            DistState { others: d.others.remove(otr.name@), ..d },
            if d.others.contains(otr.name@) {
                seq![ActionView::Print("Uninstalling other "@ + otr.name@ + "..."@)] + if otr.name@
                    == "rust"@ {
                    seq![shell("rustup self uninstall"@)]
                } else {
                    Seq::empty()
                }
            } else {
                Seq::empty()
            },
        ),
        None => (d, Seq::empty()),
    }
}

/// Installs the package with its own installer unless it is installed.
pub fn install(package: &Package, distribution: &mut Distribution) -> (acts: Vec<Action>)
    ensures
        (final(distribution)@, action_views(acts@)) == install_effect(old(distribution)@, package.other),
        action_views(acts@) == match package.other {
            Some(otr) => if old(distribution).others@.contains(otr.name@) {
                Seq::empty()
            } else {
                seq![ActionView::Print("Installing other "@ + otr.name@ + "..."@)] + if otr.name@
                    == "rust"@ {
                    seq![rustup_install_spec()]
                } else {
                    Seq::empty()
                }
            },
            None => Seq::empty(),
        },
        final(distribution).others@ == match package.other {
            Some(otr) => old(distribution).others@.insert(otr.name@),
            None => old(distribution).others@,
        },
        final(distribution).packages@ == old(distribution).packages@,
        final(distribution).repository == old(distribution).repository,
        final(distribution).package_manager == old(distribution).package_manager,
        final(distribution).desktop_environments@ == old(distribution).desktop_environments@,
        final(distribution).flatpaks@ == old(distribution).flatpaks@,
        final(distribution).snaps@ == old(distribution).snaps@,
{
    let mut acts: Vec<Action> = Vec::new();
    if let Some(otr) = &package.other {
        if distribution.others.insert(otr.name) {
            acts.push(print(cat3("Installing other ", otr.name, "...")));
            if str_eq(otr.name, "rust") {
                let curl = Command {
                    program: "curl".to_owned(),
                    args: vec![
                        "'=https'".to_owned(),
                        "--tlsv1.2".to_owned(),
                        "-sSf".to_owned(),
                        "https://sh.rustup.rs".to_owned(),
                    ],
                };
                let sh = Command { program: "sh".to_owned(), args: Vec::new() };
                assert(curl@.args =~= seq!["'=https'"@, "--tlsv1.2"@, "-sSf"@, "https://sh.rustup.rs"@]);
                assert(sh@.args =~= Seq::<Seq<char>>::empty());
                let pipe = Action::Pipe(curl, sh);
                assert(pipe@ == rustup_install_spec());
                acts.push(pipe);
            }
        }
    }
    assert(action_views(acts@) =~= match package.other {
        Some(otr) => if old(distribution).others@.contains(otr.name@) {
            Seq::empty()
        } else {
            seq![ActionView::Print("Installing other "@ + otr.name@ + "..."@)] + if otr.name@
                == "rust"@ {
                seq![rustup_install_spec()]
            } else {
                Seq::empty()
            }
        },
        None => Seq::empty(),
    });
    acts
}

/// Removes the package installed with its own installer.
pub fn uninstall(package: &Package, distribution: &mut Distribution) -> (acts: Vec<Action>)
    ensures
        (final(distribution)@, action_views(acts@)) == uninstall_effect(old(distribution)@, package.other),
        action_views(acts@) == match package.other {
            Some(otr) => if old(distribution).others@.contains(otr.name@) {
                seq![ActionView::Print("Uninstalling other "@ + otr.name@ + "..."@)] + if otr.name@
                    == "rust"@ {
                    seq![shell("rustup self uninstall"@)]
                } else {
                    Seq::empty()
                }
            } else {
                Seq::empty()
            },
            None => Seq::empty(),
        },
        final(distribution).others@ == match package.other {
            Some(otr) => old(distribution).others@.remove(otr.name@),
            None => old(distribution).others@,
        },
        final(distribution).packages@ == old(distribution).packages@,
        final(distribution).repository == old(distribution).repository,
        final(distribution).package_manager == old(distribution).package_manager,
        final(distribution).desktop_environments@ == old(distribution).desktop_environments@,
        final(distribution).flatpaks@ == old(distribution).flatpaks@,
        final(distribution).snaps@ == old(distribution).snaps@,
{
    let mut acts: Vec<Action> = Vec::new();
    if let Some(otr) = &package.other {
        if distribution.others.remove(otr.name) {
            acts.push(print(cat3("Uninstalling other ", otr.name, "...")));
            if str_eq(otr.name, "rust") {
                acts.push(run("rustup self uninstall".to_owned()));
            }
        }
    }
    assert(action_views(acts@) =~= match package.other {
        Some(otr) => if old(distribution).others@.contains(otr.name@) {
            seq![ActionView::Print("Uninstalling other "@ + otr.name@ + "..."@)] + if otr.name@
                == "rust"@ {
                seq![shell("rustup self uninstall"@)]
            } else {
                Seq::empty()
            }
        } else {
            Seq::empty()
        },
        None => Seq::empty(),
    });
    acts
}

/// Updates the packages installed with their own installers.
pub fn update(distribution: &Distribution) -> (acts: Vec<Action>)
    ensures
        action_views(acts@) == seq![ActionView::Print("Update other..."@)] + if distribution.others@.contains(
            "rust"@,
        ) {
            seq![shell("rustup self update"@), shell("rustup update stable"@)]
        } else {
            Seq::empty()
        },
{
    let mut acts: Vec<Action> = Vec::new();
    acts.push(print("Update other...".to_owned()));
    if distribution.others.contains("rust") {
        acts.push(run("rustup self update".to_owned()));
        acts.push(run("rustup update stable".to_owned()));
    }
    assert(action_views(acts@) =~= seq![ActionView::Print("Update other..."@)] + if distribution.others@.contains(
        "rust"@,
    ) {
        seq![shell("rustup self update"@), shell("rustup update stable"@)]
    } else {
        Seq::empty()
    });
    acts
}

/// The packages installed with their own installers: `rust` when `rustup --version`
/// ran successfully.
pub fn get_installed(rustup_found: bool) -> (r: NameSet)
    ensures
        r@ == if rustup_found {
            set!["rust"@]
        } else {
            Set::<Seq<char>>::empty()
        },
{
    let mut set = NameSet::new();
    if rustup_found {
        set.insert("rust");
        assert(Set::<Seq<char>>::empty().insert("rust"@) =~= set!["rust"@]);
    }
    set
}

} // verus!
