//! What installing and removing packages promises of the recorded state, across
//! calls.
use vstd::prelude::*;
use crate::action::ActionView;
use crate::linux_setup::distribution::{
    any_installed, insert_all, install_all_spec, remove_all, DistState, PackageManager,
};
use crate::linux_setup::flatpak;
use crate::linux_setup::menu::{install_method_effect, installed_spec, prepare_effect, InstallMethod};
use crate::linux_setup::package::Package;

verus! {

/// The package can be installed with `m`: the repository lists packages for it,
/// or it has a Flatpak (and a remote was chosen), a snap, or its own installer.
pub open spec fn installable_with(d: DistState, p: Package, m: InstallMethod, remote: Option<Seq<char>>) -> bool {
    match m {
        InstallMethod::Repository => p.repository.names(d.repository) matches Some(n) && n.len() > 0,
        InstallMethod::Flatpak => p.flatpak is Some && remote is Some,
        InstallMethod::Snap => p.snap is Some,
        InstallMethod::Other => p.other is Some,
        _ => false,
    }
}

/// Installing a package with a method that offers it leaves the package
/// installed.
pub proof fn law_install_makes_installed(d: DistState, p: Package, m: InstallMethod, remote: Option<Seq<char>>)
    requires
        installable_with(d, p, m, remote),
    ensures
        installed_spec(p, install_method_effect(d, p, m, remote).0),
{
    let after = install_method_effect(d, p, m, remote).0;
    if m == InstallMethod::Repository {
        let n = p.repository.names(d.repository)->0;
        assert(n.to_set().contains(n[0]));
        assert(after.packages.contains(n[0]));
        assert(any_installed(after.packages, p.repository.names(after.repository)));
    } else if m == InstallMethod::Flatpak {
        assert(after.flatpaks.contains(p.flatpak->0.name@));
    } else if m == InstallMethod::Snap {
        assert(after.snaps.contains(p.snap->0.name@));
    } else {
        assert(after.others.contains(p.other->0.name@));
    }
}

proof fn lemma_install_all_installed(pm: PackageManager, s: Set<Seq<char>>, names: Seq<Seq<char>>)
    requires
        forall|i: int| 0 <= i < names.len() ==> s.contains(#[trigger] names[i]),
    ensures
        install_all_spec(pm, s, names) == Seq::<ActionView>::empty(),
    decreases names.len(),
{
    if names.len() > 0 {
        assert(s.insert(names[0]) =~= s);
        let rest = names.skip(1);
        assert forall|i: int| 0 <= i < rest.len() implies s.contains(#[trigger] rest[i]) by {
            assert(rest[i] == names[i + 1]);
        }
        lemma_install_all_installed(pm, s, rest);
    }
}

/// Installing a package a second time with the same method changes nothing;
/// from the repositories, as a snap, or with its own installer it takes no
/// steps either, and as a Flatpak only the remotes are set up again.
pub proof fn law_second_install_changes_nothing(d: DistState, p: Package, m: InstallMethod, remote: Option<Seq<char>>)
    ensures
        install_method_effect(install_method_effect(d, p, m, remote).0, p, m, remote).0 == install_method_effect(
            d,
            p,
            m,
            remote,
        ).0,
        m != InstallMethod::Flatpak ==> install_method_effect(install_method_effect(d, p, m, remote).0, p, m, remote).1
            == Seq::<ActionView>::empty(),
        m == InstallMethod::Flatpak && remote is Some ==> install_method_effect(
            install_method_effect(d, p, m, remote).0,
            p,
            m,
            remote,
        ).1 == flatpak::setup_spec(d.package_manager),
{
    let e = install_method_effect(d, p, m, remote).0;
    let e2 = install_method_effect(e, p, m, remote);
    if m == InstallMethod::Repository {
        match p.repository.names(d.repository) {
            Some(n) => {
                assert(insert_all(insert_all(d.packages, n), n) =~= insert_all(d.packages, n));
                assert forall|i: int| 0 <= i < n.len() implies e.packages.contains(#[trigger] n[i]) by {
                    assert(n.to_set().contains(n[i]));
                }
                lemma_install_all_installed(d.package_manager, e.packages, n);
                assert(e2.0 =~= e);
            },
            None => {},
        }
    } else if m == InstallMethod::Flatpak {
        match remote {
            Some(r) => {
                assert(e.packages.contains("flatpak"@));
                assert(e.packages.insert("flatpak"@) =~= e.packages);
                match p.flatpak {
                    Some(fp) => {
                        assert(e.flatpaks.insert(fp.name@) =~= e.flatpaks);
                        assert(e2.1 =~= flatpak::setup_spec(d.package_manager));
                    },
                    None => {
                        assert(e2.1 =~= flatpak::setup_spec(d.package_manager));
                    },
                }
                assert(e2.0 =~= e);
            },
            None => {},
        }
    } else if m == InstallMethod::Snap {
        assert(e.packages.contains("snapd"@));
        assert(e.packages.insert("snapd"@) =~= e.packages);
        match p.snap {
            Some(s) => {
                assert(e.snaps.insert(s.name@) =~= e.snaps);
                assert(e2.1 =~= Seq::<ActionView>::empty());
            },
            None => {
                assert(e2.1 =~= Seq::<ActionView>::empty());
            },
        }
        assert(e2.0 =~= e);
    } else if m == InstallMethod::Other {
        match p.other {
            Some(o) => {
                assert(e.others.insert(o.name@) =~= e.others);
            },
            None => {},
        }
        assert(e2.0 =~= e);
    }
}

/// Choosing `Uninstall` for a package removes it in every form, where the
/// `flatpak` and `snapd` packages are installed and are not among the package's
/// own repository packages.
pub proof fn law_uninstall_removes_everywhere(d: DistState, p: Package)
    requires
        d.packages.contains("flatpak"@),
        d.packages.contains("snapd"@),
        p.repository.names(d.repository) matches Some(n) ==> !n.contains("flatpak"@) && !n.contains("snapd"@),
    ensures
        !installed_spec(p, prepare_effect(d, p, InstallMethod::Uninstall).0),
{
    let after = prepare_effect(d, p, InstallMethod::Uninstall).0;
    match p.repository.names(d.repository) {
        Some(n) => {
            assert(!n.to_set().contains("flatpak"@));
            assert(!n.to_set().contains("snapd"@));
            assert(remove_all(d.packages, n).contains("flatpak"@));
            assert(remove_all(d.packages, n).contains("snapd"@));
            assert forall|i: int| 0 <= i < n.len() implies !after.packages.contains(#[trigger] n[i]) by {
                assert(n.to_set().contains(n[i]));
            }
        },
        None => {},
    }
    assert(after.repository == d.repository);
}

/// Preparing for a chosen method leaves the package installed in no other
/// form: its repository packages are gone unless the method is `Repository`, its
/// Flatpak unless it is `Flatpak` (wherever the `flatpak` package is still
/// installed, Flatpaks being looked at only then), its snap unless it is `Snap`
/// (likewise with `snapd`), and its own install unless it is `Other`. The form
/// chosen is kept as it was, and so are the repository and package manager.
pub proof fn law_prepare_leaves_only_the_chosen_form(d: DistState, p: Package, m: InstallMethod)
    ensures
        ({
            let a = prepare_effect(d, p, m).0;
            &&& a.repository == d.repository
            &&& a.package_manager == d.package_manager
            &&& m != InstallMethod::Repository ==> !any_installed(a.packages, p.repository.names(d.repository))
            &&& m == InstallMethod::Repository ==> a.packages == d.packages
            &&& (m != InstallMethod::Flatpak && a.packages.contains("flatpak"@)) ==> (p.flatpak matches Some(f)
                ==> !a.flatpaks.contains(f.name@))
            &&& m == InstallMethod::Flatpak ==> a.flatpaks == d.flatpaks
            &&& (m != InstallMethod::Snap && a.packages.contains("snapd"@)) ==> (p.snap matches Some(s)
                ==> !a.snaps.contains(s.name@))
            &&& m == InstallMethod::Snap ==> a.snaps == d.snaps
            &&& m != InstallMethod::Other ==> (p.other matches Some(o) ==> !a.others.contains(o.name@))
            &&& m == InstallMethod::Other ==> a.others == d.others
        }),
{
    let a = prepare_effect(d, p, m).0;
    if m != InstallMethod::Repository {
        match p.repository.names(d.repository) {
            Some(n) => {
                assert forall|i: int| 0 <= i < n.len() implies !a.packages.contains(#[trigger] n[i]) by {
                    assert(n.to_set().contains(n[i]));
                }
            },
            None => {},
        }
    }
}

} // verus!
