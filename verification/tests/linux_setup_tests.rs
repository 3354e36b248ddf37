use linux_tools::action::{Action, Command};
use linux_tools::linux_setup::catalog::get_category_packages;
use linux_tools::linux_setup::distribution::{
    lines_have_words, orphan_removal, DesktopEnvironment, Distribution, PackageManager, Repository,
};
use linux_tools::linux_setup::flatpak;
use linux_tools::linux_setup::helper::{
    append_to_file, append_to_file_if_not_found, needs_append, replace_in_file, write_file,
};
use linux_tools::linux_setup::hooks::{hook_needs_home, run_hook};
use linux_tools::linux_setup::kde::{convert_group_to_groups, find_group, plasma_version};
use linux_tools::linux_setup::menu::{
    after_install, before_install, category_entries, category_step, get_install_method, install_with_method,
    is_installed, main_menu_options, package_options, update_all, CategoryEntry, CategoryStep, Color,
    InstallMethod,
};
use linux_tools::linux_setup::package::{Category, InstallHook, Package};
use linux_tools::linux_setup::snap;

fn package(category: Category, name: &str) -> Package {
    get_category_packages(&category).into_iter().find(|p| p.name == name).unwrap()
}

fn shell(command: &str) -> Action {
    Action::Shell { command: command.to_string(), quiet: false }
}

fn print(line: &str) -> Action {
    Action::Print(line.to_string())
}

#[test]
fn distribution_is_detected() {
    let d = Distribution::new("NAME=\"Debian GNU/Linux\"\nID=debian\n").ok().unwrap();
    assert_eq!(d.repository, Repository::Debian);
    assert_eq!(d.package_manager, PackageManager::APT);
    let a = Distribution::new("NAME=\"Arch Linux\"\n").ok().unwrap();
    assert_eq!(a.package_manager, PackageManager::PACMAN);
    let m = Distribution::new("NAME=\"Linux Mint\"\n").ok().unwrap();
    assert_eq!(m.repository, Repository::Ubuntu);
    let s = Distribution::new("NAME=\"Fedora Linux\"\nVARIANT=\"Silverblue\"\n").ok().unwrap();
    assert_eq!(s.package_manager, PackageManager::RPMOSTree);
    assert!(Distribution::new("NAME=\"Gentoo\"\n").is_err());
}

#[test]
fn repository_install_and_uninstall() {
    let mut d = Distribution::new("ID=debian\nNAME=Debian\n").ok().unwrap();
    let vim = package(Category::Server, "vim - Text Editor");
    assert!(d.is_available(&vim));
    assert!(!d.is_installed(&vim));
    let acts = d.install(&vim);
    assert_eq!(acts.len(), 10);
    assert_eq!(acts[0], print("Installing repository vim..."));
    assert_eq!(acts[1], shell("sudo apt install vim -Vy"));
    assert!(d.is_installed(&vim));
    assert!(d.install(&vim).is_empty());
    let removed = d.uninstall(&vim);
    assert_eq!(removed.len(), 10);
    assert_eq!(removed[1], shell("sudo apt remove vim -Vy"));
    assert!(!d.is_installed(&vim));
}

#[test]
fn flatpak_and_snap_installs() {
    let mut d = Distribution::new("ID=debian\nNAME=Debian\n").ok().unwrap();
    let gimp = package(Category::MultiMedia, "GIMP");
    assert!(flatpak::is_available(&gimp));
    let acts = flatpak::install(&gimp, "flathub", &mut d);
    assert_eq!(acts.len(), 6);
    assert_eq!(acts[1], shell("sudo apt install flatpak -Vy"));
    assert_eq!(acts[5], shell("flatpak install flathub org.gimp.GIMP -y"));
    assert!(flatpak::is_installed(&gimp, &d));
    assert!(d.packages.contains("flatpak"));
    let again = flatpak::install(&gimp, "flathub", &mut d);
    assert_eq!(again.len(), 2);
    let gone = flatpak::uninstall(&gimp, &mut d);
    assert_eq!(gone[1], shell("flatpak remove org.gimp.GIMP -y"));
    assert!(!flatpak::is_installed(&gimp, &d));

    let acts = snap::install(&gimp, &mut d);
    assert_eq!(acts[1], shell("sudo apt install snapd -Vy"));
    assert_eq!(
        acts[3],
        Action::Exec(Command {
            program: "sudo".to_string(),
            args: vec!["snap".to_string(), "install".to_string(), "gimp".to_string()],
        })
    );
    assert!(snap::is_installed(&gimp, &d));
}

#[test]
fn menu_options_for_a_package() {
    let d = Distribution::new("ID=debian\nNAME=Debian\n").ok().unwrap();
    let gimp = package(Category::MultiMedia, "GIMP");
    let methods: Vec<InstallMethod> = package_options(&gimp, &d).iter().map(|o| o.method).collect();
    assert_eq!(
        methods,
        vec![
            InstallMethod::Repository,
            InstallMethod::Flatpak,
            InstallMethod::Snap,
            InstallMethod::Uninstall,
            InstallMethod::Cancel,
        ]
    );
    let label = get_install_method(&gimp, &d);
    assert_eq!(label.text, "Uninstalled");
    assert_eq!(label.color, Some(Color::Red));
    assert!(!is_installed(&gimp, &d));
}

#[test]
fn choosing_a_method_replaces_other_installs() {
    let mut d = Distribution::new("ID=debian\nNAME=Debian\n").ok().unwrap();
    let gimp = package(Category::MultiMedia, "GIMP");
    install_with_method(&gimp, InstallMethod::Flatpak, Some("flathub"), &mut d);
    assert_eq!(get_install_method(&gimp, &d).text, "Flatpak");
    let before = before_install(&gimp, InstallMethod::Repository, "/home/u", &mut d);
    assert_eq!(before, vec![print("Uninstalling flatpak org.gimp.GIMP..."), shell("flatpak remove org.gimp.GIMP -y")]);
    install_with_method(&gimp, InstallMethod::Repository, None, &mut d);
    assert!(after_install(&gimp, InstallMethod::Repository, "/home/u", &mut d).is_empty());
    assert_eq!(get_install_method(&gimp, &d).text, "Repository");
    assert!(before_install(&gimp, InstallMethod::Cancel, "/home/u", &mut d).is_empty());
    before_install(&gimp, InstallMethod::Uninstall, "/home/u", &mut d);
    assert!(!is_installed(&gimp, &d));
}

#[test]
fn hooks_write_configuration() {
    let mut d = Distribution::new("ID=debian\nNAME=Debian\n").ok().unwrap();
    let acts = run_hook(InstallHook::GoSetup, &mut d, InstallMethod::Snap, "/home/u");
    assert_eq!(acts.len(), 3);
    assert_eq!(acts[0], Action::Shell { command: "go env -w GOPATH=/home/u/.go".to_string(), quiet: true });
    assert!(run_hook(InstallHook::GoSetup, &mut d, InstallMethod::Uninstall, "/home/u").is_empty());
    let clean = run_hook(InstallHook::VimCleanup, &mut d, InstallMethod::Uninstall, "/home/u");
    assert_eq!(
        clean,
        vec![Action::Shell { command: "sudo rm -r /home/u/.vim /home/u/.viminfo /home/u/.vimrc".to_string(), quiet: true }]
    );
    assert!(!hook_needs_home(InstallHook::SnapSetup));
    assert!(hook_needs_home(InstallHook::VimSetup));
}

#[test]
fn installed_lists_are_parsed() {
    let d = Distribution::new("ID=debian\nNAME=Debian\n").ok().unwrap();
    let set = d.get_installed("Listing...\nvim/jammy,now 2:8.2 amd64 [installed]\ngit/jammy 1:2.34 amd64 [installed]\n");
    assert!(set.contains("vim"));
    assert!(set.contains("git"));
    assert!(set.contains("Listing..."));
    let fp = flatpak::get_installed("GIMP\torg.gimp.GIMP\t2.10\tstable\nbad line\n");
    assert!(fp.contains("org.gimp.GIMP"));
    assert_eq!(fp.len(), 1);
    let sn = snap::get_installed("Name  Version  Rev\nfirefox  120.0  3358\n");
    assert!(sn.contains("firefox"));
    assert!(lines_have_words("a b\n\nc\n"));
    assert!(!lines_have_words("a\n  \n"));
}

#[test]
fn orphans_are_removed_in_one_command() {
    assert!(orphan_removal("").is_empty());
    assert_eq!(
        orphan_removal("libfoo\nlibbar\n"),
        vec![Action::Exec(Command {
            program: "sudo".to_string(),
            args: vec!["pacman", "-Rsun", "libfoo", "libbar", "--noconfirm"].iter().map(|s| s.to_string()).collect(),
        })]
    );
}

#[test]
fn menus_follow_the_desktop() {
    let mut d = Distribution::new("ID=debian\nNAME=Debian\n").ok().unwrap();
    assert_eq!(
        main_menu_options(&d),
        vec!["Repository Setup", "Update Packages", "Auto Remove Packages", "Install Packages", "Exit"]
    );
    d.desktop_environments.insert(DesktopEnvironment::Gnome);
    assert_eq!(main_menu_options(&d)[1], "GNOME Setup");
    let entries = category_entries(&get_category_packages(&Category::Games), &d, false);
    assert!(entries.len() > 1);
    let update = update_all(&d);
    assert_eq!(update[1], shell("sudo apt update"));
    assert_eq!(Category::MultiMedia.as_str(), "Multi Media");
    assert_eq!(Category::iterator().len(), 10);
    assert_eq!(Package::new().name, "");
}

#[test]
fn configuration_helpers() {
    assert!(needs_append(Some("a\nb\n"), "c"));
    assert!(!needs_append(Some("max_parallel_downloads=10"), "max_parallel_downloads"));
    assert_eq!(replace_in_file("a=1\nb=2\n", "b=2", "b=3"), Some("a=1\nb=3\n".to_string()));
    assert_eq!(plasma_version(Some("plasmashell 6.0.4\n")), 6);
    let config = "[Containments][2][Applets][5]\nplugin=org.kde.plasma.digitalclock\n";
    assert_eq!(find_group(config, "org.kde.plasma.digitalclock"), Some("[Containments][2][Applets][5]".to_string()));
    assert_eq!(convert_group_to_groups("[Containments][2][Applets][5]"), vec!["Containments", "2", "Applets", "5"]);
}

#[test]
fn file_edit_commands() {
    assert_eq!(
        append_to_file_if_not_found("/etc/dnf/dnf.conf", "max_parallel_downloads", "max_parallel_downloads=10", true),
        Action::AppendIfMissing {
            path: "/etc/dnf/dnf.conf".to_string(),
            marker: "max_parallel_downloads".to_string(),
            text: "max_parallel_downloads=10".to_string(),
            sudo: true,
        }
    );
    assert_eq!(
        append_to_file("/etc/x", "a=1", true),
        Command {
            program: "sudo".to_string(),
            args: vec!["sh".to_string(), "-c".to_string(), "echo 'a=1' >> /etc/x".to_string()],
        }
    );
    assert_eq!(
        write_file("/tmp/y", "b", false),
        Command { program: "sh".to_string(), args: vec!["-c".to_string(), "echo 'b' > /tmp/y".to_string()] }
    );
}

#[test]
fn category_menu_steps() {
    assert_eq!(category_step(CategoryEntry::Toggle, 0, false), CategoryStep::Reopen { start: 0, show_all: true });
    assert_eq!(
        category_step(CategoryEntry::Package { index: 3, missing_desktop: false }, 4, true),
        CategoryStep::OpenPackage { index: 3, start: 5 }
    );
    assert_eq!(category_step(CategoryEntry::Exit, 9, false), CategoryStep::Leave);
}

#[test]
fn app_listings_follow_installed_packages() {
    let mut d = Distribution::new("ID=debian\nNAME=Debian\n").ok().unwrap();
    assert_eq!(d.app_listings(), (None, None));
    d.install_package("flatpak");
    assert_eq!(d.app_listings(), (Some("flatpak list --app"), None));
    d.install_package("snapd");
    assert_eq!(d.app_listings(), (Some("flatpak list --app"), Some("snap list")));
}

#[test]
fn catalogue_names_are_distinct_and_complete() {
    let mut seen: Vec<&str> = Vec::new();
    for c in Category::iterator() {
        for p in get_category_packages(&c) {
            assert!(!p.name.is_empty());
            assert!(!seen.contains(&p.name));
            seen.push(p.name);
            assert_eq!(p.other.is_some(), c == Category::Server && p.name == "rustup");
            if let Some(f) = &p.flatpak {
                assert!(f.remotes == vec!["flathub"] || f.remotes == vec!["fedora", "flathub"]);
            }
        }
    }
    assert_eq!(seen.len(), 110);
}

#[test]
fn uninstall_after_install_removes_each_name_once() {
    let mut d = Distribution::new("ID=debian\nNAME=Debian\n").ok().unwrap();
    let vim = package(Category::Server, "vim - Text Editor");
    d.install(&vim);
    let removed = d.uninstall(&vim);
    assert_eq!(removed.len(), 2 * 5);
    assert_eq!(d.packages.len(), 0);
}
