use linux_tools::action::{Action, Command};
use linux_tools::package_installer::{flatpak, snap, Info};

fn exec(program: &str, args: &[&str]) -> Action {
    Action::Exec(Command { program: program.to_string(), args: args.iter().map(|s| s.to_string()).collect() })
}

fn empty_info() -> Info {
    Info { flatpak_installed: Vec::new(), snap_installed: Vec::new() }
}

#[test]
fn flathub_ids_of_packages() {
    assert_eq!(flatpak::get_package("gimp"), Some("org.gimp.GIMP"));
    assert_eq!(flatpak::get_package("0ad"), Some("com.play0ad.zeroad"));
    assert_eq!(flatpak::get_package("xonotic"), Some("org.xonotic.Xonotic"));
    assert_eq!(flatpak::get_package("emacs"), None);
    assert!(flatpak::is_available("vlc"));
    assert!(!flatpak::is_available("VLC"));
}

#[test]
fn flatpak_install_and_uninstall() {
    let mut info = empty_info();
    assert!(!flatpak::is_installed("gimp", &info));
    let acts = flatpak::install("gimp", &mut info);
    assert_eq!(
        acts,
        vec![
            Action::Print("Installing flatpak org.gimp.GIMP...".to_string()),
            exec("flatpak", &["install", "flathub", "org.gimp.GIMP", "-y"]),
        ]
    );
    assert_eq!(info.flatpak_installed, vec!["org.gimp.GIMP"]);
    assert!(flatpak::is_installed("gimp", &info));
    assert!(flatpak::install("gimp", &mut info).is_empty());
    assert_eq!(info.flatpak_installed.len(), 1);
    let gone = flatpak::uninstall("gimp", &mut info);
    assert_eq!(gone[1], exec("flatpak", &["remove", "org.gimp.GIMP", "-y"]));
    assert!(info.flatpak_installed.is_empty());
    assert!(flatpak::uninstall("gimp", &mut info).is_empty());
    assert!(flatpak::install("emacs", &mut info).is_empty());
}

#[test]
fn flatpak_uninstall_takes_first_entry_only() {
    let mut info = Info {
        flatpak_installed: vec!["a".to_string(), "org.videolan.VLC".to_string(), "b".to_string(), "org.videolan.VLC".to_string()],
        snap_installed: vec!["x".to_string()],
    };
    flatpak::uninstall("vlc", &mut info);
    assert_eq!(info.flatpak_installed, vec!["a", "b", "org.videolan.VLC"]);
    assert_eq!(info.snap_installed, vec!["x"]);
}

#[test]
fn flatpak_fixed_steps() {
    assert_eq!(
        flatpak::setup(),
        vec![
            Action::Print("Setup flatpak...".to_string()),
            exec("flatpak", &["remote-add", "--if-not-exists", "flathub", "https://flathub.org/repo/flathub.flatpakrepo"]),
        ]
    );
    assert_eq!(flatpak::update()[1], exec("flatpak", &["update", "-y"]));
    assert_eq!(flatpak::auto_remove()[1], exec("flatpak", &["remove", "--unused", "-y"]));
}

#[test]
fn flatpak_list_is_parsed() {
    let out = "GIMP\torg.gimp.GIMP\t2.10.36\tstable\tsystem\n\nnocolumns\nVLC\torg.videolan.VLC\n";
    assert_eq!(flatpak::get_installed(Some(out)), vec!["org.gimp.GIMP", "org.videolan.VLC"]);
    assert!(flatpak::get_installed(None).is_empty());
}

#[test]
fn snaps_of_packages() {
    let s = snap::get_package("intellij").unwrap();
    assert_eq!(s.name, "intellij-idea-community");
    assert!(s.is_official && s.is_classic);
    let esr = snap::get_package("firefox-esr").unwrap();
    assert_eq!((esr.name, esr.channel), ("firefox", "esr-stable"));
    assert!(snap::get_package("gnome-maps").is_none());
    assert!(snap::is_available("node"));
}

#[test]
fn snap_install_commands() {
    let mut info = empty_info();
    let acts = snap::install("node", &mut info);
    assert_eq!(
        acts,
        vec![
            Action::Print("Installing snap node...".to_string()),
            exec("sudo", &["snap", "install", "node", "--classic", "--channel", "18/stable"]),
        ]
    );
    let plain = snap::install("vlc", &mut info);
    assert_eq!(plain[1], exec("sudo", &["snap", "install", "vlc"]));
    assert_eq!(info.snap_installed, vec!["node", "vlc"]);
    assert!(snap::is_installed("node", &info));
    let gone = snap::uninstall("node", &mut info);
    assert_eq!(gone[1], exec("sudo", &["snap", "remove", "node"]));
    assert_eq!(info.snap_installed, vec!["vlc"]);
    assert_eq!(snap::update()[1], exec("sudo", &["snap", "refresh"]));
}

#[test]
fn snap_list_is_parsed() {
    let out = "Name      Version   Rev\ncore22    20240111  1122\n\n   \nvlc  3.0.20  3777\n";
    assert_eq!(snap::get_installed(Some(out)), vec!["Name", "core22", "vlc"]);
    assert!(snap::get_installed(None).is_empty());
}
