//! Flatpak applications from Flathub.
use vstd::prelude::*;
use crate::action::{action_views, command, command_spec, print, Action, ActionView};
use crate::package_installer::{position, Info};
use crate::text::{split, split_spec, str_eq, views};
use crate::action::cat3;
use crate::backup_dbs::{lemma_increasing, lemma_str_less_asym, lemma_str_less_at, str_less};

verus! {

/// The Flathub application id of a package name, if it is published there.
pub open spec fn flatpak_id(package: Seq<char>) -> Option<Seq<char>> {
    if package == "0ad"@ {
        Some("com.play0ad.zeroad"@)
    } else if package == "aisleriot"@ {
        Some("org.gnome.Aisleriot"@)
    } else if package == "ark"@ {
        Some("org.kde.ark"@)
    } else if package == "baobab"@ {
        Some("org.gnome.baobab"@)
    } else if package == "blender"@ {
        Some("org.blender.Blender"@)
    } else if package == "cheese"@ {
        Some("org.gnome.Cheese"@)
    } else if package == "chromium"@ {
        Some("org.chromium.Chromium"@)
    } else if package == "codium"@ {
        Some("com.vscodium.codium"@)
    } else if package == "deja-dup"@ {
        Some("org.gnome.DejaDup"@)
    } else if package == "discord"@ {
        Some("com.discordapp.Discord"@)
    } else if package == "elisa"@ {
        Some("org.kde.elisa"@)
    } else if package == "eog"@ {
        Some("org.gnome.eog"@)
    } else if package == "epiphany"@ {
        Some("org.gnome.Epiphany"@)
    } else if package == "evince"@ {
        Some("org.gnome.Evince"@)
    } else if package == "firefox"@ {
        Some("org.mozilla.firefox"@)
    } else if package == "gedit"@ {
        Some("org.gnome.gedit"@)
    } else if package == "gimp"@ {
        Some("org.gimp.GIMP"@)
    } else if package == "gnome-2048"@ {
        Some("org.gnome.TwentyFortyEight"@)
    } else if package == "gnome-books"@ {
        Some("org.gnome.Books"@)
    } else if package == "gnome-boxes"@ {
        Some("org.gnome.Boxes"@)
    } else if package == "gnome-builder"@ {
        Some("org.gnome.Builder"@)
    } else if package == "gnome-calculator"@ {
        Some("org.gnome.Calculator"@)
    } else if package == "gnome-calendar"@ {
        Some("org.gnome.Calendar"@)
    } else if package == "gnome-chess"@ {
        Some("org.gnome.Chess"@)
    } else if package == "gnome-clocks"@ {
        Some("org.gnome.clocks"@)
    } else if package == "gnome-connections"@ {
        Some("org.gnome.Connections"@)
    } else if package == "gnome-contacts"@ {
        Some("org.gnome.Contacts"@)
    } else if package == "gnome-maps"@ {
        Some("org.gnome.Maps"@)
    } else if package == "gnome-mines"@ {
        Some("org.gnome.Mines"@)
    } else if package == "gnome-music"@ {
        Some("org.gnome.Music"@)
    } else if package == "gnome-passwordsafe"@ {
        Some("org.gnome.PasswordSafe"@)
    } else if package == "gnome-photos"@ {
        Some("org.gnome.Photos"@)
    } else if package == "gnome-sound-recorder"@ {
        Some("org.gnome.SoundRecorder"@)
    } else if package == "gnome-sudoku"@ {
        Some("org.gnome.Sudoku"@)
    } else if package == "gnome-text-editor"@ {
        Some("org.gnome.TextEditor"@)
    } else if package == "gnome-weather"@ {
        Some("org.gnome.Weather"@)
    } else if package == "gnucash"@ {
        Some("org.gnucash.GnuCash"@)
    } else if package == "gwenview"@ {
        Some("org.kde.gwenview"@)
    } else if package == "intellij"@ {
        Some("com.jetbrains.IntelliJ-IDEA-Community"@)
    } else if package == "kcalc"@ {
        Some("org.kde.kcalc"@)
    } else if package == "kdenlive"@ {
        Some("org.kde.kdenlive"@)
    } else if package == "kdevelop"@ {
        Some("org.kde.kdevelop"@)
    } else if package == "ksudoku"@ {
        Some("org.kde.ksudoku"@)
    } else if package == "kwrite"@ {
        Some("org.kde.kwrite"@)
    } else if package == "libreoffice"@ {
        Some("org.libreoffice.LibreOffice"@)
    } else if package == "mediawriter"@ {
        Some("org.fedoraproject.MediaWriter"@)
    } else if package == "okular"@ {
        Some("org.kde.okular"@)
    } else if package == "pycharm"@ {
        Some("com.jetbrains.PyCharm-Community"@)
    } else if package == "quadrapassel"@ {
        Some("org.gnome.Quadrapassel"@)
    } else if package == "rhythmbox"@ {
        Some("org.gnome.Rhythmbox3"@)
    } else if package == "shotwell"@ {
        Some("org.gnome.Shotwell"@)
    } else if package == "steam"@ {
        Some("com.valvesoftware.Steam"@)
    } else if package == "supertuxkart"@ {
        Some("net.supertuxkart.SuperTuxKart"@)
    } else if package == "thunderbird"@ {
        Some("org.mozilla.Thunderbird"@)
    } else if package == "torbrowser-launcher"@ {
        Some("com.github.micahflee.torbrowser-launcher"@)
    } else if package == "totem"@ {
        Some("org.gnome.Totem"@)
    } else if package == "vlc"@ {
        Some("org.videolan.VLC"@)
    } else if package == "xonotic"@ {
        Some("org.xonotic.Xonotic"@)
    } else {
        None
    }
}

/// The Flathub application id of a package name, if it is published there.
pub fn get_package(package: &str) -> (r: Option<&'static str>)
    ensures
        match r {
            Some(id) => flatpak_id(package@) == Some(id@),
            None => flatpak_id(package@) is None,
        },
{
    if str_eq(package, "0ad") {
        return Some("com.play0ad.zeroad");
    }
    if str_eq(package, "aisleriot") {
        return Some("org.gnome.Aisleriot");
    }
    if str_eq(package, "ark") {
        return Some("org.kde.ark");
    }
    if str_eq(package, "baobab") {
        return Some("org.gnome.baobab");
    }
    if str_eq(package, "blender") {
        return Some("org.blender.Blender");
    }
    if str_eq(package, "cheese") {
        return Some("org.gnome.Cheese");
    }
    if str_eq(package, "chromium") {
        return Some("org.chromium.Chromium");
    }
    if str_eq(package, "codium") {
        return Some("com.vscodium.codium");
    }
    if str_eq(package, "deja-dup") {
        return Some("org.gnome.DejaDup");
    }
    if str_eq(package, "discord") {
        return Some("com.discordapp.Discord");
    }
    if str_eq(package, "elisa") {
        return Some("org.kde.elisa");
    }
    if str_eq(package, "eog") {
        return Some("org.gnome.eog");
    }
    if str_eq(package, "epiphany") {
        return Some("org.gnome.Epiphany");
    }
    if str_eq(package, "evince") {
        return Some("org.gnome.Evince");
    }
    if str_eq(package, "firefox") {
        return Some("org.mozilla.firefox");
    }
    if str_eq(package, "gedit") {
        return Some("org.gnome.gedit");
    }
    if str_eq(package, "gimp") {
        return Some("org.gimp.GIMP");
    }
    if str_eq(package, "gnome-2048") {
        return Some("org.gnome.TwentyFortyEight");
    }
    if str_eq(package, "gnome-books") {
        return Some("org.gnome.Books");
    }
    if str_eq(package, "gnome-boxes") {
        return Some("org.gnome.Boxes");
    }
    if str_eq(package, "gnome-builder") {
        return Some("org.gnome.Builder");
    }
    if str_eq(package, "gnome-calculator") {
        return Some("org.gnome.Calculator");
    }
    if str_eq(package, "gnome-calendar") {
        return Some("org.gnome.Calendar");
    }
    if str_eq(package, "gnome-chess") {
        return Some("org.gnome.Chess");
    }
    if str_eq(package, "gnome-clocks") {
        return Some("org.gnome.clocks");
    }
    if str_eq(package, "gnome-connections") {
        return Some("org.gnome.Connections");
    }
    if str_eq(package, "gnome-contacts") {
        return Some("org.gnome.Contacts");
    }
    if str_eq(package, "gnome-maps") {
        return Some("org.gnome.Maps");
    }
    if str_eq(package, "gnome-mines") {
        return Some("org.gnome.Mines");
    }
    if str_eq(package, "gnome-music") {
        return Some("org.gnome.Music");
    }
    if str_eq(package, "gnome-passwordsafe") {
        return Some("org.gnome.PasswordSafe");
    }
    if str_eq(package, "gnome-photos") {
        return Some("org.gnome.Photos");
    }
    if str_eq(package, "gnome-sound-recorder") {
        return Some("org.gnome.SoundRecorder");
    }
    if str_eq(package, "gnome-sudoku") {
        return Some("org.gnome.Sudoku");
    }
    if str_eq(package, "gnome-text-editor") {
        return Some("org.gnome.TextEditor");
    }
    if str_eq(package, "gnome-weather") {
        return Some("org.gnome.Weather");
    }
    if str_eq(package, "gnucash") {
        return Some("org.gnucash.GnuCash");
    }
    if str_eq(package, "gwenview") {
        return Some("org.kde.gwenview");
    }
    if str_eq(package, "intellij") {
        return Some("com.jetbrains.IntelliJ-IDEA-Community");
    }
    if str_eq(package, "kcalc") {
        return Some("org.kde.kcalc");
    }
    if str_eq(package, "kdenlive") {
        return Some("org.kde.kdenlive");
    }
    if str_eq(package, "kdevelop") {
        return Some("org.kde.kdevelop");
    }
    if str_eq(package, "ksudoku") {
        return Some("org.kde.ksudoku");
    }
    if str_eq(package, "kwrite") {
        return Some("org.kde.kwrite");
    }
    if str_eq(package, "libreoffice") {
        return Some("org.libreoffice.LibreOffice");
    }
    if str_eq(package, "mediawriter") {
        return Some("org.fedoraproject.MediaWriter");
    }
    if str_eq(package, "okular") {
        return Some("org.kde.okular");
    }
    if str_eq(package, "pycharm") {
        return Some("com.jetbrains.PyCharm-Community");
    }
    if str_eq(package, "quadrapassel") {
        return Some("org.gnome.Quadrapassel");
    }
    if str_eq(package, "rhythmbox") {
        return Some("org.gnome.Rhythmbox3");
    }
    if str_eq(package, "shotwell") {
        return Some("org.gnome.Shotwell");
    }
    if str_eq(package, "steam") {
        return Some("com.valvesoftware.Steam");
    }
    if str_eq(package, "supertuxkart") {
        return Some("net.supertuxkart.SuperTuxKart");
    }
    if str_eq(package, "thunderbird") {
        return Some("org.mozilla.Thunderbird");
    }
    if str_eq(package, "torbrowser-launcher") {
        return Some("com.github.micahflee.torbrowser-launcher");
    }
    if str_eq(package, "totem") {
        return Some("org.gnome.Totem");
    }
    if str_eq(package, "vlc") {
        return Some("org.videolan.VLC");
    }
    if str_eq(package, "xonotic") {
        return Some("org.xonotic.Xonotic");
    }
    None
}

/// The command that adds the Flathub remote.
pub open spec fn remote_add_spec() -> ActionView {
    ActionView::Exec(
        command_spec(
            "flatpak"@,
            seq!["remote-add"@, "--if-not-exists"@, "flathub"@, "https://flathub.org/repo/flathub.flatpakrepo"@],
        ),
    )
}

/// Adds the Flathub remote.
pub fn setup() -> (acts: Vec<Action>)
    ensures
        action_views(acts@) == seq![ActionView::Print("Setup flatpak..."@), remote_add_spec()],
{
    let c = command(
        "flatpak",
        vec!["remote-add", "--if-not-exists", "flathub", "https://flathub.org/repo/flathub.flatpakrepo"],
    );
    assert(c@.args =~= seq!["remote-add"@, "--if-not-exists"@, "flathub"@, "https://flathub.org/repo/flathub.flatpakrepo"@]);
    let acts = vec![print("Setup flatpak...".to_owned()), Action::Exec(c)];
    assert(action_views(acts@) =~= seq![ActionView::Print("Setup flatpak..."@), remote_add_spec()]);
    acts
}

/// Whether the package name is published on Flathub.
pub fn is_available(package: &str) -> (r: bool)
    ensures
        r == flatpak_id(package@) is Some,
{
    get_package(package).is_some()
}

/// Whether the package's application is in the installed list.
pub open spec fn installed_spec(installed: Seq<Seq<char>>, package: Seq<char>) -> bool {
    match flatpak_id(package) {
        Some(id) => installed.contains(id),
        None => false,
    }
}

/// Whether the package's application is installed.
pub fn is_installed(package: &str, info: &Info) -> (r: bool)
    ensures
        r == installed_spec(views(info.flatpak_installed@), package@),
{
    match get_package(package) {
        Some(id) => position(&info.flatpak_installed, id).is_some(),
        None => false,
    }
}

/// Installing a package name: the installed list after it, and the steps.
pub open spec fn install_spec(installed: Seq<Seq<char>>, package: Seq<char>) -> (Seq<Seq<char>>, Seq<ActionView>) {
    match flatpak_id(package) {
        Some(id) => if installed.contains(id) {
            (installed, Seq::empty())
        } else {
            (
                installed.push(id),
                seq![
                    ActionView::Print("Installing flatpak "@ + id + "..."@),
                    ActionView::Exec(command_spec("flatpak"@, seq!["install"@, "flathub"@, id, "-y"@])),
                ],
            )
        },
        None => (installed, Seq::empty()),
    }
}

/// Installs the package's application from Flathub unless it is in the
/// installed list, and adds it to the list.
pub fn install(package: &str, info: &mut Info) -> (acts: Vec<Action>)
    ensures
        (views(final(info).flatpak_installed@), action_views(acts@)) == install_spec(
            views(old(info).flatpak_installed@),
            package@,
        ),
        final(info).snap_installed@ == old(info).snap_installed@,
{
    let mut acts: Vec<Action> = Vec::new();
    if let Some(id) = get_package(package) {
        if position(&info.flatpak_installed, id).is_none() {
            let ghost before = views(info.flatpak_installed@);
            info.flatpak_installed.push(id.to_owned());
            assert(views(info.flatpak_installed@) =~= before.push(id@));
            acts.push(print(cat3("Installing flatpak ", id, "...")));
            let c = command("flatpak", vec!["install", "flathub", id, "-y"]);
            assert(c@.args =~= seq!["install"@, "flathub"@, id@, "-y"@]);
            acts.push(Action::Exec(c));
        }
    }
    assert(action_views(acts@) =~= install_spec(views(old(info).flatpak_installed@), package@).1);
    acts
}

/// Uninstalling a package name: the installed list after it, and the steps.
pub open spec fn uninstall_spec(installed: Seq<Seq<char>>, package: Seq<char>) -> (Seq<Seq<char>>, Seq<ActionView>) {
    match flatpak_id(package) {
        Some(id) => if installed.contains(id) {
            (
                installed.remove_value(id),
                seq![
                    ActionView::Print("Uninstalling flatpak "@ + id + "..."@),
                    ActionView::Exec(command_spec("flatpak"@, seq!["remove"@, id, "-y"@])),
                ],
            )
        } else {
            (installed, Seq::empty())
        },
        None => (installed, Seq::empty()),
    }
}

/// Removes the package's application if it is in the installed list, and takes
/// its first entry out of the list.
pub fn uninstall(package: &str, info: &mut Info) -> (acts: Vec<Action>)
    ensures
        (views(final(info).flatpak_installed@), action_views(acts@)) == uninstall_spec(
            views(old(info).flatpak_installed@),
            package@,
        ),
        final(info).snap_installed@ == old(info).snap_installed@,
{
    let mut acts: Vec<Action> = Vec::new();
    if let Some(id) = get_package(package) {
        if let Some(index) = position(&info.flatpak_installed, id) {
            let ghost before = info.flatpak_installed@;
            info.flatpak_installed.remove(index);
            assert(views(info.flatpak_installed@) =~= views(before).remove(index as int));
            acts.push(print(cat3("Uninstalling flatpak ", id, "...")));
            let c = command("flatpak", vec!["remove", id, "-y"]);
            assert(c@.args =~= seq!["remove"@, id@, "-y"@]);
            acts.push(Action::Exec(c));
        }
    }
    assert(action_views(acts@) =~= uninstall_spec(views(old(info).flatpak_installed@), package@).1);
    acts
}

/// Updates every application.
pub fn update() -> (acts: Vec<Action>)
    ensures
        action_views(acts@) == seq![
            ActionView::Print("Update flatpak..."@),
            ActionView::Exec(command_spec("flatpak"@, seq!["update"@, "-y"@])),
        ],
{
    let c = command("flatpak", vec!["update", "-y"]);
    assert(c@.args =~= seq!["update"@, "-y"@]);
    let acts = vec![print("Update flatpak...".to_owned()), Action::Exec(c)];
    assert(action_views(acts@) =~= seq![
        ActionView::Print("Update flatpak..."@),
        ActionView::Exec(command_spec("flatpak"@, seq!["update"@, "-y"@])),
    ]);
    acts
}

/// Removes runtimes that no application uses.
pub fn auto_remove() -> (acts: Vec<Action>)
    ensures
        action_views(acts@) == seq![
            ActionView::Print("Auto removing flatpak..."@),
            ActionView::Exec(command_spec("flatpak"@, seq!["remove"@, "--unused"@, "-y"@])),
        ],
{
    let c = command("flatpak", vec!["remove", "--unused", "-y"]);
    assert(c@.args =~= seq!["remove"@, "--unused"@, "-y"@]);
    let acts = vec![print("Auto removing flatpak...".to_owned()), Action::Exec(c)];
    assert(action_views(acts@) =~= seq![
        ActionView::Print("Auto removing flatpak..."@),
        ActionView::Exec(command_spec("flatpak"@, seq!["remove"@, "--unused"@, "-y"@])),
    ]);
    acts
}

/// The second tab-separated column of each of the first `n` non-empty lines
/// that have one, in order.
pub open spec fn second_columns(lines: Seq<Seq<char>>, n: nat) -> Seq<Seq<char>>
    decreases n,
{
    if n == 0 {
        Seq::empty()
    } else {
        let cols = split_spec(lines[n - 1], "\t"@);
        let prev = second_columns(lines, (n - 1) as nat);
        if lines[n - 1].len() > 0 && cols.len() > 1 {
            prev.push(cols[1])
        } else {
            prev
        }
    }
}

/// The installed applications listed by the output of `flatpak list --app`;
/// no output gives none.
pub fn get_installed(output: Option<&str>) -> (r: Vec<String>)
    ensures
        views(r@) == match output {
            Some(o) => second_columns(split_spec(o@, "\n"@), split_spec(o@, "\n"@).len()),
            None => Seq::empty(),
        },
{
    let mut packages: Vec<String> = Vec::new();
    if let Some(o) = output {
        proof {
            reveal_strlit("\n");
            reveal_strlit("\t");
        }
        let lines = split(o, "\n");
        let mut i: usize = 0;
        while i < lines.len()
            invariant
                i <= lines@.len(),
                views(lines@) == split_spec(o@, "\n"@),
                views(packages@) == second_columns(views(lines@), i as nat),
            decreases lines.len() - i,
        {
            let line = lines[i].as_str();
            assert(views(lines@)[i as int] == line@);
            let ghost before = views(packages@);
            if !line.is_empty() {
                proof {
                    reveal_strlit("\t");
                }
                let columns = split(line, "\t");
                if columns.len() > 1 {
                    packages.push(columns[1].clone());
                    assert(views(packages@) =~= before.push(views(columns@)[1]));
                }
            }
            i += 1;
        }
    }
    packages
}

/// Installing a package that is published leaves it installed.
pub proof fn law_install_makes_installed(installed: Seq<Seq<char>>, package: Seq<char>)
    requires
        flatpak_id(package) is Some,
    ensures
        installed_spec(install_spec(installed, package).0, package),
{
    let id = flatpak_id(package)->0;
    if !installed.contains(id) {
        assert(installed.push(id)[installed.len() as int] == id);
    }
}

/// Installing a package a second time changes nothing and takes no steps.
pub proof fn law_second_install_changes_nothing(installed: Seq<Seq<char>>, package: Seq<char>)
    ensures
        install_spec(install_spec(installed, package).0, package) == (install_spec(installed, package).0, Seq::<ActionView>::empty()),
{
    if flatpak_id(package) is Some {
        law_install_makes_installed(installed, package);
    }
}

/// Removing a package that was not installed before it was installed gives back
/// the list as it was.
pub proof fn law_uninstall_undoes_install(installed: Seq<Seq<char>>, package: Seq<char>)
    requires
        !installed_spec(installed, package),
    ensures
        uninstall_spec(install_spec(installed, package).0, package).0 == installed,
{
    if flatpak_id(package) is Some {
        let id = flatpak_id(package)->0;
        let after = installed.push(id);
        law_install_makes_installed(installed, package);
        after.index_of_first_ensures(id);
        let k = after.index_of_first(id)->0;
        if k < installed.len() {
            assert(installed[k] == id);
        }
        assert(after.remove(installed.len() as int) =~= installed);
    }
}

/// The package names of the Flathub table, in table order.
pub open spec fn flatpak_keys() -> Seq<Seq<char>> {
    seq![
        "0ad"@,
        "aisleriot"@,
        "ark"@,
        "baobab"@,
        "blender"@,
        "cheese"@,
        "chromium"@,
        "codium"@,
        "deja-dup"@,
        "discord"@,
        "elisa"@,
        "eog"@,
        "epiphany"@,
        "evince"@,
        "firefox"@,
        "gedit"@,
        "gimp"@,
        "gnome-2048"@,
        "gnome-books"@,
        "gnome-boxes"@,
        "gnome-builder"@,
        "gnome-calculator"@,
        "gnome-calendar"@,
        "gnome-chess"@,
        "gnome-clocks"@,
        "gnome-connections"@,
        "gnome-contacts"@,
        "gnome-maps"@,
        "gnome-mines"@,
        "gnome-music"@,
        "gnome-passwordsafe"@,
        "gnome-photos"@,
        "gnome-sound-recorder"@,
        "gnome-sudoku"@,
        "gnome-text-editor"@,
        "gnome-weather"@,
        "gnucash"@,
        "gwenview"@,
        "intellij"@,
        "kcalc"@,
        "kdenlive"@,
        "kdevelop"@,
        "ksudoku"@,
        "kwrite"@,
        "libreoffice"@,
        "mediawriter"@,
        "okular"@,
        "pycharm"@,
        "quadrapassel"@,
        "rhythmbox"@,
        "shotwell"@,
        "steam"@,
        "supertuxkart"@,
        "thunderbird"@,
        "torbrowser-launcher"@,
        "totem"@,
        "vlc"@,
        "xonotic"@,
    ]
}

/// The Flathub application ids of the table, in table order.
pub open spec fn flatpak_ids() -> Seq<Seq<char>> {
    seq![
        "com.play0ad.zeroad"@,
        "org.gnome.Aisleriot"@,
        "org.kde.ark"@,
        "org.gnome.baobab"@,
        "org.blender.Blender"@,
        "org.gnome.Cheese"@,
        "org.chromium.Chromium"@,
        "com.vscodium.codium"@,
        "org.gnome.DejaDup"@,
        "com.discordapp.Discord"@,
        "org.kde.elisa"@,
        "org.gnome.eog"@,
        "org.gnome.Epiphany"@,
        "org.gnome.Evince"@,
        "org.mozilla.firefox"@,
        "org.gnome.gedit"@,
        "org.gimp.GIMP"@,
        "org.gnome.TwentyFortyEight"@,
        "org.gnome.Books"@,
        "org.gnome.Boxes"@,
        "org.gnome.Builder"@,
        "org.gnome.Calculator"@,
        "org.gnome.Calendar"@,
        "org.gnome.Chess"@,
        "org.gnome.clocks"@,
        "org.gnome.Connections"@,
        "org.gnome.Contacts"@,
        "org.gnome.Maps"@,
        "org.gnome.Mines"@,
        "org.gnome.Music"@,
        "org.gnome.PasswordSafe"@,
        "org.gnome.Photos"@,
        "org.gnome.SoundRecorder"@,
        "org.gnome.Sudoku"@,
        "org.gnome.TextEditor"@,
        "org.gnome.Weather"@,
        "org.gnucash.GnuCash"@,
        "org.kde.gwenview"@,
        "com.jetbrains.IntelliJ-IDEA-Community"@,
        "org.kde.kcalc"@,
        "org.kde.kdenlive"@,
        "org.kde.kdevelop"@,
        "org.kde.ksudoku"@,
        "org.kde.kwrite"@,
        "org.libreoffice.LibreOffice"@,
        "org.fedoraproject.MediaWriter"@,
        "org.kde.okular"@,
        "com.jetbrains.PyCharm-Community"@,
        "org.gnome.Quadrapassel"@,
        "org.gnome.Rhythmbox3"@,
        "org.gnome.Shotwell"@,
        "com.valvesoftware.Steam"@,
        "net.supertuxkart.SuperTuxKart"@,
        "org.mozilla.Thunderbird"@,
        "com.github.micahflee.torbrowser-launcher"@,
        "org.gnome.Totem"@,
        "org.videolan.VLC"@,
        "org.xonotic.Xonotic"@,
    ]
}

/// The application ids, from the least to the greatest.
spec fn sorted_flatpak_ids() -> Seq<Seq<char>> {
    seq![
        "com.discordapp.Discord"@,
        "com.github.micahflee.torbrowser-launcher"@,
        "com.jetbrains.IntelliJ-IDEA-Community"@,
        "com.jetbrains.PyCharm-Community"@,
        "com.play0ad.zeroad"@,
        "com.valvesoftware.Steam"@,
        "com.vscodium.codium"@,
        "net.supertuxkart.SuperTuxKart"@,
        "org.blender.Blender"@,
        "org.chromium.Chromium"@,
        "org.fedoraproject.MediaWriter"@,
        "org.gimp.GIMP"@,
        "org.gnome.Aisleriot"@,
        "org.gnome.Books"@,
        "org.gnome.Boxes"@,
        "org.gnome.Builder"@,
        "org.gnome.Calculator"@,
        "org.gnome.Calendar"@,
        "org.gnome.Cheese"@,
        "org.gnome.Chess"@,
        "org.gnome.Connections"@,
        "org.gnome.Contacts"@,
        "org.gnome.DejaDup"@,
        "org.gnome.Epiphany"@,
        "org.gnome.Evince"@,
        "org.gnome.Maps"@,
        "org.gnome.Mines"@,
        "org.gnome.Music"@,
        "org.gnome.PasswordSafe"@,
        "org.gnome.Photos"@,
        "org.gnome.Quadrapassel"@,
        "org.gnome.Rhythmbox3"@,
        "org.gnome.Shotwell"@,
        "org.gnome.SoundRecorder"@,
        "org.gnome.Sudoku"@,
        "org.gnome.TextEditor"@,
        "org.gnome.Totem"@,
        "org.gnome.TwentyFortyEight"@,
        "org.gnome.Weather"@,
        "org.gnome.baobab"@,
        "org.gnome.clocks"@,
        "org.gnome.eog"@,
        "org.gnome.gedit"@,
        "org.gnucash.GnuCash"@,
        "org.kde.ark"@,
        "org.kde.elisa"@,
        "org.kde.gwenview"@,
        "org.kde.kcalc"@,
        "org.kde.kdenlive"@,
        "org.kde.kdevelop"@,
        "org.kde.ksudoku"@,
        "org.kde.kwrite"@,
        "org.kde.okular"@,
        "org.libreoffice.LibreOffice"@,
        "org.mozilla.Thunderbird"@,
        "org.mozilla.firefox"@,
        "org.videolan.VLC"@,
        "org.xonotic.Xonotic"@,
    ]
}

/// The place in [`sorted_flatpak_ids`] of each id of the table.
spec fn flatpak_id_rank() -> Seq<int> {
    seq![4, 12, 44, 39, 8, 18, 9, 6, 22, 0, 45, 41, 23, 24, 55, 42, 11, 37, 13, 14, 15, 16, 17, 19, 40, 20, 21, 25, 26, 27, 28, 29, 33, 34, 35, 38, 43, 46, 2, 47, 48, 49, 50, 51, 53, 10, 52, 3, 30, 31, 32, 5, 7, 54, 1, 36, 56, 57]
}

/// The table entry whose id stands at each place of [`sorted_flatpak_ids`].
spec fn flatpak_rank_owner() -> Seq<int> {
    seq![9, 54, 38, 47, 0, 51, 7, 52, 4, 6, 45, 16, 1, 18, 19, 20, 21, 22, 5, 23, 25, 26, 8, 12, 13, 27, 28, 29, 30, 31, 48, 49, 50, 32, 33, 34, 55, 17, 35, 3, 24, 11, 15, 36, 2, 10, 37, 39, 40, 41, 42, 43, 46, 44, 53, 14, 56, 57]
}

proof fn lemma_flatpak_id_in_table(package: Seq<char>)
    ensures
        flatpak_id(package) matches Some(v) ==> exists|k: int|
            0 <= k < flatpak_keys().len() && #[trigger] flatpak_keys()[k] == package && flatpak_ids()[k] == v,
{
    let keys = flatpak_keys();
    let ids = flatpak_ids();
    assert(keys.len() == 58 && ids.len() == 58);
    if package == "0ad"@ {
        assert(keys[0] == package && ids[0] == "com.play0ad.zeroad"@);
    } else if package == "aisleriot"@ {
        assert(keys[1] == package && ids[1] == "org.gnome.Aisleriot"@);
    } else if package == "ark"@ {
        assert(keys[2] == package && ids[2] == "org.kde.ark"@);
    } else if package == "baobab"@ {
        assert(keys[3] == package && ids[3] == "org.gnome.baobab"@);
    } else if package == "blender"@ {
        assert(keys[4] == package && ids[4] == "org.blender.Blender"@);
    } else if package == "cheese"@ {
        assert(keys[5] == package && ids[5] == "org.gnome.Cheese"@);
    } else if package == "chromium"@ {
        assert(keys[6] == package && ids[6] == "org.chromium.Chromium"@);
    } else if package == "codium"@ {
        assert(keys[7] == package && ids[7] == "com.vscodium.codium"@);
    } else if package == "deja-dup"@ {
        assert(keys[8] == package && ids[8] == "org.gnome.DejaDup"@);
    } else if package == "discord"@ {
        assert(keys[9] == package && ids[9] == "com.discordapp.Discord"@);
    } else if package == "elisa"@ {
        assert(keys[10] == package && ids[10] == "org.kde.elisa"@);
    } else if package == "eog"@ {
        assert(keys[11] == package && ids[11] == "org.gnome.eog"@);
    } else if package == "epiphany"@ {
        assert(keys[12] == package && ids[12] == "org.gnome.Epiphany"@);
    } else if package == "evince"@ {
        assert(keys[13] == package && ids[13] == "org.gnome.Evince"@);
    } else if package == "firefox"@ {
        assert(keys[14] == package && ids[14] == "org.mozilla.firefox"@);
    } else if package == "gedit"@ {
        assert(keys[15] == package && ids[15] == "org.gnome.gedit"@);
    } else if package == "gimp"@ {
        assert(keys[16] == package && ids[16] == "org.gimp.GIMP"@);
    } else if package == "gnome-2048"@ {
        assert(keys[17] == package && ids[17] == "org.gnome.TwentyFortyEight"@);
    } else if package == "gnome-books"@ {
        assert(keys[18] == package && ids[18] == "org.gnome.Books"@);
    } else if package == "gnome-boxes"@ {
        assert(keys[19] == package && ids[19] == "org.gnome.Boxes"@);
    } else if package == "gnome-builder"@ {
        assert(keys[20] == package && ids[20] == "org.gnome.Builder"@);
    } else if package == "gnome-calculator"@ {
        assert(keys[21] == package && ids[21] == "org.gnome.Calculator"@);
    } else if package == "gnome-calendar"@ {
        assert(keys[22] == package && ids[22] == "org.gnome.Calendar"@);
    } else if package == "gnome-chess"@ {
        assert(keys[23] == package && ids[23] == "org.gnome.Chess"@);
    } else if package == "gnome-clocks"@ {
        assert(keys[24] == package && ids[24] == "org.gnome.clocks"@);
    } else if package == "gnome-connections"@ {
        assert(keys[25] == package && ids[25] == "org.gnome.Connections"@);
    } else if package == "gnome-contacts"@ {
        assert(keys[26] == package && ids[26] == "org.gnome.Contacts"@);
    } else if package == "gnome-maps"@ {
        assert(keys[27] == package && ids[27] == "org.gnome.Maps"@);
    } else if package == "gnome-mines"@ {
        assert(keys[28] == package && ids[28] == "org.gnome.Mines"@);
    } else if package == "gnome-music"@ {
        assert(keys[29] == package && ids[29] == "org.gnome.Music"@);
    } else if package == "gnome-passwordsafe"@ {
        assert(keys[30] == package && ids[30] == "org.gnome.PasswordSafe"@);
    } else if package == "gnome-photos"@ {
        assert(keys[31] == package && ids[31] == "org.gnome.Photos"@);
    } else if package == "gnome-sound-recorder"@ {
        assert(keys[32] == package && ids[32] == "org.gnome.SoundRecorder"@);
    } else if package == "gnome-sudoku"@ {
        assert(keys[33] == package && ids[33] == "org.gnome.Sudoku"@);
    } else if package == "gnome-text-editor"@ {
        assert(keys[34] == package && ids[34] == "org.gnome.TextEditor"@);
    } else if package == "gnome-weather"@ {
        assert(keys[35] == package && ids[35] == "org.gnome.Weather"@);
    } else if package == "gnucash"@ {
        assert(keys[36] == package && ids[36] == "org.gnucash.GnuCash"@);
    } else if package == "gwenview"@ {
        assert(keys[37] == package && ids[37] == "org.kde.gwenview"@);
    } else if package == "intellij"@ {
        assert(keys[38] == package && ids[38] == "com.jetbrains.IntelliJ-IDEA-Community"@);
    } else if package == "kcalc"@ {
        assert(keys[39] == package && ids[39] == "org.kde.kcalc"@);
    } else if package == "kdenlive"@ {
        assert(keys[40] == package && ids[40] == "org.kde.kdenlive"@);
    } else if package == "kdevelop"@ {
        assert(keys[41] == package && ids[41] == "org.kde.kdevelop"@);
    } else if package == "ksudoku"@ {
        assert(keys[42] == package && ids[42] == "org.kde.ksudoku"@);
    } else if package == "kwrite"@ {
        assert(keys[43] == package && ids[43] == "org.kde.kwrite"@);
    } else if package == "libreoffice"@ {
        assert(keys[44] == package && ids[44] == "org.libreoffice.LibreOffice"@);
    } else if package == "mediawriter"@ {
        assert(keys[45] == package && ids[45] == "org.fedoraproject.MediaWriter"@);
    } else if package == "okular"@ {
        assert(keys[46] == package && ids[46] == "org.kde.okular"@);
    } else if package == "pycharm"@ {
        assert(keys[47] == package && ids[47] == "com.jetbrains.PyCharm-Community"@);
    } else if package == "quadrapassel"@ {
        assert(keys[48] == package && ids[48] == "org.gnome.Quadrapassel"@);
    } else if package == "rhythmbox"@ {
        assert(keys[49] == package && ids[49] == "org.gnome.Rhythmbox3"@);
    } else if package == "shotwell"@ {
        assert(keys[50] == package && ids[50] == "org.gnome.Shotwell"@);
    } else if package == "steam"@ {
        assert(keys[51] == package && ids[51] == "com.valvesoftware.Steam"@);
    } else if package == "supertuxkart"@ {
        assert(keys[52] == package && ids[52] == "net.supertuxkart.SuperTuxKart"@);
    } else if package == "thunderbird"@ {
        assert(keys[53] == package && ids[53] == "org.mozilla.Thunderbird"@);
    } else if package == "torbrowser-launcher"@ {
        assert(keys[54] == package && ids[54] == "com.github.micahflee.torbrowser-launcher"@);
    } else if package == "totem"@ {
        assert(keys[55] == package && ids[55] == "org.gnome.Totem"@);
    } else if package == "vlc"@ {
        assert(keys[56] == package && ids[56] == "org.videolan.VLC"@);
    } else if package == "xonotic"@ {
        assert(keys[57] == package && ids[57] == "org.xonotic.Xonotic"@);
    }
}

proof fn lemma_flatpak_ranks()
    ensures
        forall|k: int|
            0 <= k < flatpak_ids().len() ==> 0 <= #[trigger] flatpak_id_rank()[k] < sorted_flatpak_ids().len()
                && flatpak_ids()[k] == sorted_flatpak_ids()[flatpak_id_rank()[k]]
                && flatpak_rank_owner()[flatpak_id_rank()[k]] == k,
{
    let ids = flatpak_ids();
    let sorted = sorted_flatpak_ids();
    let r = flatpak_id_rank();
    let owner = flatpak_rank_owner();
    assert(ids.len() == 58 && sorted.len() == 58 && r.len() == 58 && owner.len() == 58);
    assert(ids[0] == sorted[r[0]] && owner[r[0]] == 0);
    assert(ids[1] == sorted[r[1]] && owner[r[1]] == 1);
    assert(ids[2] == sorted[r[2]] && owner[r[2]] == 2);
    assert(ids[3] == sorted[r[3]] && owner[r[3]] == 3);
    assert(ids[4] == sorted[r[4]] && owner[r[4]] == 4);
    assert(ids[5] == sorted[r[5]] && owner[r[5]] == 5);
    assert(ids[6] == sorted[r[6]] && owner[r[6]] == 6);
    assert(ids[7] == sorted[r[7]] && owner[r[7]] == 7);
    assert(ids[8] == sorted[r[8]] && owner[r[8]] == 8);
    assert(ids[9] == sorted[r[9]] && owner[r[9]] == 9);
    assert(ids[10] == sorted[r[10]] && owner[r[10]] == 10);
    assert(ids[11] == sorted[r[11]] && owner[r[11]] == 11);
    assert(ids[12] == sorted[r[12]] && owner[r[12]] == 12);
    assert(ids[13] == sorted[r[13]] && owner[r[13]] == 13);
    assert(ids[14] == sorted[r[14]] && owner[r[14]] == 14);
    assert(ids[15] == sorted[r[15]] && owner[r[15]] == 15);
    assert(ids[16] == sorted[r[16]] && owner[r[16]] == 16);
    assert(ids[17] == sorted[r[17]] && owner[r[17]] == 17);
    assert(ids[18] == sorted[r[18]] && owner[r[18]] == 18);
    assert(ids[19] == sorted[r[19]] && owner[r[19]] == 19);
    assert(ids[20] == sorted[r[20]] && owner[r[20]] == 20);
    assert(ids[21] == sorted[r[21]] && owner[r[21]] == 21);
    assert(ids[22] == sorted[r[22]] && owner[r[22]] == 22);
    assert(ids[23] == sorted[r[23]] && owner[r[23]] == 23);
    assert(ids[24] == sorted[r[24]] && owner[r[24]] == 24);
    assert(ids[25] == sorted[r[25]] && owner[r[25]] == 25);
    assert(ids[26] == sorted[r[26]] && owner[r[26]] == 26);
    assert(ids[27] == sorted[r[27]] && owner[r[27]] == 27);
    assert(ids[28] == sorted[r[28]] && owner[r[28]] == 28);
    assert(ids[29] == sorted[r[29]] && owner[r[29]] == 29);
    assert(ids[30] == sorted[r[30]] && owner[r[30]] == 30);
    assert(ids[31] == sorted[r[31]] && owner[r[31]] == 31);
    assert(ids[32] == sorted[r[32]] && owner[r[32]] == 32);
    assert(ids[33] == sorted[r[33]] && owner[r[33]] == 33);
    assert(ids[34] == sorted[r[34]] && owner[r[34]] == 34);
    assert(ids[35] == sorted[r[35]] && owner[r[35]] == 35);
    assert(ids[36] == sorted[r[36]] && owner[r[36]] == 36);
    assert(ids[37] == sorted[r[37]] && owner[r[37]] == 37);
    assert(ids[38] == sorted[r[38]] && owner[r[38]] == 38);
    assert(ids[39] == sorted[r[39]] && owner[r[39]] == 39);
    assert(ids[40] == sorted[r[40]] && owner[r[40]] == 40);
    assert(ids[41] == sorted[r[41]] && owner[r[41]] == 41);
    assert(ids[42] == sorted[r[42]] && owner[r[42]] == 42);
    assert(ids[43] == sorted[r[43]] && owner[r[43]] == 43);
    assert(ids[44] == sorted[r[44]] && owner[r[44]] == 44);
    assert(ids[45] == sorted[r[45]] && owner[r[45]] == 45);
    assert(ids[46] == sorted[r[46]] && owner[r[46]] == 46);
    assert(ids[47] == sorted[r[47]] && owner[r[47]] == 47);
    assert(ids[48] == sorted[r[48]] && owner[r[48]] == 48);
    assert(ids[49] == sorted[r[49]] && owner[r[49]] == 49);
    assert(ids[50] == sorted[r[50]] && owner[r[50]] == 50);
    assert(ids[51] == sorted[r[51]] && owner[r[51]] == 51);
    assert(ids[52] == sorted[r[52]] && owner[r[52]] == 52);
    assert(ids[53] == sorted[r[53]] && owner[r[53]] == 53);
    assert(ids[54] == sorted[r[54]] && owner[r[54]] == 54);
    assert(ids[55] == sorted[r[55]] && owner[r[55]] == 55);
    assert(ids[56] == sorted[r[56]] && owner[r[56]] == 56);
    assert(ids[57] == sorted[r[57]] && owner[r[57]] == 57);
}

proof fn lemma_sorted_flatpak_ids_increase()
    ensures
        forall|k: int|
            0 <= k < sorted_flatpak_ids().len() - 1 ==> str_less(#[trigger] sorted_flatpak_ids()[k], sorted_flatpak_ids()[k + 1]),
{
    reveal_strlit("com.discordapp.Discord");
    reveal_strlit("com.github.micahflee.torbrowser-launcher");
    reveal_strlit("com.jetbrains.IntelliJ-IDEA-Community");
    reveal_strlit("com.jetbrains.PyCharm-Community");
    reveal_strlit("com.play0ad.zeroad");
    reveal_strlit("com.valvesoftware.Steam");
    reveal_strlit("com.vscodium.codium");
    reveal_strlit("net.supertuxkart.SuperTuxKart");
    reveal_strlit("org.blender.Blender");
    reveal_strlit("org.chromium.Chromium");
    reveal_strlit("org.fedoraproject.MediaWriter");
    reveal_strlit("org.gimp.GIMP");
    reveal_strlit("org.gnome.Aisleriot");
    reveal_strlit("org.gnome.Books");
    reveal_strlit("org.gnome.Boxes");
    reveal_strlit("org.gnome.Builder");
    reveal_strlit("org.gnome.Calculator");
    reveal_strlit("org.gnome.Calendar");
    reveal_strlit("org.gnome.Cheese");
    reveal_strlit("org.gnome.Chess");
    reveal_strlit("org.gnome.Connections");
    reveal_strlit("org.gnome.Contacts");
    reveal_strlit("org.gnome.DejaDup");
    reveal_strlit("org.gnome.Epiphany");
    reveal_strlit("org.gnome.Evince");
    reveal_strlit("org.gnome.Maps");
    reveal_strlit("org.gnome.Mines");
    reveal_strlit("org.gnome.Music");
    reveal_strlit("org.gnome.PasswordSafe");
    reveal_strlit("org.gnome.Photos");
    reveal_strlit("org.gnome.Quadrapassel");
    reveal_strlit("org.gnome.Rhythmbox3");
    reveal_strlit("org.gnome.Shotwell");
    reveal_strlit("org.gnome.SoundRecorder");
    reveal_strlit("org.gnome.Sudoku");
    reveal_strlit("org.gnome.TextEditor");
    reveal_strlit("org.gnome.Totem");
    reveal_strlit("org.gnome.TwentyFortyEight");
    reveal_strlit("org.gnome.Weather");
    reveal_strlit("org.gnome.baobab");
    reveal_strlit("org.gnome.clocks");
    reveal_strlit("org.gnome.eog");
    reveal_strlit("org.gnome.gedit");
    reveal_strlit("org.gnucash.GnuCash");
    reveal_strlit("org.kde.ark");
    reveal_strlit("org.kde.elisa");
    reveal_strlit("org.kde.gwenview");
    reveal_strlit("org.kde.kcalc");
    reveal_strlit("org.kde.kdenlive");
    reveal_strlit("org.kde.kdevelop");
    reveal_strlit("org.kde.ksudoku");
    reveal_strlit("org.kde.kwrite");
    reveal_strlit("org.kde.okular");
    reveal_strlit("org.libreoffice.LibreOffice");
    reveal_strlit("org.mozilla.Thunderbird");
    reveal_strlit("org.mozilla.firefox");
    reveal_strlit("org.videolan.VLC");
    reveal_strlit("org.xonotic.Xonotic");
    let sorted = sorted_flatpak_ids();
    assert(sorted.len() == 58);
    lemma_str_less_at(sorted[0], sorted[1], 4);
    lemma_str_less_at(sorted[1], sorted[2], 4);
    lemma_str_less_at(sorted[2], sorted[3], 14);
    lemma_str_less_at(sorted[3], sorted[4], 4);
    lemma_str_less_at(sorted[4], sorted[5], 4);
    lemma_str_less_at(sorted[5], sorted[6], 5);
    lemma_str_less_at(sorted[6], sorted[7], 0);
    lemma_str_less_at(sorted[7], sorted[8], 0);
    lemma_str_less_at(sorted[8], sorted[9], 4);
    lemma_str_less_at(sorted[9], sorted[10], 4);
    lemma_str_less_at(sorted[10], sorted[11], 4);
    lemma_str_less_at(sorted[11], sorted[12], 5);
    lemma_str_less_at(sorted[12], sorted[13], 10);
    lemma_str_less_at(sorted[13], sorted[14], 12);
    lemma_str_less_at(sorted[14], sorted[15], 11);
    lemma_str_less_at(sorted[15], sorted[16], 10);
    lemma_str_less_at(sorted[16], sorted[17], 13);
    lemma_str_less_at(sorted[17], sorted[18], 11);
    lemma_str_less_at(sorted[18], sorted[19], 13);
    lemma_str_less_at(sorted[19], sorted[20], 11);
    lemma_str_less_at(sorted[20], sorted[21], 13);
    lemma_str_less_at(sorted[21], sorted[22], 10);
    lemma_str_less_at(sorted[22], sorted[23], 10);
    lemma_str_less_at(sorted[23], sorted[24], 11);
    lemma_str_less_at(sorted[24], sorted[25], 10);
    lemma_str_less_at(sorted[25], sorted[26], 11);
    lemma_str_less_at(sorted[26], sorted[27], 11);
    lemma_str_less_at(sorted[27], sorted[28], 10);
    lemma_str_less_at(sorted[28], sorted[29], 11);
    lemma_str_less_at(sorted[29], sorted[30], 10);
    lemma_str_less_at(sorted[30], sorted[31], 10);
    lemma_str_less_at(sorted[31], sorted[32], 10);
    lemma_str_less_at(sorted[32], sorted[33], 11);
    lemma_str_less_at(sorted[33], sorted[34], 11);
    lemma_str_less_at(sorted[34], sorted[35], 10);
    lemma_str_less_at(sorted[35], sorted[36], 11);
    lemma_str_less_at(sorted[36], sorted[37], 11);
    lemma_str_less_at(sorted[37], sorted[38], 10);
    lemma_str_less_at(sorted[38], sorted[39], 10);
    lemma_str_less_at(sorted[39], sorted[40], 10);
    lemma_str_less_at(sorted[40], sorted[41], 10);
    lemma_str_less_at(sorted[41], sorted[42], 10);
    lemma_str_less_at(sorted[42], sorted[43], 6);
    lemma_str_less_at(sorted[43], sorted[44], 4);
    lemma_str_less_at(sorted[44], sorted[45], 8);
    lemma_str_less_at(sorted[45], sorted[46], 8);
    lemma_str_less_at(sorted[46], sorted[47], 8);
    lemma_str_less_at(sorted[47], sorted[48], 9);
    lemma_str_less_at(sorted[48], sorted[49], 11);
    lemma_str_less_at(sorted[49], sorted[50], 9);
    lemma_str_less_at(sorted[50], sorted[51], 9);
    lemma_str_less_at(sorted[51], sorted[52], 8);
    lemma_str_less_at(sorted[52], sorted[53], 4);
    lemma_str_less_at(sorted[53], sorted[54], 4);
    lemma_str_less_at(sorted[54], sorted[55], 12);
    lemma_str_less_at(sorted[55], sorted[56], 4);
    lemma_str_less_at(sorted[56], sorted[57], 4);
}

/// No two package names share a Flathub application id: two names with the
/// same id are the same name.
pub proof fn law_flatpak_ids_distinct(p1: Seq<char>, p2: Seq<char>)
    requires
        flatpak_id(p1) is Some,
        flatpak_id(p1) == flatpak_id(p2),
    ensures
        p1 == p2,
{
    lemma_flatpak_id_in_table(p1);
    lemma_flatpak_id_in_table(p2);
    let v = flatpak_id(p1)->0;
    let k1 = choose|k: int| 0 <= k < flatpak_keys().len() && #[trigger] flatpak_keys()[k] == p1 && flatpak_ids()[k] == v;
    let k2 = choose|k: int| 0 <= k < flatpak_keys().len() && #[trigger] flatpak_keys()[k] == p2 && flatpak_ids()[k] == v;
    if k1 != k2 {
        lemma_flatpak_ranks();
        lemma_sorted_flatpak_ids_increase();
        let r1 = flatpak_id_rank()[k1];
        let r2 = flatpak_id_rank()[k2];
        assert(flatpak_rank_owner()[r1] == k1 && flatpak_rank_owner()[r2] == k2);
        let sorted = sorted_flatpak_ids();
        if r1 < r2 {
            lemma_increasing(sorted, r1, r2);
            lemma_str_less_asym(sorted[r1], sorted[r1]);
        } else {
            lemma_increasing(sorted, r2, r1);
            lemma_str_less_asym(sorted[r2], sorted[r2]);
        }
    }
}

} // verus!
