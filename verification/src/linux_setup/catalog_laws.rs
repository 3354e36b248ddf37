//! What the package catalogue promises of its entries: what each one holds,
//! and that no two share a name.
use vstd::prelude::*;
use crate::linux_setup::catalog::{
    applications_spec, browsers_spec, category_packages_spec, communication_spec, desktop_spec,
    editors_spec, games_spec, multimedia_spec, server_spec, software_spec, utilities_spec,
};
use crate::backup_dbs::{lemma_increasing, lemma_str_less_asym, lemma_str_less_at, str_less};
use crate::linux_setup::package::{Category, PackageView};

verus! {

/// A repository's list for a package, where it has one, names at least one
/// package and no empty name.
pub open spec fn repository_names_ok(v: Option<Seq<Seq<char>>>) -> bool {
    v matches Some(n) ==> n.len() > 0 && forall|k: int| 0 <= k < n.len() ==> (#[trigger] n[k]).len() > 0
}

/// What every entry of the catalogue holds: the package has a name and some
/// way to be installed; each repository list names packages, none empty; a Flatpak
/// has an application id and is offered from Flathub, or from Fedora and then
/// Flathub; a snap has a name; and only the `rustup` package of the Server
/// category is installed with its own installer, under the name `rustup`.
pub open spec fn catalogue_entry_ok(c: Category, p: PackageView) -> bool {
    &&& p.name.len() > 0
    &&& (p.arch is Some || p.debian is Some || p.fedora is Some || p.redhat is Some || p.ubuntu is Some
        || p.flatpak is Some || p.snap is Some || p.other is Some)
    &&& repository_names_ok(p.arch)
    &&& repository_names_ok(p.debian)
    &&& repository_names_ok(p.fedora)
    &&& repository_names_ok(p.redhat)
    &&& repository_names_ok(p.ubuntu)
    &&& (p.flatpak matches Some(f) ==> f.name.len() > 0 && (f.remotes == seq!["flathub"@] || f.remotes
        == seq!["fedora"@, "flathub"@]))
    &&& (p.snap matches Some(s) ==> s.name.len() > 0)
    &&& (p.other matches Some(o) ==> c == Category::Server && p.name == "rustup"@ && o == "rustup"@)
}

proof fn lemma_server_entries()
    ensures
        forall|i: int| 0 <= i < server_spec().len() ==> catalogue_entry_ok(Category::Server, #[trigger] server_spec()[i]),
{
    reveal_strlit("");
    reveal_strlit("18/stable");
    reveal_strlit("8.0/stable");
    reveal_strlit("Cockpit - Web Interface");
    reveal_strlit("Flatpak");
    reveal_strlit("Flutter");
    reveal_strlit("Go Language");
    reveal_strlit("MariaDB - Database");
    reveal_strlit("Node.js - JavaScript RE");
    reveal_strlit("Podman - Containers");
    reveal_strlit("Rust Language");
    reveal_strlit("SSH - Secure Shell Protocol");
    reveal_strlit("Snap");
    reveal_strlit("cURL - Client URL");
    reveal_strlit("cargo");
    reveal_strlit("cockpit");
    reveal_strlit("curl");
    reveal_strlit("dotnet - C# SDK 8.0 LTS");
    reveal_strlit("dotnet - C# runtime 8.0 LTS");
    reveal_strlit("dotnet-runtime-8.0");
    reveal_strlit("dotnet-runtime-80");
    reveal_strlit("dotnet-sdk");
    reveal_strlit("dotnet-sdk-8.0");
    reveal_strlit("flatpak");
    reveal_strlit("flutter");
    reveal_strlit("git - Version Control");
    reveal_strlit("git");
    reveal_strlit("go");
    reveal_strlit("golang");
    reveal_strlit("golang-x-tools-gopls");
    reveal_strlit("gopls");
    reveal_strlit("htop - Process Viewer");
    reveal_strlit("htop");
    reveal_strlit("libssh");
    reveal_strlit("mariadb");
    reveal_strlit("mariadb-server");
    reveal_strlit("nano - Text Editor");
    reveal_strlit("nano");
    reveal_strlit("neovim - Text Editor");
    reveal_strlit("neovim");
    reveal_strlit("node");
    reveal_strlit("nodejs");
    reveal_strlit("npm");
    reveal_strlit("openssh");
    reveal_strlit("podman");
    reveal_strlit("rust");
    reveal_strlit("rustc");
    reveal_strlit("rustfmt");
    reveal_strlit("rustup");
    reveal_strlit("snapd");
    reveal_strlit("ssh");
    reveal_strlit("vim - Text Editor");
    reveal_strlit("vim");
    reveal_strlit("vim-airline");
    reveal_strlit("vim-ale");
    reveal_strlit("vim-ctrlp");
    reveal_strlit("vim-enhanced");
    reveal_strlit("vim-gitgutter");
    reveal_strlit("vim-nerdtree");
    let s = server_spec();
    assert(s.len() == 19);
    assert(catalogue_entry_ok(Category::Server, s[0]));
    assert(catalogue_entry_ok(Category::Server, s[1]));
    assert(catalogue_entry_ok(Category::Server, s[2]));
    assert(catalogue_entry_ok(Category::Server, s[3]));
    assert(catalogue_entry_ok(Category::Server, s[4]));
    assert(catalogue_entry_ok(Category::Server, s[5]));
    assert(catalogue_entry_ok(Category::Server, s[6]));
    assert(catalogue_entry_ok(Category::Server, s[7]));
    assert(catalogue_entry_ok(Category::Server, s[8]));
    assert(catalogue_entry_ok(Category::Server, s[9]));
    assert(catalogue_entry_ok(Category::Server, s[10]));
    assert(catalogue_entry_ok(Category::Server, s[11]));
    assert(catalogue_entry_ok(Category::Server, s[12]));
    assert(catalogue_entry_ok(Category::Server, s[13]));
    assert(catalogue_entry_ok(Category::Server, s[14]));
    assert(catalogue_entry_ok(Category::Server, s[15]));
    assert(catalogue_entry_ok(Category::Server, s[16]));
    assert(catalogue_entry_ok(Category::Server, s[17]));
    assert(catalogue_entry_ok(Category::Server, s[18]));
}

proof fn lemma_desktop_entries()
    ensures
        forall|i: int| 0 <= i < desktop_spec().len() ==> catalogue_entry_ok(Category::Desktop, #[trigger] desktop_spec()[i]),
{
    reveal_strlit("ImageMagick");
    reveal_strlit("LaTex - Compiler");
    reveal_strlit("MP3 Metadata Editor");
    reveal_strlit("Vietnamese Keyboard");
    reveal_strlit("alacritty");
    reveal_strlit("cups - Printer Support");
    reveal_strlit("cups");
    reveal_strlit("ffmpeg - Media Codecs");
    reveal_strlit("ffmpeg");
    reveal_strlit("https://rpmfind.net/linux/fedora/linux/releases/34/Everything/x86_64/os/Packages/i/ibus-unikey-0.6.1-26.20190311git46b5b9e.fc34.x86_64.rpm");
    reveal_strlit("ibus-unikey");
    reveal_strlit("id3v2");
    reveal_strlit("imagemagick");
    reveal_strlit("numlockx");
    reveal_strlit("playerctl");
    reveal_strlit("qtile - Window Manager");
    reveal_strlit("qtile");
    reveal_strlit("rofi");
    reveal_strlit("texlive-collection-latexextra");
    reveal_strlit("texlive-core");
    reveal_strlit("texlive-latex");
    reveal_strlit("texlive-latex-base");
    reveal_strlit("texlive-latex-extra");
    reveal_strlit("texlive-latexextra");
    reveal_strlit("yt-dlp - Download YouTube");
    reveal_strlit("yt-dlp");
    let s = desktop_spec();
    assert(s.len() == 8);
    assert(catalogue_entry_ok(Category::Desktop, s[0]));
    assert(catalogue_entry_ok(Category::Desktop, s[1]));
    assert(catalogue_entry_ok(Category::Desktop, s[2]));
    assert(catalogue_entry_ok(Category::Desktop, s[3]));
    assert(catalogue_entry_ok(Category::Desktop, s[4]));
    assert(catalogue_entry_ok(Category::Desktop, s[5]));
    assert(catalogue_entry_ok(Category::Desktop, s[6]));
    assert(catalogue_entry_ok(Category::Desktop, s[7]));
}

proof fn lemma_applications_entries()
    ensures
        forall|i: int| 0 <= i < applications_spec().len() ==> catalogue_entry_ok(Category::Applications, #[trigger] applications_spec()[i]),
{
    reveal_strlit("");
    reveal_strlit("Cheese - Webcam");
    reveal_strlit("Deja Dup - Backups");
    reveal_strlit("Evince - Document Viewer");
    reveal_strlit("Eye of Gnome - Image Viewer");
    reveal_strlit("GNU Cash - Accounting");
    reveal_strlit("Gnome Boxes - VM Manager");
    reveal_strlit("Gnome Calculator");
    reveal_strlit("Gnome Calendar");
    reveal_strlit("Gnome Camera");
    reveal_strlit("Gnome Clocks");
    reveal_strlit("Gnome Connections");
    reveal_strlit("Gnome Contacts");
    reveal_strlit("Gnome Image Viewer");
    reveal_strlit("Gnome Maps");
    reveal_strlit("Gnome Password Safe");
    reveal_strlit("Gnome Weather");
    reveal_strlit("Gwenview - Image Viewer");
    reveal_strlit("KCalc - Calculator");
    reveal_strlit("Okular - Document Viewer");
    reveal_strlit("Transmission (GTK) - Torrent");
    reveal_strlit("Transmission (QT) - Torrent");
    reveal_strlit("Virt Manager");
    reveal_strlit("cheese");
    reveal_strlit("com.transmissionbt.Transmission");
    reveal_strlit("deja-dup");
    reveal_strlit("eog");
    reveal_strlit("evince");
    reveal_strlit("fedora");
    reveal_strlit("flathub");
    reveal_strlit("gnome-boxes");
    reveal_strlit("gnome-calculator");
    reveal_strlit("gnome-calendar");
    reveal_strlit("gnome-clocks");
    reveal_strlit("gnome-connections");
    reveal_strlit("gnome-contacts");
    reveal_strlit("gnome-maps");
    reveal_strlit("gnome-passwordsafe");
    reveal_strlit("gnome-snapshot");
    reveal_strlit("gnome-weather");
    reveal_strlit("gnucash");
    reveal_strlit("gwenview");
    reveal_strlit("kcalc");
    reveal_strlit("loupe");
    reveal_strlit("okular");
    reveal_strlit("org.gnome.Boxes");
    reveal_strlit("org.gnome.Calculator");
    reveal_strlit("org.gnome.Calendar");
    reveal_strlit("org.gnome.Cheese");
    reveal_strlit("org.gnome.Connections");
    reveal_strlit("org.gnome.Contacts");
    reveal_strlit("org.gnome.DejaDup");
    reveal_strlit("org.gnome.Evince");
    reveal_strlit("org.gnome.Loupe");
    reveal_strlit("org.gnome.Maps");
    reveal_strlit("org.gnome.Snapshot");
    reveal_strlit("org.gnome.Weather");
    reveal_strlit("org.gnome.World.Secrets");
    reveal_strlit("org.gnome.clocks");
    reveal_strlit("org.gnome.eog");
    reveal_strlit("org.gnucash.GnuCash");
    reveal_strlit("org.kde.gwenview");
    reveal_strlit("org.kde.kcalc");
    reveal_strlit("org.kde.okular");
    reveal_strlit("secrets");
    reveal_strlit("snapshot");
    reveal_strlit("transmission-gtk");
    reveal_strlit("transmission-qt");
    reveal_strlit("virt-manager");
    let s = applications_spec();
    assert(s.len() == 22);
    assert(catalogue_entry_ok(Category::Applications, s[0]));
    assert(catalogue_entry_ok(Category::Applications, s[1]));
    assert(catalogue_entry_ok(Category::Applications, s[2]));
    assert(catalogue_entry_ok(Category::Applications, s[3]));
    assert(catalogue_entry_ok(Category::Applications, s[4]));
    assert(catalogue_entry_ok(Category::Applications, s[5]));
    assert(catalogue_entry_ok(Category::Applications, s[6]));
    assert(catalogue_entry_ok(Category::Applications, s[7]));
    assert(catalogue_entry_ok(Category::Applications, s[8]));
    assert(catalogue_entry_ok(Category::Applications, s[9]));
    assert(catalogue_entry_ok(Category::Applications, s[10]));
    assert(catalogue_entry_ok(Category::Applications, s[11]));
    assert(catalogue_entry_ok(Category::Applications, s[12]));
    assert(catalogue_entry_ok(Category::Applications, s[13]));
    assert(catalogue_entry_ok(Category::Applications, s[14]));
    assert(catalogue_entry_ok(Category::Applications, s[15]));
    assert(catalogue_entry_ok(Category::Applications, s[16]));
    assert(catalogue_entry_ok(Category::Applications, s[17]));
    assert(catalogue_entry_ok(Category::Applications, s[18]));
    assert(catalogue_entry_ok(Category::Applications, s[19]));
    assert(catalogue_entry_ok(Category::Applications, s[20]));
    assert(catalogue_entry_ok(Category::Applications, s[21]));
}

proof fn lemma_browsers_entries()
    ensures
        forall|i: int| 0 <= i < browsers_spec().len() ==> catalogue_entry_ok(Category::Browsers, #[trigger] browsers_spec()[i]),
{
    reveal_strlit("");
    reveal_strlit("Chromium");
    reveal_strlit("Epiphany - Gnome Web");
    reveal_strlit("Firefox ESR");
    reveal_strlit("Firefox");
    reveal_strlit("IceCat - GNU Browser");
    reveal_strlit("TOR - The Onion Router");
    reveal_strlit("chromium");
    reveal_strlit("com.github.micahflee.torbrowser-launcher");
    reveal_strlit("epiphany");
    reveal_strlit("epiphany-browser");
    reveal_strlit("esr-stable");
    reveal_strlit("fedora");
    reveal_strlit("firefox");
    reveal_strlit("firefox-esr");
    reveal_strlit("flathub");
    reveal_strlit("icecat");
    reveal_strlit("org.chromium.Chromium");
    reveal_strlit("org.gnome.Epiphany");
    reveal_strlit("org.mozilla.firefox");
    let s = browsers_spec();
    assert(s.len() == 6);
    assert(catalogue_entry_ok(Category::Browsers, s[0]));
    assert(catalogue_entry_ok(Category::Browsers, s[1]));
    assert(catalogue_entry_ok(Category::Browsers, s[2]));
    assert(catalogue_entry_ok(Category::Browsers, s[3]));
    assert(catalogue_entry_ok(Category::Browsers, s[4]));
    assert(catalogue_entry_ok(Category::Browsers, s[5]));
}

proof fn lemma_communication_entries()
    ensures
        forall|i: int| 0 <= i < communication_spec().len() ==> catalogue_entry_ok(Category::Communication, #[trigger] communication_spec()[i]),
{
    reveal_strlit("");
    reveal_strlit("Discord");
    reveal_strlit("Thunderbird");
    reveal_strlit("com.discordapp.Discord");
    reveal_strlit("discord");
    reveal_strlit("fedora");
    reveal_strlit("flathub");
    reveal_strlit("org.mozilla.Thunderbird");
    reveal_strlit("thunderbird");
    let s = communication_spec();
    assert(s.len() == 2);
    assert(catalogue_entry_ok(Category::Communication, s[0]));
    assert(catalogue_entry_ok(Category::Communication, s[1]));
}

proof fn lemma_games_entries()
    ensures
        forall|i: int| 0 <= i < games_spec().len() ==> catalogue_entry_ok(Category::Games, #[trigger] games_spec()[i]),
{
    reveal_strlit("");
    reveal_strlit("0 A.D.");
    reveal_strlit("0ad");
    reveal_strlit("Gnome 2048");
    reveal_strlit("Gnome Chess");
    reveal_strlit("Gnome Mines");
    reveal_strlit("Gnome Solitaire");
    reveal_strlit("Gnome Sudoku");
    reveal_strlit("Gnome Tetris");
    reveal_strlit("KDE Chess");
    reveal_strlit("KDE Mines");
    reveal_strlit("KDE Sudoku");
    reveal_strlit("Steam");
    reveal_strlit("Super Tux Kart");
    reveal_strlit("Xonotic");
    reveal_strlit("aisleriot");
    reveal_strlit("com.play0ad.zeroad");
    reveal_strlit("com.valvesoftware.Steam");
    reveal_strlit("fedora");
    reveal_strlit("flathub");
    reveal_strlit("gnome-2048");
    reveal_strlit("gnome-chess");
    reveal_strlit("gnome-mines");
    reveal_strlit("gnome-sudoku");
    reveal_strlit("kmines");
    reveal_strlit("knights");
    reveal_strlit("ksudoku");
    reveal_strlit("net.supertuxkart.SuperTuxKart");
    reveal_strlit("org.gnome.Aisleriot");
    reveal_strlit("org.gnome.Chess");
    reveal_strlit("org.gnome.Mines");
    reveal_strlit("org.gnome.Quadrapassel");
    reveal_strlit("org.gnome.Sudoku");
    reveal_strlit("org.gnome.TwentyFortyEight");
    reveal_strlit("org.kde.ksudoku");
    reveal_strlit("org.xonotic.Xonotic");
    reveal_strlit("quadrapassel");
    reveal_strlit("steam");
    reveal_strlit("supertuxkart");
    reveal_strlit("xonotic");
    let s = games_spec();
    assert(s.len() == 13);
    assert(catalogue_entry_ok(Category::Games, s[0]));
    assert(catalogue_entry_ok(Category::Games, s[1]));
    assert(catalogue_entry_ok(Category::Games, s[2]));
    assert(catalogue_entry_ok(Category::Games, s[3]));
    assert(catalogue_entry_ok(Category::Games, s[4]));
    assert(catalogue_entry_ok(Category::Games, s[5]));
    assert(catalogue_entry_ok(Category::Games, s[6]));
    assert(catalogue_entry_ok(Category::Games, s[7]));
    assert(catalogue_entry_ok(Category::Games, s[8]));
    assert(catalogue_entry_ok(Category::Games, s[9]));
    assert(catalogue_entry_ok(Category::Games, s[10]));
    assert(catalogue_entry_ok(Category::Games, s[11]));
    assert(catalogue_entry_ok(Category::Games, s[12]));
}

proof fn lemma_multimedia_entries()
    ensures
        forall|i: int| 0 <= i < multimedia_spec().len() ==> catalogue_entry_ok(Category::MultiMedia, #[trigger] multimedia_spec()[i]),
{
    reveal_strlit("");
    reveal_strlit("Blender");
    reveal_strlit("Elisa Music Player");
    reveal_strlit("GIMP");
    reveal_strlit("Gnome Music");
    reveal_strlit("Gnome Photos");
    reveal_strlit("Gnome Sound Recorder");
    reveal_strlit("KdenLive Video Editor");
    reveal_strlit("RhythmBox");
    reveal_strlit("Shotwell");
    reveal_strlit("Totem Video Player");
    reveal_strlit("VLC");
    reveal_strlit("blender");
    reveal_strlit("elisa");
    reveal_strlit("fedora");
    reveal_strlit("flathub");
    reveal_strlit("gimp");
    reveal_strlit("gnome-music");
    reveal_strlit("gnome-photos");
    reveal_strlit("gnome-sound-recorder");
    reveal_strlit("kdenlive");
    reveal_strlit("org.blender.Blender");
    reveal_strlit("org.gimp.GIMP");
    reveal_strlit("org.gnome.Music");
    reveal_strlit("org.gnome.Photos");
    reveal_strlit("org.gnome.Rhythmbox3");
    reveal_strlit("org.gnome.Shotwell");
    reveal_strlit("org.gnome.SoundRecorder");
    reveal_strlit("org.gnome.Totem");
    reveal_strlit("org.kde.elisa");
    reveal_strlit("org.kde.kdenlive");
    reveal_strlit("org.videolan.VLC");
    reveal_strlit("rhythmbox");
    reveal_strlit("shotwell");
    reveal_strlit("totem");
    reveal_strlit("vlc");
    let s = multimedia_spec();
    assert(s.len() == 11);
    assert(catalogue_entry_ok(Category::MultiMedia, s[0]));
    assert(catalogue_entry_ok(Category::MultiMedia, s[1]));
    assert(catalogue_entry_ok(Category::MultiMedia, s[2]));
    assert(catalogue_entry_ok(Category::MultiMedia, s[3]));
    assert(catalogue_entry_ok(Category::MultiMedia, s[4]));
    assert(catalogue_entry_ok(Category::MultiMedia, s[5]));
    assert(catalogue_entry_ok(Category::MultiMedia, s[6]));
    assert(catalogue_entry_ok(Category::MultiMedia, s[7]));
    assert(catalogue_entry_ok(Category::MultiMedia, s[8]));
    assert(catalogue_entry_ok(Category::MultiMedia, s[9]));
    assert(catalogue_entry_ok(Category::MultiMedia, s[10]));
}

proof fn lemma_editors_entries()
    ensures
        forall|i: int| 0 <= i < editors_spec().len() ==> catalogue_entry_ok(Category::Editors, #[trigger] editors_spec()[i]),
{
    reveal_strlit("");
    reveal_strlit("Gnome Builder");
    reveal_strlit("Gnome Text Editor");
    reveal_strlit("Intellij");
    reveal_strlit("KDevelop");
    reveal_strlit("KWrite");
    reveal_strlit("Kate");
    reveal_strlit("Kile - LaTex Editor");
    reveal_strlit("LibreOffice");
    reveal_strlit("Pycharm");
    reveal_strlit("VS Code");
    reveal_strlit("code");
    reveal_strlit("com.jetbrains.IntelliJ-IDEA-Community");
    reveal_strlit("com.jetbrains.PyCharm-Community");
    reveal_strlit("com.visualstudio.code");
    reveal_strlit("fedora");
    reveal_strlit("flathub");
    reveal_strlit("gedit");
    reveal_strlit("gnome-builder");
    reveal_strlit("gnome-text-editor");
    reveal_strlit("intellij-idea-community");
    reveal_strlit("intellij-idea-community-edition");
    reveal_strlit("kate");
    reveal_strlit("kdevelop");
    reveal_strlit("kile");
    reveal_strlit("kwrite");
    reveal_strlit("libreoffice");
    reveal_strlit("libreoffice-base");
    reveal_strlit("libreoffice-calc");
    reveal_strlit("libreoffice-draw");
    reveal_strlit("libreoffice-fresh");
    reveal_strlit("libreoffice-impress");
    reveal_strlit("libreoffice-writer");
    reveal_strlit("org.gnome.Builder");
    reveal_strlit("org.gnome.TextEditor");
    reveal_strlit("org.gnome.gedit");
    reveal_strlit("org.kde.kdevelop");
    reveal_strlit("org.kde.kwrite");
    reveal_strlit("org.libreoffice.LibreOffice");
    reveal_strlit("pycharm-community");
    reveal_strlit("pycharm-community-edition");
    let s = editors_spec();
    assert(s.len() == 11);
    assert(catalogue_entry_ok(Category::Editors, s[0]));
    assert(catalogue_entry_ok(Category::Editors, s[1]));
    assert(catalogue_entry_ok(Category::Editors, s[2]));
    assert(catalogue_entry_ok(Category::Editors, s[3]));
    assert(catalogue_entry_ok(Category::Editors, s[4]));
    assert(catalogue_entry_ok(Category::Editors, s[5]));
    assert(catalogue_entry_ok(Category::Editors, s[6]));
    assert(catalogue_entry_ok(Category::Editors, s[7]));
    assert(catalogue_entry_ok(Category::Editors, s[8]));
    assert(catalogue_entry_ok(Category::Editors, s[9]));
    assert(catalogue_entry_ok(Category::Editors, s[10]));
}

proof fn lemma_software_entries()
    ensures
        forall|i: int| 0 <= i < software_spec().len() ==> catalogue_entry_ok(Category::Software, #[trigger] software_spec()[i]),
{
    reveal_strlit("");
    reveal_strlit("Gnome Software");
    reveal_strlit("Plasma Discover");
    reveal_strlit("Snap Store");
    reveal_strlit("discover");
    reveal_strlit("gnome-software");
    reveal_strlit("plasma-discover");
    reveal_strlit("snap-store");
    let s = software_spec();
    assert(s.len() == 3);
    assert(catalogue_entry_ok(Category::Software, s[0]));
    assert(catalogue_entry_ok(Category::Software, s[1]));
    assert(catalogue_entry_ok(Category::Software, s[2]));
}

proof fn lemma_utilities_entries()
    ensures
        forall|i: int| 0 <= i < utilities_spec().len() ==> catalogue_entry_ok(Category::Utilities, #[trigger] utilities_spec()[i]),
{
    reveal_strlit("");
    reveal_strlit("Ark Archiving");
    reveal_strlit("Fedora Media Writer");
    reveal_strlit("FileLight Disk Usage");
    reveal_strlit("GParted");
    reveal_strlit("Gnome Disk Usage");
    reveal_strlit("Gnome Disk Utility");
    reveal_strlit("Gnome Shell Extension Manager");
    reveal_strlit("Gnome Shell Extension");
    reveal_strlit("Gnome System Monitor");
    reveal_strlit("Gnome Tweaks");
    reveal_strlit("KSysGuard");
    reveal_strlit("Plasma System Monitor");
    reveal_strlit("Simple Scan");
    reveal_strlit("Spectacle Screenshot");
    reveal_strlit("ark");
    reveal_strlit("baobab");
    reveal_strlit("ca.desrt.dconf-editor");
    reveal_strlit("dconf Editor");
    reveal_strlit("dconf-editor");
    reveal_strlit("fedora");
    reveal_strlit("filelight");
    reveal_strlit("flathub");
    reveal_strlit("gnome-disk-utility");
    reveal_strlit("gnome-extensions-app");
    reveal_strlit("gnome-shell-extension-manager");
    reveal_strlit("gnome-shell-extensions");
    reveal_strlit("gnome-system-monitor");
    reveal_strlit("gnome-tweaks");
    reveal_strlit("gparted");
    reveal_strlit("ksysguard");
    reveal_strlit("mediawriter");
    reveal_strlit("org.fedoraproject.MediaWriter");
    reveal_strlit("org.gnome.baobab");
    reveal_strlit("org.kde.ark");
    reveal_strlit("plasma-systemmonitor");
    reveal_strlit("simple-scan");
    reveal_strlit("spectacle");
    let s = utilities_spec();
    assert(s.len() == 15);
    assert(catalogue_entry_ok(Category::Utilities, s[0]));
    assert(catalogue_entry_ok(Category::Utilities, s[1]));
    assert(catalogue_entry_ok(Category::Utilities, s[2]));
    assert(catalogue_entry_ok(Category::Utilities, s[3]));
    assert(catalogue_entry_ok(Category::Utilities, s[4]));
    assert(catalogue_entry_ok(Category::Utilities, s[5]));
    assert(catalogue_entry_ok(Category::Utilities, s[6]));
    assert(catalogue_entry_ok(Category::Utilities, s[7]));
    assert(catalogue_entry_ok(Category::Utilities, s[8]));
    assert(catalogue_entry_ok(Category::Utilities, s[9]));
    assert(catalogue_entry_ok(Category::Utilities, s[10]));
    assert(catalogue_entry_ok(Category::Utilities, s[11]));
    assert(catalogue_entry_ok(Category::Utilities, s[12]));
    assert(catalogue_entry_ok(Category::Utilities, s[13]));
    assert(catalogue_entry_ok(Category::Utilities, s[14]));
}

/// Every entry of every category holds what [`catalogue_entry_ok`] says.
pub proof fn law_catalogue_entries(c: Category)
    ensures
        forall|i: int|
            0 <= i < category_packages_spec(c).len() ==> catalogue_entry_ok(c, #[trigger] category_packages_spec(c)[i]),
{
    match c {
        Category::Server => lemma_server_entries(),
        Category::Desktop => lemma_desktop_entries(),
        Category::Applications => lemma_applications_entries(),
        Category::Browsers => lemma_browsers_entries(),
        Category::Communication => lemma_communication_entries(),
        Category::Games => lemma_games_entries(),
        Category::MultiMedia => lemma_multimedia_entries(),
        Category::Editors => lemma_editors_entries(),
        Category::Software => lemma_software_entries(),
        Category::Utilities => lemma_utilities_entries(),
    }
}

/// Every package name of the catalogue, from the least to the greatest.
pub open spec fn sorted_names() -> Seq<Seq<char>> {
    seq![
        "0 A.D."@,
        "Ark Archiving"@,
        "Blender"@,
        "Cheese - Webcam"@,
        "Chromium"@,
        "Cockpit - Web Interface"@,
        "Deja Dup - Backups"@,
        "Discord"@,
        "Elisa Music Player"@,
        "Epiphany - Gnome Web"@,
        "Evince - Document Viewer"@,
        "Eye of Gnome - Image Viewer"@,
        "Fedora Media Writer"@,
        "FileLight Disk Usage"@,
        "Firefox"@,
        "Firefox ESR"@,
        "Flatpak"@,
        "Flutter"@,
        "GIMP"@,
        "GNU Cash - Accounting"@,
        "GParted"@,
        "Gnome 2048"@,
        "Gnome Boxes - VM Manager"@,
        "Gnome Builder"@,
        "Gnome Calculator"@,
        "Gnome Calendar"@,
        "Gnome Camera"@,
        "Gnome Chess"@,
        "Gnome Clocks"@,
        "Gnome Connections"@,
        "Gnome Contacts"@,
        "Gnome Disk Usage"@,
        "Gnome Disk Utility"@,
        "Gnome Image Viewer"@,
        "Gnome Maps"@,
        "Gnome Mines"@,
        "Gnome Music"@,
        "Gnome Password Safe"@,
        "Gnome Photos"@,
        "Gnome Shell Extension"@,
        "Gnome Shell Extension Manager"@,
        "Gnome Software"@,
        "Gnome Solitaire"@,
        "Gnome Sound Recorder"@,
        "Gnome Sudoku"@,
        "Gnome System Monitor"@,
        "Gnome Tetris"@,
        "Gnome Text Editor"@,
        "Gnome Tweaks"@,
        "Gnome Weather"@,
        "Go Language"@,
        "Gwenview - Image Viewer"@,
        "IceCat - GNU Browser"@,
        "Intellij"@,
        "KCalc - Calculator"@,
        "KDE Chess"@,
        "KDE Mines"@,
        "KDE Sudoku"@,
        "KDevelop"@,
        "KSysGuard"@,
        "KWrite"@,
        "Kate"@,
        "KdenLive Video Editor"@,
        "Kile - LaTex Editor"@,
        "LaTex - Compiler"@,
        "LibreOffice"@,
        "MP3 Metadata Editor"@,
        "MariaDB - Database"@,
        "Node.js - JavaScript RE"@,
        "Okular - Document Viewer"@,
        "Plasma Discover"@,
        "Plasma System Monitor"@,
        "Podman - Containers"@,
        "Pycharm"@,
        "RhythmBox"@,
        "Rust Language"@,
        "SSH - Secure Shell Protocol"@,
        "Shotwell"@,
        "Simple Scan"@,
        "Snap"@,
        "Snap Store"@,
        "Spectacle Screenshot"@,
        "Steam"@,
        "Super Tux Kart"@,
        "TOR - The Onion Router"@,
        "Thunderbird"@,
        "Totem Video Player"@,
        "Transmission (GTK) - Torrent"@,
        "Transmission (QT) - Torrent"@,
        "VLC"@,
        "VS Code"@,
        "Vietnamese Keyboard"@,
        "Virt Manager"@,
        "Xonotic"@,
        "cURL - Client URL"@,
        "cups - Printer Support"@,
        "dconf Editor"@,
        "dotnet - C# SDK 8.0 LTS"@,
        "dotnet - C# runtime 8.0 LTS"@,
        "ffmpeg - Media Codecs"@,
        "gedit"@,
        "git - Version Control"@,
        "htop - Process Viewer"@,
        "imagemagick"@,
        "nano - Text Editor"@,
        "neovim - Text Editor"@,
        "qtile - Window Manager"@,
        "rustup"@,
        "vim - Text Editor"@,
        "yt-dlp - Download YouTube"@,
    ]
}

/// The place in [`sorted_names`] of the name of each entry of a category.
pub open spec fn name_rank(c: Category) -> Seq<int> {
    match c {
        Category::Server => seq![5, 94, 98, 97, 16, 17, 101, 50, 102, 67, 105, 104, 68, 72, 75, 107, 79, 76, 108],
        Category::Desktop => seq![95, 99, 103, 64, 66, 106, 91, 109],
        Category::Applications => seq![3, 6, 10, 11, 22, 24, 25, 28, 26, 29, 30, 33, 34, 37, 49, 19, 51, 54, 69, 87, 88, 92],
        Category::Browsers => seq![4, 9, 14, 15, 52, 84],
        Category::Communication => seq![7, 85],
        Category::Games => seq![0, 21, 27, 35, 42, 44, 46, 55, 56, 57, 82, 83, 93],
        Category::MultiMedia => seq![2, 8, 18, 36, 38, 43, 62, 74, 77, 86, 89],
        Category::Editors => seq![100, 23, 47, 53, 61, 58, 63, 60, 65, 73, 90],
        Category::Software => seq![41, 70, 80],
        Category::Utilities => seq![1, 96, 12, 13, 20, 31, 32, 39, 40, 45, 48, 59, 71, 78, 81],
    }
}

/// The entry whose name stands at each place of [`sorted_names`].
pub open spec fn rank_owner() -> Seq<(Category, int)> {
    seq![
        (Category::Games, 0int),
        (Category::Utilities, 0int),
        (Category::MultiMedia, 0int),
        (Category::Applications, 0int),
        (Category::Browsers, 0int),
        (Category::Server, 0int),
        (Category::Applications, 1int),
        (Category::Communication, 0int),
        (Category::MultiMedia, 1int),
        (Category::Browsers, 1int),
        (Category::Applications, 2int),
        (Category::Applications, 3int),
        (Category::Utilities, 2int),
        (Category::Utilities, 3int),
        (Category::Browsers, 2int),
        (Category::Browsers, 3int),
        (Category::Server, 4int),
        (Category::Server, 5int),
        (Category::MultiMedia, 2int),
        (Category::Applications, 15int),
        (Category::Utilities, 4int),
        (Category::Games, 1int),
        (Category::Applications, 4int),
        (Category::Editors, 1int),
        (Category::Applications, 5int),
        (Category::Applications, 6int),
        (Category::Applications, 8int),
        (Category::Games, 2int),
        (Category::Applications, 7int),
        (Category::Applications, 9int),
        (Category::Applications, 10int),
        (Category::Utilities, 5int),
        (Category::Utilities, 6int),
        (Category::Applications, 11int),
        (Category::Applications, 12int),
        (Category::Games, 3int),
        (Category::MultiMedia, 3int),
        (Category::Applications, 13int),
        (Category::MultiMedia, 4int),
        (Category::Utilities, 7int),
        (Category::Utilities, 8int),
        (Category::Software, 0int),
        (Category::Games, 4int),
        (Category::MultiMedia, 5int),
        (Category::Games, 5int),
        (Category::Utilities, 9int),
        (Category::Games, 6int),
        (Category::Editors, 2int),
        (Category::Utilities, 10int),
        (Category::Applications, 14int),
        (Category::Server, 7int),
        (Category::Applications, 16int),
        (Category::Browsers, 4int),
        (Category::Editors, 3int),
        (Category::Applications, 17int),
        (Category::Games, 7int),
        (Category::Games, 8int),
        (Category::Games, 9int),
        (Category::Editors, 5int),
        (Category::Utilities, 11int),
        (Category::Editors, 7int),
        (Category::Editors, 4int),
        (Category::MultiMedia, 6int),
        (Category::Editors, 6int),
        (Category::Desktop, 3int),
        (Category::Editors, 8int),
        (Category::Desktop, 4int),
        (Category::Server, 9int),
        (Category::Server, 12int),
        (Category::Applications, 18int),
        (Category::Software, 1int),
        (Category::Utilities, 12int),
        (Category::Server, 13int),
        (Category::Editors, 9int),
        (Category::MultiMedia, 7int),
        (Category::Server, 14int),
        (Category::Server, 17int),
        (Category::MultiMedia, 8int),
        (Category::Utilities, 13int),
        (Category::Server, 16int),
        (Category::Software, 2int),
        (Category::Utilities, 14int),
        (Category::Games, 10int),
        (Category::Games, 11int),
        (Category::Browsers, 5int),
        (Category::Communication, 1int),
        (Category::MultiMedia, 9int),
        (Category::Applications, 19int),
        (Category::Applications, 20int),
        (Category::MultiMedia, 10int),
        (Category::Editors, 10int),
        (Category::Desktop, 6int),
        (Category::Applications, 21int),
        (Category::Games, 12int),
        (Category::Server, 1int),
        (Category::Desktop, 0int),
        (Category::Utilities, 1int),
        (Category::Server, 3int),
        (Category::Server, 2int),
        (Category::Desktop, 1int),
        (Category::Editors, 0int),
        (Category::Server, 6int),
        (Category::Server, 8int),
        (Category::Desktop, 2int),
        (Category::Server, 11int),
        (Category::Server, 10int),
        (Category::Desktop, 5int),
        (Category::Server, 15int),
        (Category::Server, 18int),
        (Category::Desktop, 7int),
    ]
}

proof fn lemma_server_ranks()
    ensures
        name_rank(Category::Server).len() == server_spec().len(),
        forall|i: int|
            0 <= i < server_spec().len() ==> 0 <= #[trigger] name_rank(Category::Server)[i] < sorted_names().len()
                && server_spec()[i].name == sorted_names()[name_rank(Category::Server)[i]]
                && rank_owner()[name_rank(Category::Server)[i]] == (Category::Server, i),
{
    let s = server_spec();
    let r = name_rank(Category::Server);
    let names = sorted_names();
    let owner = rank_owner();
    assert(s.len() == 19 && r.len() == 19 && names.len() == 110 && owner.len() == 110);
    assert(s[0].name == names[r[0]] && owner[r[0]] == (Category::Server, 0int));
    assert(s[1].name == names[r[1]] && owner[r[1]] == (Category::Server, 1int));
    assert(s[2].name == names[r[2]] && owner[r[2]] == (Category::Server, 2int));
    assert(s[3].name == names[r[3]] && owner[r[3]] == (Category::Server, 3int));
    assert(s[4].name == names[r[4]] && owner[r[4]] == (Category::Server, 4int));
    assert(s[5].name == names[r[5]] && owner[r[5]] == (Category::Server, 5int));
    assert(s[6].name == names[r[6]] && owner[r[6]] == (Category::Server, 6int));
    assert(s[7].name == names[r[7]] && owner[r[7]] == (Category::Server, 7int));
    assert(s[8].name == names[r[8]] && owner[r[8]] == (Category::Server, 8int));
    assert(s[9].name == names[r[9]] && owner[r[9]] == (Category::Server, 9int));
    assert(s[10].name == names[r[10]] && owner[r[10]] == (Category::Server, 10int));
    assert(s[11].name == names[r[11]] && owner[r[11]] == (Category::Server, 11int));
    assert(s[12].name == names[r[12]] && owner[r[12]] == (Category::Server, 12int));
    assert(s[13].name == names[r[13]] && owner[r[13]] == (Category::Server, 13int));
    assert(s[14].name == names[r[14]] && owner[r[14]] == (Category::Server, 14int));
    assert(s[15].name == names[r[15]] && owner[r[15]] == (Category::Server, 15int));
    assert(s[16].name == names[r[16]] && owner[r[16]] == (Category::Server, 16int));
    assert(s[17].name == names[r[17]] && owner[r[17]] == (Category::Server, 17int));
    assert(s[18].name == names[r[18]] && owner[r[18]] == (Category::Server, 18int));
}

proof fn lemma_desktop_ranks()
    ensures
        name_rank(Category::Desktop).len() == desktop_spec().len(),
        forall|i: int|
            0 <= i < desktop_spec().len() ==> 0 <= #[trigger] name_rank(Category::Desktop)[i] < sorted_names().len()
                && desktop_spec()[i].name == sorted_names()[name_rank(Category::Desktop)[i]]
                && rank_owner()[name_rank(Category::Desktop)[i]] == (Category::Desktop, i),
{
    let s = desktop_spec();
    let r = name_rank(Category::Desktop);
    let names = sorted_names();
    let owner = rank_owner();
    assert(s.len() == 8 && r.len() == 8 && names.len() == 110 && owner.len() == 110);
    assert(s[0].name == names[r[0]] && owner[r[0]] == (Category::Desktop, 0int));
    assert(s[1].name == names[r[1]] && owner[r[1]] == (Category::Desktop, 1int));
    assert(s[2].name == names[r[2]] && owner[r[2]] == (Category::Desktop, 2int));
    assert(s[3].name == names[r[3]] && owner[r[3]] == (Category::Desktop, 3int));
    assert(s[4].name == names[r[4]] && owner[r[4]] == (Category::Desktop, 4int));
    assert(s[5].name == names[r[5]] && owner[r[5]] == (Category::Desktop, 5int));
    assert(s[6].name == names[r[6]] && owner[r[6]] == (Category::Desktop, 6int));
    assert(s[7].name == names[r[7]] && owner[r[7]] == (Category::Desktop, 7int));
}

proof fn lemma_applications_ranks()
    ensures
        name_rank(Category::Applications).len() == applications_spec().len(),
        forall|i: int|
            0 <= i < applications_spec().len() ==> 0 <= #[trigger] name_rank(Category::Applications)[i] < sorted_names().len()
                && applications_spec()[i].name == sorted_names()[name_rank(Category::Applications)[i]]
                && rank_owner()[name_rank(Category::Applications)[i]] == (Category::Applications, i),
{
    let s = applications_spec();
    let r = name_rank(Category::Applications);
    let names = sorted_names();
    let owner = rank_owner();
    assert(s.len() == 22 && r.len() == 22 && names.len() == 110 && owner.len() == 110);
    assert(s[0].name == names[r[0]] && owner[r[0]] == (Category::Applications, 0int));
    assert(s[1].name == names[r[1]] && owner[r[1]] == (Category::Applications, 1int));
    assert(s[2].name == names[r[2]] && owner[r[2]] == (Category::Applications, 2int));
    assert(s[3].name == names[r[3]] && owner[r[3]] == (Category::Applications, 3int));
    assert(s[4].name == names[r[4]] && owner[r[4]] == (Category::Applications, 4int));
    assert(s[5].name == names[r[5]] && owner[r[5]] == (Category::Applications, 5int));
    assert(s[6].name == names[r[6]] && owner[r[6]] == (Category::Applications, 6int));
    assert(s[7].name == names[r[7]] && owner[r[7]] == (Category::Applications, 7int));
    assert(s[8].name == names[r[8]] && owner[r[8]] == (Category::Applications, 8int));
    assert(s[9].name == names[r[9]] && owner[r[9]] == (Category::Applications, 9int));
    assert(s[10].name == names[r[10]] && owner[r[10]] == (Category::Applications, 10int));
    assert(s[11].name == names[r[11]] && owner[r[11]] == (Category::Applications, 11int));
    assert(s[12].name == names[r[12]] && owner[r[12]] == (Category::Applications, 12int));
    assert(s[13].name == names[r[13]] && owner[r[13]] == (Category::Applications, 13int));
    assert(s[14].name == names[r[14]] && owner[r[14]] == (Category::Applications, 14int));
    assert(s[15].name == names[r[15]] && owner[r[15]] == (Category::Applications, 15int));
    assert(s[16].name == names[r[16]] && owner[r[16]] == (Category::Applications, 16int));
    assert(s[17].name == names[r[17]] && owner[r[17]] == (Category::Applications, 17int));
    assert(s[18].name == names[r[18]] && owner[r[18]] == (Category::Applications, 18int));
    assert(s[19].name == names[r[19]] && owner[r[19]] == (Category::Applications, 19int));
    assert(s[20].name == names[r[20]] && owner[r[20]] == (Category::Applications, 20int));
    assert(s[21].name == names[r[21]] && owner[r[21]] == (Category::Applications, 21int));
}

proof fn lemma_browsers_ranks()
    ensures
        name_rank(Category::Browsers).len() == browsers_spec().len(),
        forall|i: int|
            0 <= i < browsers_spec().len() ==> 0 <= #[trigger] name_rank(Category::Browsers)[i] < sorted_names().len()
                && browsers_spec()[i].name == sorted_names()[name_rank(Category::Browsers)[i]]
                && rank_owner()[name_rank(Category::Browsers)[i]] == (Category::Browsers, i),
{
    let s = browsers_spec();
    let r = name_rank(Category::Browsers);
    let names = sorted_names();
    let owner = rank_owner();
    assert(s.len() == 6 && r.len() == 6 && names.len() == 110 && owner.len() == 110);
    assert(s[0].name == names[r[0]] && owner[r[0]] == (Category::Browsers, 0int));
    assert(s[1].name == names[r[1]] && owner[r[1]] == (Category::Browsers, 1int));
    assert(s[2].name == names[r[2]] && owner[r[2]] == (Category::Browsers, 2int));
    assert(s[3].name == names[r[3]] && owner[r[3]] == (Category::Browsers, 3int));
    assert(s[4].name == names[r[4]] && owner[r[4]] == (Category::Browsers, 4int));
    assert(s[5].name == names[r[5]] && owner[r[5]] == (Category::Browsers, 5int));
}

proof fn lemma_communication_ranks()
    ensures
        name_rank(Category::Communication).len() == communication_spec().len(),
        forall|i: int|
            0 <= i < communication_spec().len() ==> 0 <= #[trigger] name_rank(Category::Communication)[i] < sorted_names().len()
                && communication_spec()[i].name == sorted_names()[name_rank(Category::Communication)[i]]
                && rank_owner()[name_rank(Category::Communication)[i]] == (Category::Communication, i),
{
    let s = communication_spec();
    let r = name_rank(Category::Communication);
    let names = sorted_names();
    let owner = rank_owner();
    assert(s.len() == 2 && r.len() == 2 && names.len() == 110 && owner.len() == 110);
    assert(s[0].name == names[r[0]] && owner[r[0]] == (Category::Communication, 0int));
    assert(s[1].name == names[r[1]] && owner[r[1]] == (Category::Communication, 1int));
}

proof fn lemma_games_ranks()
    ensures
        name_rank(Category::Games).len() == games_spec().len(),
        forall|i: int|
            0 <= i < games_spec().len() ==> 0 <= #[trigger] name_rank(Category::Games)[i] < sorted_names().len()
                && games_spec()[i].name == sorted_names()[name_rank(Category::Games)[i]]
                && rank_owner()[name_rank(Category::Games)[i]] == (Category::Games, i),
{
    let s = games_spec();
    let r = name_rank(Category::Games);
    let names = sorted_names();
    let owner = rank_owner();
    assert(s.len() == 13 && r.len() == 13 && names.len() == 110 && owner.len() == 110);
    assert(s[0].name == names[r[0]] && owner[r[0]] == (Category::Games, 0int));
    assert(s[1].name == names[r[1]] && owner[r[1]] == (Category::Games, 1int));
    assert(s[2].name == names[r[2]] && owner[r[2]] == (Category::Games, 2int));
    assert(s[3].name == names[r[3]] && owner[r[3]] == (Category::Games, 3int));
    assert(s[4].name == names[r[4]] && owner[r[4]] == (Category::Games, 4int));
    assert(s[5].name == names[r[5]] && owner[r[5]] == (Category::Games, 5int));
    assert(s[6].name == names[r[6]] && owner[r[6]] == (Category::Games, 6int));
    assert(s[7].name == names[r[7]] && owner[r[7]] == (Category::Games, 7int));
    assert(s[8].name == names[r[8]] && owner[r[8]] == (Category::Games, 8int));
    assert(s[9].name == names[r[9]] && owner[r[9]] == (Category::Games, 9int));
    assert(s[10].name == names[r[10]] && owner[r[10]] == (Category::Games, 10int));
    assert(s[11].name == names[r[11]] && owner[r[11]] == (Category::Games, 11int));
    assert(s[12].name == names[r[12]] && owner[r[12]] == (Category::Games, 12int));
}

proof fn lemma_multimedia_ranks()
    ensures
        name_rank(Category::MultiMedia).len() == multimedia_spec().len(),
        forall|i: int|
            0 <= i < multimedia_spec().len() ==> 0 <= #[trigger] name_rank(Category::MultiMedia)[i] < sorted_names().len()
                && multimedia_spec()[i].name == sorted_names()[name_rank(Category::MultiMedia)[i]]
                && rank_owner()[name_rank(Category::MultiMedia)[i]] == (Category::MultiMedia, i),
{
    let s = multimedia_spec();
    let r = name_rank(Category::MultiMedia);
    let names = sorted_names();
    let owner = rank_owner();
    assert(s.len() == 11 && r.len() == 11 && names.len() == 110 && owner.len() == 110);
    assert(s[0].name == names[r[0]] && owner[r[0]] == (Category::MultiMedia, 0int));
    assert(s[1].name == names[r[1]] && owner[r[1]] == (Category::MultiMedia, 1int));
    assert(s[2].name == names[r[2]] && owner[r[2]] == (Category::MultiMedia, 2int));
    assert(s[3].name == names[r[3]] && owner[r[3]] == (Category::MultiMedia, 3int));
    assert(s[4].name == names[r[4]] && owner[r[4]] == (Category::MultiMedia, 4int));
    assert(s[5].name == names[r[5]] && owner[r[5]] == (Category::MultiMedia, 5int));
    assert(s[6].name == names[r[6]] && owner[r[6]] == (Category::MultiMedia, 6int));
    assert(s[7].name == names[r[7]] && owner[r[7]] == (Category::MultiMedia, 7int));
    assert(s[8].name == names[r[8]] && owner[r[8]] == (Category::MultiMedia, 8int));
    assert(s[9].name == names[r[9]] && owner[r[9]] == (Category::MultiMedia, 9int));
    assert(s[10].name == names[r[10]] && owner[r[10]] == (Category::MultiMedia, 10int));
}

proof fn lemma_editors_ranks()
    ensures
        name_rank(Category::Editors).len() == editors_spec().len(),
        forall|i: int|
            0 <= i < editors_spec().len() ==> 0 <= #[trigger] name_rank(Category::Editors)[i] < sorted_names().len()
                && editors_spec()[i].name == sorted_names()[name_rank(Category::Editors)[i]]
                && rank_owner()[name_rank(Category::Editors)[i]] == (Category::Editors, i),
{
    let s = editors_spec();
    let r = name_rank(Category::Editors);
    let names = sorted_names();
    let owner = rank_owner();
    assert(s.len() == 11 && r.len() == 11 && names.len() == 110 && owner.len() == 110);
    assert(s[0].name == names[r[0]] && owner[r[0]] == (Category::Editors, 0int));
    assert(s[1].name == names[r[1]] && owner[r[1]] == (Category::Editors, 1int));
    assert(s[2].name == names[r[2]] && owner[r[2]] == (Category::Editors, 2int));
    assert(s[3].name == names[r[3]] && owner[r[3]] == (Category::Editors, 3int));
    assert(s[4].name == names[r[4]] && owner[r[4]] == (Category::Editors, 4int));
    assert(s[5].name == names[r[5]] && owner[r[5]] == (Category::Editors, 5int));
    assert(s[6].name == names[r[6]] && owner[r[6]] == (Category::Editors, 6int));
    assert(s[7].name == names[r[7]] && owner[r[7]] == (Category::Editors, 7int));
    assert(s[8].name == names[r[8]] && owner[r[8]] == (Category::Editors, 8int));
    assert(s[9].name == names[r[9]] && owner[r[9]] == (Category::Editors, 9int));
    assert(s[10].name == names[r[10]] && owner[r[10]] == (Category::Editors, 10int));
}

proof fn lemma_software_ranks()
    ensures
        name_rank(Category::Software).len() == software_spec().len(),
        forall|i: int|
            0 <= i < software_spec().len() ==> 0 <= #[trigger] name_rank(Category::Software)[i] < sorted_names().len()
                && software_spec()[i].name == sorted_names()[name_rank(Category::Software)[i]]
                && rank_owner()[name_rank(Category::Software)[i]] == (Category::Software, i),
{
    let s = software_spec();
    let r = name_rank(Category::Software);
    let names = sorted_names();
    let owner = rank_owner();
    assert(s.len() == 3 && r.len() == 3 && names.len() == 110 && owner.len() == 110);
    assert(s[0].name == names[r[0]] && owner[r[0]] == (Category::Software, 0int));
    assert(s[1].name == names[r[1]] && owner[r[1]] == (Category::Software, 1int));
    assert(s[2].name == names[r[2]] && owner[r[2]] == (Category::Software, 2int));
}

proof fn lemma_utilities_ranks()
    ensures
        name_rank(Category::Utilities).len() == utilities_spec().len(),
        forall|i: int|
            0 <= i < utilities_spec().len() ==> 0 <= #[trigger] name_rank(Category::Utilities)[i] < sorted_names().len()
                && utilities_spec()[i].name == sorted_names()[name_rank(Category::Utilities)[i]]
                && rank_owner()[name_rank(Category::Utilities)[i]] == (Category::Utilities, i),
{
    let s = utilities_spec();
    let r = name_rank(Category::Utilities);
    let names = sorted_names();
    let owner = rank_owner();
    assert(s.len() == 15 && r.len() == 15 && names.len() == 110 && owner.len() == 110);
    assert(s[0].name == names[r[0]] && owner[r[0]] == (Category::Utilities, 0int));
    assert(s[1].name == names[r[1]] && owner[r[1]] == (Category::Utilities, 1int));
    assert(s[2].name == names[r[2]] && owner[r[2]] == (Category::Utilities, 2int));
    assert(s[3].name == names[r[3]] && owner[r[3]] == (Category::Utilities, 3int));
    assert(s[4].name == names[r[4]] && owner[r[4]] == (Category::Utilities, 4int));
    assert(s[5].name == names[r[5]] && owner[r[5]] == (Category::Utilities, 5int));
    assert(s[6].name == names[r[6]] && owner[r[6]] == (Category::Utilities, 6int));
    assert(s[7].name == names[r[7]] && owner[r[7]] == (Category::Utilities, 7int));
    assert(s[8].name == names[r[8]] && owner[r[8]] == (Category::Utilities, 8int));
    assert(s[9].name == names[r[9]] && owner[r[9]] == (Category::Utilities, 9int));
    assert(s[10].name == names[r[10]] && owner[r[10]] == (Category::Utilities, 10int));
    assert(s[11].name == names[r[11]] && owner[r[11]] == (Category::Utilities, 11int));
    assert(s[12].name == names[r[12]] && owner[r[12]] == (Category::Utilities, 12int));
    assert(s[13].name == names[r[13]] && owner[r[13]] == (Category::Utilities, 13int));
    assert(s[14].name == names[r[14]] && owner[r[14]] == (Category::Utilities, 14int));
}

proof fn lemma_sorted_names_increase()
    ensures
        forall|k: int| 0 <= k < sorted_names().len() - 1 ==> str_less(#[trigger] sorted_names()[k], sorted_names()[k + 1]),
{
    reveal_strlit("0 A.D.");
    reveal_strlit("Ark Archiving");
    reveal_strlit("Blender");
    reveal_strlit("Cheese - Webcam");
    reveal_strlit("Chromium");
    reveal_strlit("Cockpit - Web Interface");
    reveal_strlit("Deja Dup - Backups");
    reveal_strlit("Discord");
    reveal_strlit("Elisa Music Player");
    reveal_strlit("Epiphany - Gnome Web");
    reveal_strlit("Evince - Document Viewer");
    reveal_strlit("Eye of Gnome - Image Viewer");
    reveal_strlit("Fedora Media Writer");
    reveal_strlit("FileLight Disk Usage");
    reveal_strlit("Firefox");
    reveal_strlit("Firefox ESR");
    reveal_strlit("Flatpak");
    reveal_strlit("Flutter");
    reveal_strlit("GIMP");
    reveal_strlit("GNU Cash - Accounting");
    reveal_strlit("GParted");
    reveal_strlit("Gnome 2048");
    reveal_strlit("Gnome Boxes - VM Manager");
    reveal_strlit("Gnome Builder");
    reveal_strlit("Gnome Calculator");
    reveal_strlit("Gnome Calendar");
    reveal_strlit("Gnome Camera");
    reveal_strlit("Gnome Chess");
    reveal_strlit("Gnome Clocks");
    reveal_strlit("Gnome Connections");
    reveal_strlit("Gnome Contacts");
    reveal_strlit("Gnome Disk Usage");
    reveal_strlit("Gnome Disk Utility");
    reveal_strlit("Gnome Image Viewer");
    reveal_strlit("Gnome Maps");
    reveal_strlit("Gnome Mines");
    reveal_strlit("Gnome Music");
    reveal_strlit("Gnome Password Safe");
    reveal_strlit("Gnome Photos");
    reveal_strlit("Gnome Shell Extension");
    reveal_strlit("Gnome Shell Extension Manager");
    reveal_strlit("Gnome Software");
    reveal_strlit("Gnome Solitaire");
    reveal_strlit("Gnome Sound Recorder");
    reveal_strlit("Gnome Sudoku");
    reveal_strlit("Gnome System Monitor");
    reveal_strlit("Gnome Tetris");
    reveal_strlit("Gnome Text Editor");
    reveal_strlit("Gnome Tweaks");
    reveal_strlit("Gnome Weather");
    reveal_strlit("Go Language");
    reveal_strlit("Gwenview - Image Viewer");
    reveal_strlit("IceCat - GNU Browser");
    reveal_strlit("Intellij");
    reveal_strlit("KCalc - Calculator");
    reveal_strlit("KDE Chess");
    reveal_strlit("KDE Mines");
    reveal_strlit("KDE Sudoku");
    reveal_strlit("KDevelop");
    reveal_strlit("KSysGuard");
    reveal_strlit("KWrite");
    reveal_strlit("Kate");
    reveal_strlit("KdenLive Video Editor");
    reveal_strlit("Kile - LaTex Editor");
    reveal_strlit("LaTex - Compiler");
    reveal_strlit("LibreOffice");
    reveal_strlit("MP3 Metadata Editor");
    reveal_strlit("MariaDB - Database");
    reveal_strlit("Node.js - JavaScript RE");
    reveal_strlit("Okular - Document Viewer");
    reveal_strlit("Plasma Discover");
    reveal_strlit("Plasma System Monitor");
    reveal_strlit("Podman - Containers");
    reveal_strlit("Pycharm");
    reveal_strlit("RhythmBox");
    reveal_strlit("Rust Language");
    reveal_strlit("SSH - Secure Shell Protocol");
    reveal_strlit("Shotwell");
    reveal_strlit("Simple Scan");
    reveal_strlit("Snap");
    reveal_strlit("Snap Store");
    reveal_strlit("Spectacle Screenshot");
    reveal_strlit("Steam");
    reveal_strlit("Super Tux Kart");
    reveal_strlit("TOR - The Onion Router");
    reveal_strlit("Thunderbird");
    reveal_strlit("Totem Video Player");
    reveal_strlit("Transmission (GTK) - Torrent");
    reveal_strlit("Transmission (QT) - Torrent");
    reveal_strlit("VLC");
    reveal_strlit("VS Code");
    reveal_strlit("Vietnamese Keyboard");
    reveal_strlit("Virt Manager");
    reveal_strlit("Xonotic");
    reveal_strlit("cURL - Client URL");
    reveal_strlit("cups - Printer Support");
    reveal_strlit("dconf Editor");
    reveal_strlit("dotnet - C# SDK 8.0 LTS");
    reveal_strlit("dotnet - C# runtime 8.0 LTS");
    reveal_strlit("ffmpeg - Media Codecs");
    reveal_strlit("gedit");
    reveal_strlit("git - Version Control");
    reveal_strlit("htop - Process Viewer");
    reveal_strlit("imagemagick");
    reveal_strlit("nano - Text Editor");
    reveal_strlit("neovim - Text Editor");
    reveal_strlit("qtile - Window Manager");
    reveal_strlit("rustup");
    reveal_strlit("vim - Text Editor");
    reveal_strlit("yt-dlp - Download YouTube");
    let names = sorted_names();
    assert(names.len() == 110);
    lemma_str_less_at(names[0], names[1], 0);
    lemma_str_less_at(names[1], names[2], 0);
    lemma_str_less_at(names[2], names[3], 0);
    lemma_str_less_at(names[3], names[4], 2);
    lemma_str_less_at(names[4], names[5], 1);
    lemma_str_less_at(names[5], names[6], 0);
    lemma_str_less_at(names[6], names[7], 1);
    lemma_str_less_at(names[7], names[8], 0);
    lemma_str_less_at(names[8], names[9], 1);
    lemma_str_less_at(names[9], names[10], 1);
    lemma_str_less_at(names[10], names[11], 1);
    lemma_str_less_at(names[11], names[12], 0);
    lemma_str_less_at(names[12], names[13], 1);
    lemma_str_less_at(names[13], names[14], 2);
    lemma_str_less_at(names[14], names[15], 7);
    lemma_str_less_at(names[15], names[16], 1);
    lemma_str_less_at(names[16], names[17], 2);
    lemma_str_less_at(names[17], names[18], 0);
    lemma_str_less_at(names[18], names[19], 1);
    lemma_str_less_at(names[19], names[20], 1);
    lemma_str_less_at(names[20], names[21], 1);
    lemma_str_less_at(names[21], names[22], 6);
    lemma_str_less_at(names[22], names[23], 7);
    lemma_str_less_at(names[23], names[24], 6);
    lemma_str_less_at(names[24], names[25], 9);
    lemma_str_less_at(names[25], names[26], 8);
    lemma_str_less_at(names[26], names[27], 7);
    lemma_str_less_at(names[27], names[28], 7);
    lemma_str_less_at(names[28], names[29], 7);
    lemma_str_less_at(names[29], names[30], 9);
    lemma_str_less_at(names[30], names[31], 6);
    lemma_str_less_at(names[31], names[32], 12);
    lemma_str_less_at(names[32], names[33], 6);
    lemma_str_less_at(names[33], names[34], 6);
    lemma_str_less_at(names[34], names[35], 7);
    lemma_str_less_at(names[35], names[36], 7);
    lemma_str_less_at(names[36], names[37], 6);
    lemma_str_less_at(names[37], names[38], 7);
    lemma_str_less_at(names[38], names[39], 6);
    lemma_str_less_at(names[39], names[40], 21);
    lemma_str_less_at(names[40], names[41], 7);
    lemma_str_less_at(names[41], names[42], 8);
    lemma_str_less_at(names[42], names[43], 8);
    lemma_str_less_at(names[43], names[44], 7);
    lemma_str_less_at(names[44], names[45], 7);
    lemma_str_less_at(names[45], names[46], 6);
    lemma_str_less_at(names[46], names[47], 8);
    lemma_str_less_at(names[47], names[48], 7);
    lemma_str_less_at(names[48], names[49], 6);
    lemma_str_less_at(names[49], names[50], 1);
    lemma_str_less_at(names[50], names[51], 1);
    lemma_str_less_at(names[51], names[52], 0);
    lemma_str_less_at(names[52], names[53], 1);
    lemma_str_less_at(names[53], names[54], 0);
    lemma_str_less_at(names[54], names[55], 1);
    lemma_str_less_at(names[55], names[56], 4);
    lemma_str_less_at(names[56], names[57], 4);
    lemma_str_less_at(names[57], names[58], 2);
    lemma_str_less_at(names[58], names[59], 1);
    lemma_str_less_at(names[59], names[60], 1);
    lemma_str_less_at(names[60], names[61], 1);
    lemma_str_less_at(names[61], names[62], 1);
    lemma_str_less_at(names[62], names[63], 1);
    lemma_str_less_at(names[63], names[64], 0);
    lemma_str_less_at(names[64], names[65], 1);
    lemma_str_less_at(names[65], names[66], 0);
    lemma_str_less_at(names[66], names[67], 1);
    lemma_str_less_at(names[67], names[68], 0);
    lemma_str_less_at(names[68], names[69], 0);
    lemma_str_less_at(names[69], names[70], 0);
    lemma_str_less_at(names[70], names[71], 7);
    lemma_str_less_at(names[71], names[72], 1);
    lemma_str_less_at(names[72], names[73], 1);
    lemma_str_less_at(names[73], names[74], 0);
    lemma_str_less_at(names[74], names[75], 1);
    lemma_str_less_at(names[75], names[76], 0);
    lemma_str_less_at(names[76], names[77], 1);
    lemma_str_less_at(names[77], names[78], 1);
    lemma_str_less_at(names[78], names[79], 1);
    lemma_str_less_at(names[79], names[80], 4);
    lemma_str_less_at(names[80], names[81], 1);
    lemma_str_less_at(names[81], names[82], 1);
    lemma_str_less_at(names[82], names[83], 1);
    lemma_str_less_at(names[83], names[84], 0);
    lemma_str_less_at(names[84], names[85], 1);
    lemma_str_less_at(names[85], names[86], 1);
    lemma_str_less_at(names[86], names[87], 1);
    lemma_str_less_at(names[87], names[88], 14);
    lemma_str_less_at(names[88], names[89], 0);
    lemma_str_less_at(names[89], names[90], 1);
    lemma_str_less_at(names[90], names[91], 1);
    lemma_str_less_at(names[91], names[92], 2);
    lemma_str_less_at(names[92], names[93], 0);
    lemma_str_less_at(names[93], names[94], 0);
    lemma_str_less_at(names[94], names[95], 1);
    lemma_str_less_at(names[95], names[96], 0);
    lemma_str_less_at(names[96], names[97], 1);
    lemma_str_less_at(names[97], names[98], 12);
    lemma_str_less_at(names[98], names[99], 0);
    lemma_str_less_at(names[99], names[100], 0);
    lemma_str_less_at(names[100], names[101], 1);
    lemma_str_less_at(names[101], names[102], 0);
    lemma_str_less_at(names[102], names[103], 0);
    lemma_str_less_at(names[103], names[104], 0);
    lemma_str_less_at(names[104], names[105], 1);
    lemma_str_less_at(names[105], names[106], 0);
    lemma_str_less_at(names[106], names[107], 0);
    lemma_str_less_at(names[107], names[108], 0);
    lemma_str_less_at(names[108], names[109], 0);
}

proof fn lemma_ranks(c: Category)
    ensures
        name_rank(c).len() == category_packages_spec(c).len(),
        forall|i: int|
            0 <= i < category_packages_spec(c).len() ==> 0 <= #[trigger] name_rank(c)[i] < sorted_names().len()
                && category_packages_spec(c)[i].name == sorted_names()[name_rank(c)[i]]
                && rank_owner()[name_rank(c)[i]] == (c, i),
{
    match c {
        Category::Server => lemma_server_ranks(),
        Category::Desktop => lemma_desktop_ranks(),
        Category::Applications => lemma_applications_ranks(),
        Category::Browsers => lemma_browsers_ranks(),
        Category::Communication => lemma_communication_ranks(),
        Category::Games => lemma_games_ranks(),
        Category::MultiMedia => lemma_multimedia_ranks(),
        Category::Editors => lemma_editors_ranks(),
        Category::Software => lemma_software_ranks(),
        Category::Utilities => lemma_utilities_ranks(),
    }
}

/// No two entries of the catalogue, in one category or in two, share a name.
pub proof fn law_catalogue_names_distinct(c1: Category, i: int, c2: Category, j: int)
    requires
        0 <= i < category_packages_spec(c1).len(),
        0 <= j < category_packages_spec(c2).len(),
        c1 != c2 || i != j,
    ensures
        category_packages_spec(c1)[i].name != category_packages_spec(c2)[j].name,
{
    lemma_ranks(c1);
    lemma_ranks(c2);
    let r1 = name_rank(c1)[i];
    let r2 = name_rank(c2)[j];
    assert(rank_owner()[r1] == (c1, i));
    assert(rank_owner()[r2] == (c2, j));
    assert(r1 != r2);
    lemma_sorted_names_increase();
    let names = sorted_names();
    if r1 < r2 {
        lemma_increasing(names, r1, r2);
        lemma_str_less_asym(names[r1], names[r2]);
        lemma_str_less_asym(names[r1], names[r1]);
    } else {
        lemma_increasing(names, r2, r1);
        lemma_str_less_asym(names[r2], names[r2]);
    }
}

/// Exactly the `rustup` package of the Server category is installed with its
/// own installer, and it is installed under the name `rustup`.
pub proof fn law_only_rustup_installs_itself(c: Category, i: int)
    requires
        0 <= i < category_packages_spec(c).len(),
    ensures
        category_packages_spec(c)[i].other is Some <==> (c == Category::Server
            && category_packages_spec(c)[i].name == "rustup"@),
        category_packages_spec(c)[i].other is Some ==> category_packages_spec(c)[i].other == Some("rustup"@),
{
    law_catalogue_entries(c);
    assert(catalogue_entry_ok(c, category_packages_spec(c)[i]));
    let r = server_spec()[15];
    assert(r.name == "rustup"@ && r.other == Some("rustup"@));
    if c == Category::Server && category_packages_spec(c)[i].name == "rustup"@ && i != 15 {
        law_catalogue_names_distinct(c, i, Category::Server, 15);
    }
}

} // verus!
