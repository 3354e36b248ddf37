//! GNOME settings.
use vstd::prelude::*;
use crate::action::{action_views, Action, ActionView, Command, CommandView};
use crate::linux_setup::distribution::{Distribution, Repository};
use crate::text::views;

verus! {

/// `gsettings set path key value`.
pub open spec fn set_spec(path: Seq<char>, key: Seq<char>, value: Seq<char>) -> ActionView {
    ActionView::Exec(CommandView { program: "gsettings"@, args: seq!["set"@, path, key, value] })
}

/// `gsettings reset-recursively path`.
pub open spec fn reset_spec(path: Seq<char>) -> ActionView {
    ActionView::Exec(CommandView { program: "gsettings"@, args: seq!["reset-recursively"@, path] })
}

/// Sets `key` of the schema `path` to `value`.
pub fn settings_set(path: &str, key: &str, value: &str) -> (a: Action)
    ensures
        a@ == set_spec(path@, key@, value@),
{
    let args = vec!["set".to_owned(), path.to_owned(), key.to_owned(), value.to_owned()];
    assert(views(args@) =~= seq!["set"@, path@, key@, value@]);
    Action::Exec(Command { program: "gsettings".to_owned(), args })
}

/// Resets every key of the schema `path`.
pub fn settings_reset(path: &str) -> (a: Action)
    ensures
        a@ == reset_spec(path@),
{
    let args = vec!["reset-recursively".to_owned(), path.to_owned()];
    assert(views(args@) =~= seq!["reset-recursively"@, path@]);
    Action::Exec(Command { program: "gsettings".to_owned(), args })
}

/// Clock, battery, hot corner, idle delay, keyboard and pointer settings.
pub open spec fn desktop_settings_spec() -> Seq<ActionView> {
    seq![
        set_spec("org.gnome.desktop.interface"@, "clock-format"@, "\"12h\""@),
        set_spec("org.gnome.desktop.interface"@, "clock-show-date"@, "true"@),
        set_spec("org.gnome.desktop.interface"@, "clock-show-seconds"@, "true"@),
        set_spec("org.gnome.desktop.interface"@, "clock-show-weekday"@, "true"@),
        set_spec("org.gnome.desktop.interface"@, "show-battery-percentage"@, "true"@),
        set_spec("org.gnome.desktop.interface"@, "enable-hot-corners"@, "true"@),
        set_spec("org.gnome.desktop.session"@, "idle-delay"@, "900"@),
        set_spec("org.gnome.desktop.peripherals.keyboard"@, "numlock-state"@, "true"@),
        set_spec("org.gnome.desktop.peripherals.touchpad"@, "tap-to-click"@, "true"@),
        set_spec("org.gnome.desktop.peripherals.touchpad"@, "natural-scroll"@, "false"@),
        set_spec("org.gnome.desktop.peripherals.mouse"@, "natural-scroll"@, "false"@),
    ]
}

/// The desktop-icon and dock settings made on Ubuntu.
pub open spec fn ubuntu_settings_spec() -> Seq<ActionView> {
    seq![
        set_spec("org.gnome.shell.extensions.ding"@, "show-home"@, "false"@),
        set_spec("org.gnome.shell.extensions.dash-to-dock"@, "dash-max-icon-size"@, "28"@),
        set_spec("org.gnome.shell.extensions.dash-to-dock"@, "show-favorites"@, "true"@),
        set_spec("org.gnome.shell.extensions.dash-to-dock"@, "show-mounts"@, "true"@),
        set_spec("org.gnome.shell.extensions.dash-to-dock"@, "show-trash"@, "false"@),
    ]
}

/// The app folders, their layout and the favourites.
pub open spec fn app_folder_settings_spec() -> Seq<ActionView> {
    seq![
        reset_spec("org.gnome.desktop.app-folders"@),
        reset_spec("org.gnome.desktop.app-folders.folder:/org/gnome/desktop/app-folders/folders/"@),
        set_spec("org.gnome.desktop.app-folders"@, "folder-children"@, "[\n            'Apps',\n            'Internet',\n            'Editors',\n            'Office',\n            'MultiMedia',\n            'Games',\n            'System',\n            'Settings',\n            'Utilities'\n        ]"@),
        set_spec("org.gnome.desktop.app-folders.folder:/org/gnome/desktop/app-folders/folders/Apps/"@, "name"@, "Apps"@),
        set_spec("org.gnome.desktop.app-folders.folder:/org/gnome/desktop/app-folders/folders/Apps/"@, "apps"@, "[\n            'bitwarden.desktop',\n            'bitwarden_bitwarden.desktop',\n            'gnucash.desktop',\n            'org.gnucash.GnuCash.desktop',\n            'org.gnome.PasswordSafe.desktop',\n            'org.gnome.World.Secrets.desktop',\n            'org.gnome.Calendar.desktop',\n            'org.gnome.Contacts.desktop',\n            'org.gnome.clocks.desktop',\n            'org.gnome.Weather.desktop',\n            'org.gnome.Maps.desktop',\n            'org.remmina.Remmina.desktop',\n            'org.gnome.Connections.desktop',\n            'org.gnome.Boxes.desktop',\n            'virt-manager.desktop',\n            'org.gnome.Cheese.desktop',\n            'org.gnome.Snapshot.desktop',\n            'org.gnome.Todo.desktop',\n            'usb-creator-gtk.desktop',\n            'org.fedoraproject.MediaWriter.desktop'\n        ]"@),
        set_spec("org.gnome.desktop.app-folders.folder:/org/gnome/desktop/app-folders/folders/Internet/"@, "name"@, "Internet"@),
        set_spec("org.gnome.desktop.app-folders.folder:/org/gnome/desktop/app-folders/folders/Internet/"@, "apps"@, "[\n            'chromium_chromium.desktop',\n            'chromium-browser.desktop',\n            'chromium.desktop',\n            'org.chromium.Chromium.desktop',\n            'icecat.desktop',\n            'firefox.desktop',\n            'firefox_firefox.desktop',\n            'firefox-esr.desktop',\n            'org.mozilla.firefox.desktop',\n            'brave_brave.desktop',\n            'torbrowser.desktop',\n            'com.github.micahflee.torbrowser-launcher.desktop',\n            'org.gnome.Epiphany.desktop',\n            'thunderbird.desktop',\n            'thunderbird_thunderbird.desktop',\n            'org.mozilla.thunderbird.desktop',\n            'mozilla-thunderbird.desktop',\n            'org.mozilla.Thunderbird.desktop',\n            'discord.desktop',\n            'discord_discord.desktop',\n            'com.discordapp.Discord.desktop',\n            'com.transmissionbt.Transmission.desktop',\n            'transmission-gtk.desktop',\n            'transmission-qt.desktop'\n        ]"@),
        set_spec("org.gnome.desktop.app-folders.folder:/org/gnome/desktop/app-folders/folders/Editors/"@, "name"@, "Editors"@),
        set_spec("org.gnome.desktop.app-folders.folder:/org/gnome/desktop/app-folders/folders/Editors/"@, "apps"@, "[\n            'org.gnome.gedit.desktop',\n            'org.gnome.TextEditor.desktop',\n            'code.desktop',\n            'code_code.desktop',\n            'com.visualstudio.code.desktop',\n            'org.kde.kwrite.desktop',\n            'org.kde.kate.desktop',\n            'org.gnome.Builder.desktop',\n            'jetbrains-fleet.desktop',\n            'jetbrains-idea-ce.desktop',\n            'idea.desktop',\n            'intellij-idea-community_intellij-idea-community.desktop',\n            'com.jetbrains.IntelliJ-IDEA-Community.desktop',\n            'rider_rider.desktop',\n            'jetbrains-pycharm-ce.desktop',\n            'pycharm.desktop',\n            'pycharm-community.desktop',\n            'pycharm-community_pycharm-community.desktop',\n            'com.jetbrains.PyCharm-Community.desktop',\n            'jetbrains-toolbox.desktop',\n            'org.kde.kile.desktop',\n            'texstudio.desktop',\n            'org.texstudio.TeXstudio.desktop',\n            'org.gnome.gitg.desktop',\n            'nvim.desktop',\n            'vim.desktop'\n        ]"@),
        set_spec("org.gnome.desktop.app-folders.folder:/org/gnome/desktop/app-folders/folders/Office/"@, "name"@, "Office"@),
        set_spec("org.gnome.desktop.app-folders.folder:/org/gnome/desktop/app-folders/folders/Office/"@, "apps"@, "[\n            'libreoffice-writer.desktop',\n            'libreoffice_writer.desktop',\n            'org.libreoffice.LibreOffice.writer.desktop',\n            'libreoffice-calc.desktop',\n            'libreoffice_calc.desktop',\n            'org.libreoffice.LibreOffice.calc.desktop',\n            'libreoffice-impress.desktop',\n            'libreoffice_impress.desktop',\n            'org.libreoffice.LibreOffice.impress.desktop',\n            'libreoffice-draw.desktop',\n            'libreoffice_draw.desktop',\n            'org.libreoffice.LibreOffice.draw.desktop',\n            'libreoffice-math.desktop',\n            'libreoffice_math.desktop',\n            'org.libreoffice.LibreOffice.math.desktop',\n            'libreoffice-base.desktop',\n            'libreoffice_base.desktop',\n            'org.libreoffice.LibreOffice.base.desktop',\n            'libreoffice_libreoffice.desktop',\n            'org.libreoffice.LibreOffice.desktop',\n            'libreoffice-startcenter.desktop'\n        ]"@),
        set_spec("org.gnome.desktop.app-folders.folder:/org/gnome/desktop/app-folders/folders/MultiMedia/"@, "name"@, "Multi Media"@),
        set_spec("org.gnome.desktop.app-folders.folder:/org/gnome/desktop/app-folders/folders/MultiMedia/"@, "apps"@, "[\n            'blender.desktop',\n            'blender_blender.desktop',\n            'org.blender.Blender.desktop',\n            'gimp.desktop',\n            'org.gimp.GIMP.desktop',\n            'org.kde.kdenlive.desktop',\n            'rhythmbox.desktop',\n            'org.gnome.Rhythmbox3.desktop',\n            'org.gnome.Music.desktop',\n            'org.kde.elisa.desktop',\n            'org.gnome.Photos.desktop',\n            'shotwell.desktop',\n            'org.gnome.Shotwell.desktop',\n            'org.gnome.Totem.desktop',\n            'vlc.desktop',\n            'vlc_vlc.desktop',\n            'org.videolan.VLC.desktop',\n            'org.gnome.SoundRecorder.desktop',\n            'org.gnome.Loupe.desktop',\n            'eog.desktop',\n            'org.gnome.eog.desktop',\n            'org.kde.gwenview.desktop'\n        ]"@),
        set_spec("org.gnome.desktop.app-folders.folder:/org/gnome/desktop/app-folders/folders/Games/"@, "name"@, "Games"@),
        set_spec("org.gnome.desktop.app-folders.folder:/org/gnome/desktop/app-folders/folders/Games/"@, "apps"@, "[\n            'com.valvesoftware.Steam.desktop',\n            'steam_steam.desktop',\n            'sol.desktop',\n            'org.gnome.Aisleriot.desktop',\n            'org.gnome.Chess.desktop',\n            'org.gnome.TwentyFortyEight.desktop',\n            'org.gnome.Sudoku.desktop',\n            'org.gnome.Mines.desktop',\n            'org.gnome.Quadrapassel.desktop',\n            'org.gnome.Mahjongg.desktop',\n            'org.kde.kmines.desktop',\n            'org.kde.knights.desktop',\n            'org.kde.ksudoku.desktop',\n            '0ad.desktop',\n            'supertuxkart.desktop',\n            'xonotic.desktop',\n            'xonotic-glx.desktop',\n            'xonotic-sdl.desktop'\n        ]"@),
        set_spec("org.gnome.desktop.app-folders.folder:/org/gnome/desktop/app-folders/folders/System/"@, "name"@, "System"@),
        set_spec("org.gnome.desktop.app-folders.folder:/org/gnome/desktop/app-folders/folders/System/"@, "apps"@, "[\n            'org.gnome.Nautilus.desktop',\n            'org.kde.dolphin.desktop',\n            'org.gnome.Terminal.desktop',\n            'org.gnome.Console.desktop',\n            'org.kde.konsole.desktop',\n            'org.gnome.SystemMonitor.desktop',\n            'gnome-system-monitor.desktop',\n            'org.gnome.baobab.desktop',\n            'org.gnome.DiskUtility.desktop',\n            'gparted.desktop',\n            'org.kde.ksysguard.desktop',\n            'org.kde.filelight.desktop',\n            'org.kde.partitionmanager.desktop',\n            'org.kde.plasma-systemmonitor.desktop',\n            'org.gnome.DejaDup.desktop',\n            'org.gnome.seahorse.Application.desktop',\n            'htop.desktop'\n        ]"@),
        set_spec("org.gnome.desktop.app-folders.folder:/org/gnome/desktop/app-folders/folders/Settings/"@, "name"@, "Settings"@),
        set_spec("org.gnome.desktop.app-folders.folder:/org/gnome/desktop/app-folders/folders/Settings/"@, "apps"@, "[\n            'org.gnome.Settings.desktop',\n            'gnome-control-center.desktop',\n            'org.gnome.tweaks.desktop',\n            'org.gnome.Extensions.desktop',\n            'com.mattjakeman.ExtensionManager.desktop',\n            'ca.desrt.dconf-editor.desktop',\n            'org.freedesktop.MalcontentControl.desktop',\n            'snap-store_snap-store.desktop',\n            'org.gnome.Software.desktop',\n            'org.kde.discover.desktop',\n            'synaptic.desktop',\n            'snap-store_ubuntu-software.desktop',\n            'software-properties-gnome.desktop',\n            'software-properties-gtk.desktop',\n            'update-manager.desktop',\n            'software-properties-livepatch.desktop',\n            'gnome-session-properties.desktop',\n            'kdesystemsettings.desktop',\n            'software-properties-drivers.desktop'\n        ]"@),
        set_spec("org.gnome.desktop.app-folders.folder:/org/gnome/desktop/app-folders/folders/Utilities/"@, "name"@, "Utilities"@),
        set_spec("org.gnome.desktop.app-folders.folder:/org/gnome/desktop/app-folders/folders/Utilities/"@, "apps"@, "[\n            'org.gnome.Calculator.desktop',\n            'simple-scan.desktop',\n            'evince.desktop',\n            'org.gnome.Evince.desktop',\n            'org.gnome.Documents.desktop',\n            'org.gnome.Screenshot.desktop',\n            'org.gnome.Tour.desktop',\n            'org.gnome.PowerStats.desktop',\n            'org.gnome.Logs.desktop',\n            'org.gnome.FileRoller.desktop',\n            'org.kde.okular.desktop',\n            'org.kde.ark.desktop',\n            'org.kde.kcalc.desktop',\n            'org.kde.spectacle.desktop',\n            'system-config-printer.desktop',\n            'cups.desktop',\n            'electron18.desktop',\n            'electron19.desktop',\n            'electron.desktop',\n            'flutter_openurl.desktop',\n            'setroubleshoot.desktop',\n            'org.cockpit_project.CockpitClient.desktop',\n            'org.gnome.font-viewer.desktop',\n            'org.gnome.Characters.desktop',\n            'org.gnome.Firmware.desktop',\n            'firmware-updater_firmware-updater.desktop',\n            'org.gnome.Shotwell-Profile-Browser.desktop',\n            'remote-viewer.desktop',\n            'org.kde.kwalletmanager5.desktop',\n            'org.kde.klipper.desktop',\n            'org.kde.kdeconnect.app.desktop',\n            'org.kde.kdeconnect.nonplasma.desktop',\n            'org.kde.kdeconnect.settings.desktop',\n            'org.kde.kdeconnect-settings.desktop',\n            'org.kde.kdeconnect.sms.desktop',\n            'assistant.desktop',\n            'designer.desktop',\n            'linguist.desktop',\n            'qdbusviewer.desktop',\n            'texdoctk.desktop',\n            'yelp.desktop',\n            'org.freedesktop.GnomeAbrt.desktop',\n            'im-config.desktop',\n            'nm-connection-editor.desktop',\n            'gnome-language-selector.desktop',\n            'display-im6.q16.desktop',\n            'avahi-discover.desktop',\n            'bssh.desktop',\n            'bvnc.desktop',\n            'lstopo.desktop',\n            'qv412.desktop',\n            'qvidcap.desktop',\n            'jconsole-java11-openjdk.desktop',\n            'jshell-java11-openjdk.desktop',\n            'qv4l2.desktop',\n            'org.kde.kuserfeedback-console.desktop',\n            'xdvi.desktop',\n            'org.kde.drkonqi.coredump.gui.desktop',\n            'torbrowser-settings.desktop',\n            'com.github.micahflee.torbrowser-launcher.settings.desktop'\n        ]"@),
        set_spec("org.gnome.shell"@, "app-picker-layout"@, "[\n            {\n                'Apps': <{'position': <0>}>,\n                'Internet': <{'position': <1>}>,\n                'Editors': <{'position': <2>}>,\n                'Office': <{'position': <3>}>,\n                'MultiMedia': <{'position': <4>}>,\n                'Games': <{'position': <5>}>,\n                'System': <{'position': <6>}>,\n                'Settings': <{'position': <7>}>,\n                'Utilities': <{'position': <8>}>\n            }\n        ]"@),
        set_spec("org.gnome.shell"@, "favorite-apps"@, "[\n            'org.gnome.Nautilus.desktop',\n            'firefox.desktop',\n            'firefox_firefox.desktop',\n            'firefox-esr.desktop',\n            'org.mozilla.firefox.desktop',\n            'thunderbird.desktop',\n            'thunderbird_thunderbird.desktop',\n            'mozilla-thunderbird.desktop',\n            'org.mozilla.Thunderbird.desktop',\n            'org.gnome.gedit.desktop',\n            'org.gnome.TextEditor.desktop',\n            'org.gnome.Terminal.desktop'\n        ]"@),
    ]
}

/// The GNOME setup: the desktop settings, those of Ubuntu on Ubuntu, and the app
/// folders.
pub open spec fn setup_spec(ubuntu: bool) -> Seq<ActionView> {
    desktop_settings_spec() + (if ubuntu {
        ubuntu_settings_spec()
    } else {
        Seq::empty()
    }) + app_folder_settings_spec()
}

/// The GNOME setup for the distribution.
pub fn setup(distribution: &Distribution) -> (acts: Vec<Action>)
    ensures
        action_views(acts@) == setup_spec(distribution.repository == Repository::Ubuntu),
{
    let mut acts: Vec<Action> = Vec::new();
    acts.push(settings_set("org.gnome.desktop.interface", "clock-format", "\"12h\""));
    acts.push(settings_set("org.gnome.desktop.interface", "clock-show-date", "true"));
    acts.push(settings_set("org.gnome.desktop.interface", "clock-show-seconds", "true"));
    acts.push(settings_set("org.gnome.desktop.interface", "clock-show-weekday", "true"));
    acts.push(settings_set("org.gnome.desktop.interface", "show-battery-percentage", "true"));
    acts.push(settings_set("org.gnome.desktop.interface", "enable-hot-corners", "true"));
    acts.push(settings_set("org.gnome.desktop.session", "idle-delay", "900"));
    acts.push(settings_set("org.gnome.desktop.peripherals.keyboard", "numlock-state", "true"));
    acts.push(settings_set("org.gnome.desktop.peripherals.touchpad", "tap-to-click", "true"));
    acts.push(settings_set("org.gnome.desktop.peripherals.touchpad", "natural-scroll", "false"));
    acts.push(settings_set("org.gnome.desktop.peripherals.mouse", "natural-scroll", "false"));
    assert(action_views(acts@) =~= desktop_settings_spec());
    let ghost a = action_views(acts@);
    if distribution.repository == Repository::Ubuntu {
        acts.push(settings_set("org.gnome.shell.extensions.ding", "show-home", "false"));
        acts.push(settings_set("org.gnome.shell.extensions.dash-to-dock", "dash-max-icon-size", "28"));
        acts.push(settings_set("org.gnome.shell.extensions.dash-to-dock", "show-favorites", "true"));
        acts.push(settings_set("org.gnome.shell.extensions.dash-to-dock", "show-mounts", "true"));
        acts.push(settings_set("org.gnome.shell.extensions.dash-to-dock", "show-trash", "false"));
        assert(action_views(acts@).skip(a.len() as int) =~= ubuntu_settings_spec());
        assert(action_views(acts@) =~= a + action_views(acts@).skip(a.len() as int));
    } else {
        assert(action_views(acts@) =~= a + Seq::<ActionView>::empty());
    }
    let ghost b = action_views(acts@);
acts.push(settings_reset("org.gnome.desktop.app-folders"));
    acts.push(settings_reset("org.gnome.desktop.app-folders.folder:/org/gnome/desktop/app-folders/folders/"));
    acts.push(settings_set("org.gnome.desktop.app-folders", "folder-children", "[\n            'Apps',\n            'Internet',\n            'Editors',\n            'Office',\n            'MultiMedia',\n            'Games',\n            'System',\n            'Settings',\n            'Utilities'\n        ]"));
    acts.push(settings_set("org.gnome.desktop.app-folders.folder:/org/gnome/desktop/app-folders/folders/Apps/", "name", "Apps"));
    acts.push(settings_set("org.gnome.desktop.app-folders.folder:/org/gnome/desktop/app-folders/folders/Apps/", "apps", "[\n            'bitwarden.desktop',\n            'bitwarden_bitwarden.desktop',\n            'gnucash.desktop',\n            'org.gnucash.GnuCash.desktop',\n            'org.gnome.PasswordSafe.desktop',\n            'org.gnome.World.Secrets.desktop',\n            'org.gnome.Calendar.desktop',\n            'org.gnome.Contacts.desktop',\n            'org.gnome.clocks.desktop',\n            'org.gnome.Weather.desktop',\n            'org.gnome.Maps.desktop',\n            'org.remmina.Remmina.desktop',\n            'org.gnome.Connections.desktop',\n            'org.gnome.Boxes.desktop',\n            'virt-manager.desktop',\n            'org.gnome.Cheese.desktop',\n            'org.gnome.Snapshot.desktop',\n            'org.gnome.Todo.desktop',\n            'usb-creator-gtk.desktop',\n            'org.fedoraproject.MediaWriter.desktop'\n        ]"));
    acts.push(settings_set("org.gnome.desktop.app-folders.folder:/org/gnome/desktop/app-folders/folders/Internet/", "name", "Internet"));
    acts.push(settings_set("org.gnome.desktop.app-folders.folder:/org/gnome/desktop/app-folders/folders/Internet/", "apps", "[\n            'chromium_chromium.desktop',\n            'chromium-browser.desktop',\n            'chromium.desktop',\n            'org.chromium.Chromium.desktop',\n            'icecat.desktop',\n            'firefox.desktop',\n            'firefox_firefox.desktop',\n            'firefox-esr.desktop',\n            'org.mozilla.firefox.desktop',\n            'brave_brave.desktop',\n            'torbrowser.desktop',\n            'com.github.micahflee.torbrowser-launcher.desktop',\n            'org.gnome.Epiphany.desktop',\n            'thunderbird.desktop',\n            'thunderbird_thunderbird.desktop',\n            'org.mozilla.thunderbird.desktop',\n            'mozilla-thunderbird.desktop',\n            'org.mozilla.Thunderbird.desktop',\n            'discord.desktop',\n            'discord_discord.desktop',\n            'com.discordapp.Discord.desktop',\n            'com.transmissionbt.Transmission.desktop',\n            'transmission-gtk.desktop',\n            'transmission-qt.desktop'\n        ]"));
    acts.push(settings_set("org.gnome.desktop.app-folders.folder:/org/gnome/desktop/app-folders/folders/Editors/", "name", "Editors"));
    acts.push(settings_set("org.gnome.desktop.app-folders.folder:/org/gnome/desktop/app-folders/folders/Editors/", "apps", "[\n            'org.gnome.gedit.desktop',\n            'org.gnome.TextEditor.desktop',\n            'code.desktop',\n            'code_code.desktop',\n            'com.visualstudio.code.desktop',\n            'org.kde.kwrite.desktop',\n            'org.kde.kate.desktop',\n            'org.gnome.Builder.desktop',\n            'jetbrains-fleet.desktop',\n            'jetbrains-idea-ce.desktop',\n            'idea.desktop',\n            'intellij-idea-community_intellij-idea-community.desktop',\n            'com.jetbrains.IntelliJ-IDEA-Community.desktop',\n            'rider_rider.desktop',\n            'jetbrains-pycharm-ce.desktop',\n            'pycharm.desktop',\n            'pycharm-community.desktop',\n            'pycharm-community_pycharm-community.desktop',\n            'com.jetbrains.PyCharm-Community.desktop',\n            'jetbrains-toolbox.desktop',\n            'org.kde.kile.desktop',\n            'texstudio.desktop',\n            'org.texstudio.TeXstudio.desktop',\n            'org.gnome.gitg.desktop',\n            'nvim.desktop',\n            'vim.desktop'\n        ]"));
    acts.push(settings_set("org.gnome.desktop.app-folders.folder:/org/gnome/desktop/app-folders/folders/Office/", "name", "Office"));
    acts.push(settings_set("org.gnome.desktop.app-folders.folder:/org/gnome/desktop/app-folders/folders/Office/", "apps", "[\n            'libreoffice-writer.desktop',\n            'libreoffice_writer.desktop',\n            'org.libreoffice.LibreOffice.writer.desktop',\n            'libreoffice-calc.desktop',\n            'libreoffice_calc.desktop',\n            'org.libreoffice.LibreOffice.calc.desktop',\n            'libreoffice-impress.desktop',\n            'libreoffice_impress.desktop',\n            'org.libreoffice.LibreOffice.impress.desktop',\n            'libreoffice-draw.desktop',\n            'libreoffice_draw.desktop',\n            'org.libreoffice.LibreOffice.draw.desktop',\n            'libreoffice-math.desktop',\n            'libreoffice_math.desktop',\n            'org.libreoffice.LibreOffice.math.desktop',\n            'libreoffice-base.desktop',\n            'libreoffice_base.desktop',\n            'org.libreoffice.LibreOffice.base.desktop',\n            'libreoffice_libreoffice.desktop',\n            'org.libreoffice.LibreOffice.desktop',\n            'libreoffice-startcenter.desktop'\n        ]"));
    acts.push(settings_set("org.gnome.desktop.app-folders.folder:/org/gnome/desktop/app-folders/folders/MultiMedia/", "name", "Multi Media"));
    acts.push(settings_set("org.gnome.desktop.app-folders.folder:/org/gnome/desktop/app-folders/folders/MultiMedia/", "apps", "[\n            'blender.desktop',\n            'blender_blender.desktop',\n            'org.blender.Blender.desktop',\n            'gimp.desktop',\n            'org.gimp.GIMP.desktop',\n            'org.kde.kdenlive.desktop',\n            'rhythmbox.desktop',\n            'org.gnome.Rhythmbox3.desktop',\n            'org.gnome.Music.desktop',\n            'org.kde.elisa.desktop',\n            'org.gnome.Photos.desktop',\n            'shotwell.desktop',\n            'org.gnome.Shotwell.desktop',\n            'org.gnome.Totem.desktop',\n            'vlc.desktop',\n            'vlc_vlc.desktop',\n            'org.videolan.VLC.desktop',\n            'org.gnome.SoundRecorder.desktop',\n            'org.gnome.Loupe.desktop',\n            'eog.desktop',\n            'org.gnome.eog.desktop',\n            'org.kde.gwenview.desktop'\n        ]"));
    acts.push(settings_set("org.gnome.desktop.app-folders.folder:/org/gnome/desktop/app-folders/folders/Games/", "name", "Games"));
    acts.push(settings_set("org.gnome.desktop.app-folders.folder:/org/gnome/desktop/app-folders/folders/Games/", "apps", "[\n            'com.valvesoftware.Steam.desktop',\n            'steam_steam.desktop',\n            'sol.desktop',\n            'org.gnome.Aisleriot.desktop',\n            'org.gnome.Chess.desktop',\n            'org.gnome.TwentyFortyEight.desktop',\n            'org.gnome.Sudoku.desktop',\n            'org.gnome.Mines.desktop',\n            'org.gnome.Quadrapassel.desktop',\n            'org.gnome.Mahjongg.desktop',\n            'org.kde.kmines.desktop',\n            'org.kde.knights.desktop',\n            'org.kde.ksudoku.desktop',\n            '0ad.desktop',\n            'supertuxkart.desktop',\n            'xonotic.desktop',\n            'xonotic-glx.desktop',\n            'xonotic-sdl.desktop'\n        ]"));
    acts.push(settings_set("org.gnome.desktop.app-folders.folder:/org/gnome/desktop/app-folders/folders/System/", "name", "System"));
    acts.push(settings_set("org.gnome.desktop.app-folders.folder:/org/gnome/desktop/app-folders/folders/System/", "apps", "[\n            'org.gnome.Nautilus.desktop',\n            'org.kde.dolphin.desktop',\n            'org.gnome.Terminal.desktop',\n            'org.gnome.Console.desktop',\n            'org.kde.konsole.desktop',\n            'org.gnome.SystemMonitor.desktop',\n            'gnome-system-monitor.desktop',\n            'org.gnome.baobab.desktop',\n            'org.gnome.DiskUtility.desktop',\n            'gparted.desktop',\n            'org.kde.ksysguard.desktop',\n            'org.kde.filelight.desktop',\n            'org.kde.partitionmanager.desktop',\n            'org.kde.plasma-systemmonitor.desktop',\n            'org.gnome.DejaDup.desktop',\n            'org.gnome.seahorse.Application.desktop',\n            'htop.desktop'\n        ]"));
    acts.push(settings_set("org.gnome.desktop.app-folders.folder:/org/gnome/desktop/app-folders/folders/Settings/", "name", "Settings"));
    acts.push(settings_set("org.gnome.desktop.app-folders.folder:/org/gnome/desktop/app-folders/folders/Settings/", "apps", "[\n            'org.gnome.Settings.desktop',\n            'gnome-control-center.desktop',\n            'org.gnome.tweaks.desktop',\n            'org.gnome.Extensions.desktop',\n            'com.mattjakeman.ExtensionManager.desktop',\n            'ca.desrt.dconf-editor.desktop',\n            'org.freedesktop.MalcontentControl.desktop',\n            'snap-store_snap-store.desktop',\n            'org.gnome.Software.desktop',\n            'org.kde.discover.desktop',\n            'synaptic.desktop',\n            'snap-store_ubuntu-software.desktop',\n            'software-properties-gnome.desktop',\n            'software-properties-gtk.desktop',\n            'update-manager.desktop',\n            'software-properties-livepatch.desktop',\n            'gnome-session-properties.desktop',\n            'kdesystemsettings.desktop',\n            'software-properties-drivers.desktop'\n        ]"));
    acts.push(settings_set("org.gnome.desktop.app-folders.folder:/org/gnome/desktop/app-folders/folders/Utilities/", "name", "Utilities"));
    acts.push(settings_set("org.gnome.desktop.app-folders.folder:/org/gnome/desktop/app-folders/folders/Utilities/", "apps", "[\n            'org.gnome.Calculator.desktop',\n            'simple-scan.desktop',\n            'evince.desktop',\n            'org.gnome.Evince.desktop',\n            'org.gnome.Documents.desktop',\n            'org.gnome.Screenshot.desktop',\n            'org.gnome.Tour.desktop',\n            'org.gnome.PowerStats.desktop',\n            'org.gnome.Logs.desktop',\n            'org.gnome.FileRoller.desktop',\n            'org.kde.okular.desktop',\n            'org.kde.ark.desktop',\n            'org.kde.kcalc.desktop',\n            'org.kde.spectacle.desktop',\n            'system-config-printer.desktop',\n            'cups.desktop',\n            'electron18.desktop',\n            'electron19.desktop',\n            'electron.desktop',\n            'flutter_openurl.desktop',\n            'setroubleshoot.desktop',\n            'org.cockpit_project.CockpitClient.desktop',\n            'org.gnome.font-viewer.desktop',\n            'org.gnome.Characters.desktop',\n            'org.gnome.Firmware.desktop',\n            'firmware-updater_firmware-updater.desktop',\n            'org.gnome.Shotwell-Profile-Browser.desktop',\n            'remote-viewer.desktop',\n            'org.kde.kwalletmanager5.desktop',\n            'org.kde.klipper.desktop',\n            'org.kde.kdeconnect.app.desktop',\n            'org.kde.kdeconnect.nonplasma.desktop',\n            'org.kde.kdeconnect.settings.desktop',\n            'org.kde.kdeconnect-settings.desktop',\n            'org.kde.kdeconnect.sms.desktop',\n            'assistant.desktop',\n            'designer.desktop',\n            'linguist.desktop',\n            'qdbusviewer.desktop',\n            'texdoctk.desktop',\n            'yelp.desktop',\n            'org.freedesktop.GnomeAbrt.desktop',\n            'im-config.desktop',\n            'nm-connection-editor.desktop',\n            'gnome-language-selector.desktop',\n            'display-im6.q16.desktop',\n            'avahi-discover.desktop',\n            'bssh.desktop',\n            'bvnc.desktop',\n            'lstopo.desktop',\n            'qv412.desktop',\n            'qvidcap.desktop',\n            'jconsole-java11-openjdk.desktop',\n            'jshell-java11-openjdk.desktop',\n            'qv4l2.desktop',\n            'org.kde.kuserfeedback-console.desktop',\n            'xdvi.desktop',\n            'org.kde.drkonqi.coredump.gui.desktop',\n            'torbrowser-settings.desktop',\n            'com.github.micahflee.torbrowser-launcher.settings.desktop'\n        ]"));
    acts.push(settings_set("org.gnome.shell", "app-picker-layout", "[\n            {\n                'Apps': <{'position': <0>}>,\n                'Internet': <{'position': <1>}>,\n                'Editors': <{'position': <2>}>,\n                'Office': <{'position': <3>}>,\n                'MultiMedia': <{'position': <4>}>,\n                'Games': <{'position': <5>}>,\n                'System': <{'position': <6>}>,\n                'Settings': <{'position': <7>}>,\n                'Utilities': <{'position': <8>}>\n            }\n        ]"));
    acts.push(settings_set("org.gnome.shell", "favorite-apps", "[\n            'org.gnome.Nautilus.desktop',\n            'firefox.desktop',\n            'firefox_firefox.desktop',\n            'firefox-esr.desktop',\n            'org.mozilla.firefox.desktop',\n            'thunderbird.desktop',\n            'thunderbird_thunderbird.desktop',\n            'mozilla-thunderbird.desktop',\n            'org.mozilla.Thunderbird.desktop',\n            'org.gnome.gedit.desktop',\n            'org.gnome.TextEditor.desktop',\n            'org.gnome.Terminal.desktop'\n        ]"));
    assert(action_views(acts@).skip(b.len() as int) =~= app_folder_settings_spec());
    assert(action_views(acts@) =~= b + action_views(acts@).skip(b.len() as int));
    acts
}

} // verus!
