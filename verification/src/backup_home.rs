//! The steps that back up folders of the home directory, each compressed and,
//! where chosen, encrypted.
use vstd::prelude::*;
use crate::action::{action_views, cat2, cat3, print, quiet_shell, run_at, run_quiet, Action, ActionView};

verus! {

/// The folders that can be backed up.
pub const HOME_FOLDERS: [&'static str; 4] = ["Documents", "Music", "Pictures", "Videos"];

/// The directory that holds the home backups.
pub fn backup_dir(home: &str) -> (r: String)
    ensures
        r@ == home@ + "/backups/home"@,
{
    cat2(home, "/backups/home")
}

/// The archive of a folder's backup.
pub open spec fn tar_file(backup_dir: Seq<char>, folder: Seq<char>) -> Seq<char> {
    backup_dir + "/"@ + folder + ".tar.gz"@
}

/// The steps that back up one folder: the old archive and its encrypted copy are
/// removed, the folder is compressed from the home directory, and, where it is
/// to be encrypted, the archive is encrypted with the passphrase and removed.
pub open spec fn folder_steps_spec(backup_dir: Seq<char>, home: Seq<char>, folder: Seq<char>, encrypt: bool, passphrase: Seq<char>) -> Seq<ActionView> {
    let tar = tar_file(backup_dir, folder);
    seq![
        quiet_shell("rm -f "@ + tar),
        quiet_shell("rm -f "@ + tar + ".gpg"@),
        ActionView::Print("Compressing "@ + folder + "..."@),
        ActionView::ShellAt { command: "tar --exclude-vcs -cvzf "@ + tar + " "@ + folder, dir: home, quiet: true },
    ] + if encrypt {
        seq![
            ActionView::Print("Encrypting "@ + folder + "..."@),
            ActionView::ShellAt {
                command: "gpg --batch -c --passphrase "@ + passphrase + " "@ + tar,
                dir: home,
                quiet: true,
            },
            quiet_shell("rm -f "@ + tar),
        ]
    } else {
        Seq::empty()
    }
}

/// The steps that back up one folder.
pub fn folder_steps(backup_dir: &str, home: &str, folder: &str, encrypt: bool, passphrase: &str) -> (acts: Vec<Action>)
    ensures
        action_views(acts@) == folder_steps_spec(backup_dir@, home@, folder@, encrypt, passphrase@),
{
    let mut tar = cat3(backup_dir, "/", folder);
    tar.append(".tar.gz");
    let mut acts: Vec<Action> = Vec::new();
    acts.push(run_quiet(cat2("rm -f ", tar.as_str())));
    acts.push(run_quiet(cat3("rm -f ", tar.as_str(), ".gpg")));
    acts.push(print(cat3("Compressing ", folder, "...")));
    let mut tar_cmd = cat3("tar --exclude-vcs -cvzf ", tar.as_str(), " ");
    tar_cmd.append(folder);
    acts.push(run_at(tar_cmd, home, true));
    if encrypt {
        acts.push(print(cat3("Encrypting ", folder, "...")));
        let mut gpg = cat3("gpg --batch -c --passphrase ", passphrase, " ");
        gpg.append(tar.as_str());
        acts.push(run_at(gpg, home, true));
        acts.push(run_quiet(cat2("rm -f ", tar.as_str())));
    }
    assert(action_views(acts@) =~= folder_steps_spec(backup_dir@, home@, folder@, encrypt, passphrase@));
    acts
}

} // verus!
