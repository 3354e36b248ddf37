//! The steps that build the website projects into deployment archives.
use vstd::prelude::*;
use crate::action::{action_views, cat2, cat3, print, quiet_shell, run_at, run_quiet, Action, ActionView};

verus! {

/// The projects that can be built.
pub const PROJECTS: [&'static str; 5] = [
    "home-page",
    "crm",
    "learn-vietnamese",
    "tractor-pulling",
    "vehicle-ownership-cost",
];

/// The directory of the projects' clones.
pub fn git_dir(home: &str) -> (r: String)
    ensures
        r@ == home@ + "/git/grantfbarnes"@,
{
    cat2(home, "/git/grantfbarnes")
}

/// The directory of the deployment archives.
pub fn tar_dir(git_dir: &str) -> (r: String)
    ensures
        r@ == git_dir@ + "/website_deployment_files"@,
{
    cat2(git_dir, "/website_deployment_files")
}

/// The step that creates a missing directory.
pub fn make_dir(dir: &str) -> (a: Action)
    ensures
        a@ == quiet_shell("mkdir -p "@ + dir@),
{
    run_quiet(cat2("mkdir -p ", dir))
}

/// The steps that build one project: a clone where there is none yet, a clean
/// install and build, and a fresh archive of the project.
pub open spec fn project_steps_spec(git_dir: Seq<char>, tar_dir: Seq<char>, project: Seq<char>, cloned: bool) -> Seq<ActionView> {
    let project_dir = git_dir + "/"@ + project;
    let tar = tar_dir + "/"@ + project + ".tar.gz"@;
    seq![ActionView::Print("Working on \u{1b}[36m"@ + project + "\u{1b}[0m..."@)] + (if cloned {
        Seq::empty()
    } else {
        seq![
            ActionView::ShellAt {
                command: "git clone git@github.com:GrantFBarnes/"@ + project + ".git"@,
                dir: git_dir,
                quiet: false,
            },
        ]
    }) + seq![
        quiet_shell("rm -rf "@ + project_dir + "/node_modules"@),
        quiet_shell("rm -rf "@ + project_dir + "/dist"@),
        ActionView::ShellAt { command: "npm install"@, dir: project_dir, quiet: false },
        ActionView::ShellAt { command: "npm run build"@, dir: project_dir, quiet: false },
        quiet_shell("rm -rf "@ + tar),
        ActionView::ShellAt { command: "tar --exclude-vcs -cvzf "@ + tar + " "@ + project, dir: git_dir, quiet: true },
    ]
}

/// The steps that build one project; `cloned` tells whether its directory exists.
pub fn project_steps(git_dir: &str, tar_dir: &str, project: &str, cloned: bool) -> (acts: Vec<Action>)
    ensures
        action_views(acts@) == project_steps_spec(git_dir@, tar_dir@, project@, cloned),
{
    let project_dir = cat3(git_dir, "/", project);
    let mut tar = cat3(tar_dir, "/", project);
    tar.append(".tar.gz");
    let mut acts: Vec<Action> = Vec::new();
    acts.push(print(cat3("Working on \u{1b}[36m", project, "\u{1b}[0m...")));
    if !cloned {
        acts.push(run_at(cat3("git clone git@github.com:GrantFBarnes/", project, ".git"), git_dir, false));
    }
    acts.push(run_quiet(cat2("rm -rf ", cat2(project_dir.as_str(), "/node_modules").as_str())));
    acts.push(run_quiet(cat2("rm -rf ", cat2(project_dir.as_str(), "/dist").as_str())));
    acts.push(run_at("npm install".to_owned(), project_dir.as_str(), false));
    acts.push(run_at("npm run build".to_owned(), project_dir.as_str(), false));
    acts.push(run_quiet(cat2("rm -rf ", tar.as_str())));
    let mut tar_cmd = cat3("tar --exclude-vcs -cvzf ", tar.as_str(), " ");
    tar_cmd.append(project);
    acts.push(run_at(tar_cmd, git_dir, true));
    assert(action_views(acts@) =~~= project_steps_spec(git_dir@, tar_dir@, project@, cloned));
    acts
}

} // verus!
