//! The work done around installing particular packages.
use vstd::prelude::*;
use crate::action::{
    action_views, cat2, cat3, command, command_spec, extend, quiet_shell, run, run_quiet, shell,
    Action, ActionView,
};
use crate::linux_setup::distribution::{
    install_package_spec, DistState, Distribution, PackageManager, Repository,
};
use crate::linux_setup::helper::append_to_file_if_not_found;
use crate::linux_setup::menu::InstallMethod;
use crate::linux_setup::package::InstallHook;

verus! {

/// The line added to `.bashrc` that turns off .NET telemetry.
pub const DOTNET_TELEMETRY_OPTOUT: &'static str = "\nexport DOTNET_CLI_TELEMETRY_OPTOUT=true\n";

/// The lines added to `.bashrc` for Go.
pub const GO_PATH_EXPORTS: &'static str = "\nexport GOPATH=$HOME/.go\nexport PATH=$PATH:$GOPATH/bin\n";

/// The neovim configuration.
pub const NEOVIM_CONFIG: &'static str = "\"\"\"\"\"\"\"\"\"\"\"\"\"\"\"\"\"\"\"\"\"\"\"\"\"\"\"\"\"\"\"\"\"\"\"\"\"\"\"\"\n\" neovim settings\n\nset noswapfile\nset nobackup\nset nowritebackup\n\nset updatetime=300\nset scrolloff=10\nset number\nset relativenumber\nset ignorecase smartcase\nset incsearch hlsearch\nset foldmethod=indent\nset foldlevel=99\n\nsyntax on\ncolorscheme desert\nfiletype plugin indent on\n\n\"\"\"\"\"\"\"\"\"\"\"\"\"\"\"\"\"\"\"\"\"\"\"\"\"\"\"\"\"\"\"\"\"\"\"\"\"\"\"\"\n\" normal mode remaps\n\nlet mapleader = \" \"\n\n\" window split\nnnoremap <Leader>vs <C-w>v\nnnoremap <Leader>hs <C-w>s\n\n\" window navigation\nnnoremap <C-h> <C-w>h\nnnoremap <C-j> <C-w>j\nnnoremap <C-k> <C-w>k\nnnoremap <C-l> <C-w>l\n\n\" text insert\nnnoremap <Leader>go iif err != nil {}<ESC>\n\n\" file explore\nnnoremap <Leader>ex :Explore<CR>\n";

/// The ALE plugin settings appended to the vim and neovim configurations.
pub const ALE_SETTINGS: &'static str = "\n\"\"\"\"\"\"\"\"\"\"\"\"\"\"\"\"\"\"\"\"\"\"\"\"\"\"\"\"\"\"\"\"\"\"\"\"\"\"\"\"\n\" ale settings\n\nlet g:ale_fix_on_save = 1\nlet g:ale_completion_enabled = 1\nlet g:ale_linters = { \"go\": [\"gopls\"], \"rust\": [\"analyzer\"] }\nlet g:ale_fixers = { \"*\": [\"remove_trailing_lines\", \"trim_whitespace\"], \"go\": [\"gofmt\"], \"rust\": [\"rustfmt\"] }\n\nnnoremap K :ALEHover<CR>\nnnoremap gd :ALEGoToDefinition<CR>\nnnoremap gn :ALERename<CR>\nnnoremap gr :ALEFindReferences<CR>\n\n\"\"\"\"\"\"\"\"\"\"\"\"\"\"\"\"\"\"\"\"\"\"\"\"\"\"\"\"\"\"\"\"\"\"\"\"\"\"\"\"\n\" insert mode remaps\n\ninoremap <silent><expr> <Tab> pumvisible() ? \"\\<C-n>\" : \"\\<TAB>\"\ninoremap <silent><expr> <S-Tab> pumvisible() ? \"\\<C-n>\" : \"\\<S-TAB>\"\n";

/// The vim configuration.
pub const VIM_CONFIG: &'static str = "\"\"\"\"\"\"\"\"\"\"\"\"\"\"\"\"\"\"\"\"\"\"\"\"\"\"\"\"\"\"\"\"\"\"\"\"\"\"\"\"\n\" vim settings\n\nset nocompatible\n\nset encoding=utf-8\n\nset noswapfile\nset nobackup\nset nowritebackup\n\nset mouse=a\nset updatetime=300\nset scrolloff=10\nset number\nset relativenumber\nset ignorecase smartcase\nset incsearch hlsearch\nset foldmethod=indent\nset foldlevel=99\n\nsyntax on\ncolorscheme desert\nfiletype plugin indent on\n\n\"\"\"\"\"\"\"\"\"\"\"\"\"\"\"\"\"\"\"\"\"\"\"\"\"\"\"\"\"\"\"\"\"\"\"\"\"\"\"\"\n\" normal mode remaps\n\nlet mapleader = \" \"\n\n\" window split\nnnoremap <Leader>vs <C-w>v\nnnoremap <Leader>hs <C-w>s\n\n\" window navigation\nnnoremap <C-h> <C-w>h\nnnoremap <C-j> <C-w>j\nnnoremap <C-k> <C-w>k\nnnoremap <C-l> <C-w>l\n\n\" text insert\nnnoremap <Leader>go iif err != nil {}<ESC>\n\n\" file explore\nnnoremap <Leader>ex :Explore<CR>\n";

/// The VS Code user settings.
pub const VSCODE_SETTINGS: &'static str = "{\n  \"[css]\": { \"editor.defaultFormatter\": \"esbenp.prettier-vscode\" },\n  \"[html]\": { \"editor.defaultFormatter\": \"esbenp.prettier-vscode\" },\n  \"[javascript]\": { \"editor.defaultFormatter\": \"esbenp.prettier-vscode\" },\n  \"[json]\": { \"editor.defaultFormatter\": \"esbenp.prettier-vscode\" },\n  \"[jsonc]\": { \"editor.defaultFormatter\": \"esbenp.prettier-vscode\" },\n  \"[scss]\": { \"editor.defaultFormatter\": \"esbenp.prettier-vscode\" },\n  \"[typescript]\": { \"editor.defaultFormatter\": \"esbenp.prettier-vscode\" },\n  \"editor.formatOnSave\": true,\n  \"editor.rulers\": [80, 160],\n  \"extensions.ignoreRecommendations\": true,\n  \"git.openRepositoryInParentFolders\": \"always\",\n  \"telemetry.telemetryLevel\": \"off\",\n  \"vim.smartRelativeLine\": true,\n  \"vim.useCtrlKeys\": false,\n  \"workbench.startupEditor\": \"none\",\n}\n";

/// The APT source of VS Code.
pub const VSCODE_APT_SOURCE: &'static str = "deb [arch=amd64,arm64,armhf signed-by=/etc/apt/keyrings/packages.microsoft.gpg] https://packages.microsoft.com/repos/code stable main";

/// The DNF repository of VS Code.
pub const VSCODE_DNF_REPO: &'static str = "[code]\nname=Visual Studio Code\nbaseurl=https://packages.microsoft.com/yumrepos/vscode\nenabled=1\ngpgcheck=1\ngpgkey=https://packages.microsoft.com/keys/microsoft.asc";

/// Appending `text` to the file at `path` unless it holds `marker`, without sudo.
pub open spec fn append_spec(path: Seq<char>, marker: Seq<char>, text: Seq<char>) -> ActionView {
    ActionView::AppendIfMissing { path, marker, text, sudo: false }
}

fn append(path: String, marker: &str, text: &str) -> (a: Action)
    ensures
        a@ == append_spec(path@, marker@, text@),
{
    append_to_file_if_not_found(path.as_str(), marker, text, false)
}

fn write(path: String, content: &str) -> (a: Action)
    ensures
        a@ == (ActionView::WriteFile { path: path@, content: content@ }),
{
    Action::WriteFile { path, content: content.to_owned() }
}

/// Installing one repository package, as a state change and steps.
pub open spec fn install_package_effect(d: DistState, p: Seq<char>) -> (DistState, Seq<ActionView>) {
    (DistState { packages: d.packages.insert(p), ..d }, install_package_spec(d.package_manager, d.packages, p))
}

/// The Microsoft package repository on Debian, before a repository install of .NET.
pub open spec fn dotnet_repository_effect(d: DistState, m: InstallMethod) -> (DistState, Seq<ActionView>) {
    if m == InstallMethod::Repository && d.repository == Repository::Debian {
        let w = install_package_effect(d, "wget"@);
        (w.0, w.1 + seq![
            shell("wget https://packages.microsoft.com/config/debian/12/packages-microsoft-prod.deb -O packages-microsoft-prod.deb"@),
            shell("sudo dpkg -i packages-microsoft-prod.deb"@),
            shell("rm packages-microsoft-prod.deb"@),
            shell("sudo apt update"@),
        ])
    } else {
        (d, Seq::empty())
    }
}

fn dotnet_repository(distribution: &mut Distribution, method: InstallMethod) -> (acts: Vec<Action>)
    ensures
        (final(distribution)@, action_views(acts@)) == dotnet_repository_effect(old(distribution)@, method),
{
    let mut acts: Vec<Action> = Vec::new();
    if method == InstallMethod::Repository && distribution.repository == Repository::Debian {
        acts = distribution.install_package("wget");
        let ghost a = action_views(acts@);
        acts.push(run("wget https://packages.microsoft.com/config/debian/12/packages-microsoft-prod.deb -O packages-microsoft-prod.deb".to_owned()));
        acts.push(run("sudo dpkg -i packages-microsoft-prod.deb".to_owned()));
        acts.push(run("rm packages-microsoft-prod.deb".to_owned()));
        acts.push(run("sudo apt update".to_owned()));
        assert(action_views(acts@) =~= dotnet_repository_effect(old(distribution)@, method).1);
    } else {
        assert(action_views(acts@) =~= Seq::<ActionView>::empty());
    }
    assert(distribution@ =~= dotnet_repository_effect(old(distribution)@, method).0);
    acts
}

/// The effect of a hook, for the install method chosen and the home directory.
pub open spec fn hook_effect(hook: InstallHook, d: DistState, m: InstallMethod, home: Seq<char>) -> (DistState, Seq<ActionView>) {
    let not_uninstall = m != InstallMethod::Uninstall;
    let is_uninstall = m == InstallMethod::Uninstall;
    let bashrc = home + "/.bashrc"@;
    match hook {
        InstallHook::DotnetRuntimeRepository => dotnet_repository_effect(d, m),
        InstallHook::DotnetSdkSetup => {
            let r = dotnet_repository_effect(d, m);
            (r.0, r.1 + (if is_uninstall {
                seq![quiet_shell("rm -r "@ + home + "/.dotnet "@ + home + "/.nuget"@)]
            } else {
                Seq::empty()
            }) + (if not_uninstall {
                seq![append_spec(bashrc, "export DOTNET_CLI_TELEMETRY_OPTOUT"@, DOTNET_TELEMETRY_OPTOUT@)]
            } else {
                Seq::empty()
            }))
        },
        InstallHook::GoCleanup => (d, if is_uninstall {
            seq![quiet_shell("sudo rm -r "@ + home + "/.go"@)]
        } else {
            Seq::empty()
        }),
        InstallHook::GoSetup => (d, if not_uninstall {
            seq![quiet_shell("go env -w GOPATH="@ + home + "/.go"@)] + if m == InstallMethod::Snap
                || d.repository == Repository::RedHat {
                seq![
                    append_spec(bashrc, "export GOPATH"@, GO_PATH_EXPORTS@),
                    shell("go install golang.org/x/tools/gopls@latest"@),
                ]
            } else {
                Seq::empty()
            }
        } else {
            Seq::empty()
        }),
        InstallHook::NeovimCleanup => (d, if is_uninstall {
            seq![quiet_shell("sudo rm -r "@ + home + "/.config/nvim"@)]
        } else {
            Seq::empty()
        }),
        InstallHook::NeovimSetup => (d, if not_uninstall {
            seq![
                quiet_shell("mkdir -p "@ + home + "/.config/nvim"@),
                ActionView::WriteFile { path: home + "/.config/nvim/init.vim"@, content: NEOVIM_CONFIG@ },
            ] + editor_plugins_spec(d.repository, home + "/.config/nvim/init.vim"@)
        } else {
            Seq::empty()
        }),
        InstallHook::NodeModule => (d, if m == InstallMethod::Repository && d.repository
            == Repository::RedHat {
            seq![quiet_shell("sudo dnf module enable nodejs:20 -y"@)]
        } else {
            Seq::empty()
        }),
        InstallHook::CargoCleanup => (d, if is_uninstall {
            seq![quiet_shell("rm -r "@ + home + "/.cargo"@)]
        } else {
            Seq::empty()
        }),
        InstallHook::RustupPrepare => {
            let cleanup: Seq<ActionView> = if is_uninstall {
                seq![quiet_shell("rm -r "@ + home + "/.cargo"@)]
            } else {
                Seq::empty()
            };
            if m == InstallMethod::Other {
                let c = install_package_effect(d, "curl"@);
                (c.0, cleanup + c.1)
            } else {
                (d, cleanup)
            }
        },
        InstallHook::RustAnalyzer => (d, if m == InstallMethod::Other {
            seq![quiet_shell(home + "/.cargo/bin/rustup component add rust-analyzer"@)]
        } else {
            seq![quiet_shell("rustup component add rust-analyzer"@)]
        }),
        InstallHook::SnapSetup => (d, if not_uninstall && d.package_manager == PackageManager::DNF {
            seq![
                shell("sudo systemctl enable --now snapd.socket"@),
                shell("sudo ln -s /var/lib/snapd/snap /snap"@),
            ]
        } else {
            Seq::empty()
        }),
        InstallHook::VimCleanup => (d, if is_uninstall {
            seq![quiet_shell("sudo rm -r "@ + home + "/.vim "@ + home + "/.viminfo "@ + home + "/.vimrc"@)]
        } else {
            Seq::empty()
        }),
        InstallHook::VimSetup => (d, if not_uninstall {
            seq![
                append_spec(bashrc, "export EDITOR"@, "export EDITOR=\"/usr/bin/vim\"\n"@),
                ActionView::WriteFile { path: home + "/.vimrc"@, content: VIM_CONFIG@ },
            ] + editor_plugins_spec(d.repository, home + "/.vimrc"@)
        } else {
            Seq::empty()
        }),
        InstallHook::SteamRepository => (d, dnf_repo_toggle_spec(d.repository, m, "rpmfusion-nonfree-steam"@)),
        InstallHook::IdeavimConfig => (d, if not_uninstall {
            seq![ActionView::WriteFile { path: home + "/.ideavimrc"@, content: "sethandler a:ide"@ }]
        } else {
            Seq::empty()
        }),
        InstallHook::PycharmRepository => (d, dnf_repo_toggle_spec(d.repository, m, "phracek-PyCharm"@)),
        InstallHook::VscodeRepository => vscode_repository_effect(d, m, home),
        InstallHook::VscodeSetup => (d, if not_uninstall {
            seq![
                shell("code --install-extension esbenp.prettier-vscode"@),
                shell("code --install-extension vscodevim.vim"@),
                ActionView::WriteFile { path: home + "/.config/Code/User/settings.json"@, content: VSCODE_SETTINGS@ },
            ]
        } else {
            Seq::empty()
        }),
    }
}

/// The plugin settings appended to a vim configuration, except on Red Hat.
pub open spec fn editor_plugins_spec(repo: Repository, config: Seq<char>) -> Seq<ActionView> {
    if repo != Repository::RedHat {
        (if repo == Repository::Arch || repo == Repository::Fedora {
            seq![append_spec(config, "NERDTree"@, "nnoremap <C-n> :NERDTreeToggle<CR>"@)]
        } else {
            Seq::empty()
        }) + seq![append_spec(config, "ale settings"@, ALE_SETTINGS@)]
    } else {
        Seq::empty()
    }
}

fn editor_plugins(repo: Repository, config: &str) -> (acts: Vec<Action>)
    ensures
        action_views(acts@) == editor_plugins_spec(repo, config@),
{
    let mut acts: Vec<Action> = Vec::new();
    if repo != Repository::RedHat {
        if repo == Repository::Arch || repo == Repository::Fedora {
            acts.push(append(config.to_owned(), "NERDTree", "nnoremap <C-n> :NERDTreeToggle<CR>"));
        }
        acts.push(append(config.to_owned(), "ale settings", ALE_SETTINGS));
    }
    assert(action_views(acts@) =~= editor_plugins_spec(repo, config@));
    acts
}

/// On Fedora, the dnf repository `name` is enabled for a repository install and
/// disabled otherwise.
pub open spec fn dnf_repo_toggle_spec(repo: Repository, m: InstallMethod, name: Seq<char>) -> Seq<ActionView> {
    if repo == Repository::Fedora {
        if m != InstallMethod::Repository {
            seq![quiet_shell("sudo dnf config-manager --set-disabled "@ + name)]
        } else {
            seq![quiet_shell("sudo dnf config-manager --set-enabled "@ + name)]
        }
    } else {
        Seq::empty()
    }
}

fn dnf_repo_toggle(repo: Repository, m: InstallMethod, name: &str) -> (acts: Vec<Action>)
    ensures
        action_views(acts@) == dnf_repo_toggle_spec(repo, m, name@),
{
    let mut acts: Vec<Action> = Vec::new();
    if m != InstallMethod::Repository {
        if repo == Repository::Fedora {
            acts.push(run_quiet(cat2("sudo dnf config-manager --set-disabled ", name)));
        }
    }
    if m == InstallMethod::Repository {
        if repo == Repository::Fedora {
            acts.push(run_quiet(cat2("sudo dnf config-manager --set-enabled ", name)));
        }
    }
    assert(action_views(acts@) =~= dnf_repo_toggle_spec(repo, m, name@));
    acts
}

/// The Microsoft repository of VS Code: removed unless VS Code comes from the
/// repositories, added when it does.
pub open spec fn vscode_repository_effect(d: DistState, m: InstallMethod, home: Seq<char>) -> (DistState, Seq<ActionView>) {
    let apt = d.package_manager == PackageManager::APT;
    let dnf = d.package_manager == PackageManager::DNF;
    let removal: Seq<ActionView> = if m != InstallMethod::Repository {
        (if apt {
            seq![quiet_shell("sudo rm /etc/apt/sources.list.d/vscode.list"@)]
        } else {
            Seq::empty()
        }) + (if dnf {
            seq![
                quiet_shell("sudo dnf config-manager --set-disabled code"@),
                quiet_shell("sudo rm /etc/yum.repos.d/vscode.repo"@),
            ]
        } else {
            Seq::empty()
        })
    } else {
        Seq::empty()
    };
    let cleanup: Seq<ActionView> = if m == InstallMethod::Uninstall {
        seq![quiet_shell("sudo rm -r "@ + home + "/.vscode "@ + home + "/.config/Code"@)]
    } else {
        Seq::empty()
    };
    if m == InstallMethod::Repository && apt {
        let w = install_package_effect(d, "wget"@);
        let g = install_package_effect(w.0, "gpg"@);
        (g.0, removal + cleanup + w.1 + g.1 + seq![
            ActionView::SaveOutput {
                command: "wget -qO- https://packages.microsoft.com/keys/microsoft.asc"@,
                path: "packages.microsoft"@,
            },
            quiet_shell("gpg --dearmor packages.microsoft"@),
            quiet_shell("sudo install -D -o root -g root -m 644 packages.microsoft.gpg /etc/apt/keyrings/packages.microsoft.gpg"@),
            ActionView::RemoveFile("packages.microsoft"@),
            ActionView::RemoveFile("packages.microsoft.gpg"@),
            ActionView::Pipe(
                command_spec("echo"@, seq![VSCODE_APT_SOURCE@]),
                command_spec("sudo"@, seq!["tee"@, "/etc/apt/sources.list.d/vscode.list"@]),
            ),
            shell("sudo apt update"@),
        ])
    } else if m == InstallMethod::Repository && dnf {
        (d, removal + cleanup + seq![
            quiet_shell("sudo rpm --import https://packages.microsoft.com/keys/microsoft.asc"@),
            ActionView::Pipe(
                command_spec("echo"@, seq!["-e"@, VSCODE_DNF_REPO@]),
                command_spec("sudo"@, seq!["tee"@, "/etc/yum.repos.d/vscode.repo"@]),
            ),
        ])
    } else {
        (d, removal + cleanup)
    }
}

fn vscode_repository(distribution: &mut Distribution, method: InstallMethod, home: &str) -> (acts: Vec<Action>)
    ensures
        (final(distribution)@, action_views(acts@)) == vscode_repository_effect(old(distribution)@, method, home@),
{
    let mut acts: Vec<Action> = Vec::new();
    let apt = distribution.package_manager == PackageManager::APT;
    let dnf = distribution.package_manager == PackageManager::DNF;
    if method != InstallMethod::Repository {
        if apt {
            acts.push(run_quiet("sudo rm /etc/apt/sources.list.d/vscode.list".to_owned()));
        }
        if dnf {
            acts.push(run_quiet("sudo dnf config-manager --set-disabled code".to_owned()));
            acts.push(run_quiet("sudo rm /etc/yum.repos.d/vscode.repo".to_owned()));
        }
    }
    if method == InstallMethod::Uninstall {
        let mut cmd = cat3("sudo rm -r ", home, "/.vscode ");
        cmd.append(home);
        cmd.append("/.config/Code");
        acts.push(run_quiet(cmd));
    }
    let ghost head = action_views(acts@);
    if method == InstallMethod::Repository {
        if apt {
            let w = distribution.install_package("wget");
            extend(&mut acts, w);
            let g = distribution.install_package("gpg");
            extend(&mut acts, g);
            acts.push(Action::SaveOutput {
                command: "wget -qO- https://packages.microsoft.com/keys/microsoft.asc".to_owned(),
                path: "packages.microsoft".to_owned(),
            });
            acts.push(run_quiet("gpg --dearmor packages.microsoft".to_owned()));
            acts.push(run_quiet("sudo install -D -o root -g root -m 644 packages.microsoft.gpg /etc/apt/keyrings/packages.microsoft.gpg".to_owned()));
            acts.push(Action::RemoveFile("packages.microsoft".to_owned()));
            acts.push(Action::RemoveFile("packages.microsoft.gpg".to_owned()));
            let echo = command("echo", vec![VSCODE_APT_SOURCE]);
            let tee = command("sudo", vec!["tee", "/etc/apt/sources.list.d/vscode.list"]);
            proof {
                assert(echo@.args =~= seq![VSCODE_APT_SOURCE@]);
                assert(tee@.args =~= seq!["tee"@, "/etc/apt/sources.list.d/vscode.list"@]);
            }
            acts.push(Action::Pipe(echo, tee));
            acts.push(run("sudo apt update".to_owned()));
        }
        if dnf {
            acts.push(run_quiet("sudo rpm --import https://packages.microsoft.com/keys/microsoft.asc".to_owned()));
            let echo = command("echo", vec!["-e", VSCODE_DNF_REPO]);
            let tee = command("sudo", vec!["tee", "/etc/yum.repos.d/vscode.repo"]);
            proof {
                assert(echo@.args =~= seq!["-e"@, VSCODE_DNF_REPO@]);
                assert(tee@.args =~= seq!["tee"@, "/etc/yum.repos.d/vscode.repo"@]);
            }
            acts.push(Action::Pipe(echo, tee));
        }
    }
    proof {
        let e = vscode_repository_effect(old(distribution)@, method, home@);
        assert(distribution@ =~= e.0);
        assert(action_views(acts@) =~= e.1);
    }
    acts
}

/// Whether the hook needs the home directory.
pub fn hook_needs_home(hook: InstallHook) -> (r: bool)
    ensures
        r == !(hook == InstallHook::DotnetRuntimeRepository || hook == InstallHook::NodeModule
            || hook == InstallHook::SnapSetup || hook == InstallHook::SteamRepository
            || hook == InstallHook::PycharmRepository),
{
    !(hook == InstallHook::DotnetRuntimeRepository || hook == InstallHook::NodeModule
        || hook == InstallHook::SnapSetup || hook == InstallHook::SteamRepository
        || hook == InstallHook::PycharmRepository)
}

/// Runs a hook for the install method chosen; `home` is the home directory.
pub fn run_hook(hook: InstallHook, distribution: &mut Distribution, method: InstallMethod, home: &str) -> (acts: Vec<Action>)
    ensures
        (final(distribution)@, action_views(acts@)) == hook_effect(hook, old(distribution)@, method, home@),
{
    let not_uninstall = method != InstallMethod::Uninstall;
    let is_uninstall = method == InstallMethod::Uninstall;
    let bashrc = cat2(home, "/.bashrc");
    let mut acts: Vec<Action> = Vec::new();
    match hook {
        InstallHook::DotnetRuntimeRepository => {
            acts = dotnet_repository(distribution, method);
        },
        InstallHook::DotnetSdkSetup => {
            acts = dotnet_repository(distribution, method);
            let ghost a = action_views(acts@);
            if is_uninstall {
                let mut cmd = cat3("rm -r ", home, "/.dotnet ");
                cmd.append(home);
                cmd.append("/.nuget");
                acts.push(run_quiet(cmd));
            }
            if not_uninstall {
                acts.push(append(bashrc, "export DOTNET_CLI_TELEMETRY_OPTOUT", DOTNET_TELEMETRY_OPTOUT));
            }
        },
        InstallHook::GoCleanup => {
            if is_uninstall {
                acts.push(run_quiet(cat3("sudo rm -r ", home, "/.go")));
            }
        },
        InstallHook::GoSetup => {
            if not_uninstall {
                acts.push(run_quiet(cat3("go env -w GOPATH=", home, "/.go")));
                if method == InstallMethod::Snap || distribution.repository == Repository::RedHat {
                    acts.push(append(bashrc, "export GOPATH", GO_PATH_EXPORTS));
                    acts.push(run("go install golang.org/x/tools/gopls@latest".to_owned()));
                }
            }
        },
        InstallHook::NeovimCleanup => {
            if is_uninstall {
                acts.push(run_quiet(cat3("sudo rm -r ", home, "/.config/nvim")));
            }
        },
        InstallHook::NeovimSetup => {
            if not_uninstall {
                let config = cat2(home, "/.config/nvim/init.vim");
                acts.push(run_quiet(cat3("mkdir -p ", home, "/.config/nvim")));
                acts.push(write(config.clone(), NEOVIM_CONFIG));
                let more = editor_plugins(distribution.repository, config.as_str());
                extend(&mut acts, more);
            }
        },
        InstallHook::NodeModule => {
            if method == InstallMethod::Repository && distribution.repository == Repository::RedHat {
                acts.push(run_quiet("sudo dnf module enable nodejs:20 -y".to_owned()));
            }
        },
        InstallHook::CargoCleanup => {
            if is_uninstall {
                acts.push(run_quiet(cat3("rm -r ", home, "/.cargo")));
            }
        },
        InstallHook::RustupPrepare => {
            if is_uninstall {
                acts.push(run_quiet(cat3("rm -r ", home, "/.cargo")));
            }
            if method == InstallMethod::Other {
                let more = distribution.install_package("curl");
                extend(&mut acts, more);
            }
        },
        InstallHook::RustAnalyzer => {
            if method == InstallMethod::Other {
                acts.push(run_quiet(cat2(home, "/.cargo/bin/rustup component add rust-analyzer")));
            } else {
                acts.push(run_quiet("rustup component add rust-analyzer".to_owned()));
            }
        },
        InstallHook::SnapSetup => {
            if not_uninstall {
                acts = distribution.setup_snap();
            }
        },
        InstallHook::VimCleanup => {
            if is_uninstall {
                let mut cmd = cat3("sudo rm -r ", home, "/.vim ");
                cmd.append(home);
                cmd.append("/.viminfo ");
                cmd.append(home);
                cmd.append("/.vimrc");
                acts.push(run_quiet(cmd));
            }
        },
        InstallHook::VimSetup => {
            if not_uninstall {
                let config = cat2(home, "/.vimrc");
                acts.push(append(bashrc, "export EDITOR", "export EDITOR=\"/usr/bin/vim\"\n"));
                acts.push(write(config.clone(), VIM_CONFIG));
                let more = editor_plugins(distribution.repository, config.as_str());
                extend(&mut acts, more);
            }
        },
        InstallHook::SteamRepository => {
            acts = dnf_repo_toggle(distribution.repository, method, "rpmfusion-nonfree-steam");
        },
        InstallHook::IdeavimConfig => {
            if not_uninstall {
                acts.push(write(cat2(home, "/.ideavimrc"), "sethandler a:ide"));
            }
        },
        InstallHook::PycharmRepository => {
            acts = dnf_repo_toggle(distribution.repository, method, "phracek-PyCharm");
        },
        InstallHook::VscodeRepository => {
            acts = vscode_repository(distribution, method, home);
        },
        InstallHook::VscodeSetup => {
            if not_uninstall {
                acts.push(run("code --install-extension esbenp.prettier-vscode".to_owned()));
                acts.push(run("code --install-extension vscodevim.vim".to_owned()));
                acts.push(write(cat2(home, "/.config/Code/User/settings.json"), VSCODE_SETTINGS));
            }
        },
    }
    proof {
        let e = hook_effect(hook, old(distribution)@, method, home@);
        assert(distribution@ =~= e.0);
        assert(action_views(acts@) =~= e.1);
    }
    acts
}

} // verus!
