//! The packages offered in each category.
use vstd::prelude::*;
use crate::linux_setup::distribution::DesktopEnvironment;
use crate::linux_setup::flatpak::Flatpak;
use crate::linux_setup::other::OtherPackage;
use crate::linux_setup::package::{
    package_views, Category, FlatpakView, InstallHook, Package, PackageView, RepoPackages, SnapView,
};
use crate::linux_setup::snap::Snap;

verus! {

/// The packages of the Server category, in menu order.
pub open spec fn server_spec() -> Seq<PackageView> {
    seq![
        PackageView {
            name: "Cockpit - Web Interface"@,
            desktop_environment: None,
            arch: Some(seq!["cockpit"@]),
            debian: Some(seq!["cockpit"@]),
            fedora: Some(seq!["cockpit"@]),
            redhat: Some(seq!["cockpit"@]),
            ubuntu: Some(seq!["cockpit"@]),
            flatpak: None,
            snap: None,
            other: None,
            pre_install: None,
            post_install: None,
        },
        PackageView {
            name: "cURL - Client URL"@,
            desktop_environment: None,
            arch: Some(seq!["curl"@]),
            debian: Some(seq!["curl"@]),
            fedora: Some(seq!["curl"@]),
            redhat: Some(seq!["curl"@]),
            ubuntu: Some(seq!["curl"@]),
            flatpak: None,
            snap: None,
            other: None,
            pre_install: None,
            post_install: None,
        },
        PackageView {
            name: "dotnet - C# runtime 8.0 LTS"@,
            desktop_environment: None,
            arch: Some(seq!["dotnet-runtime-8.0"@]),
            debian: Some(seq!["dotnet-runtime-8.0"@]),
            fedora: Some(seq!["dotnet-runtime-8.0"@]),
            redhat: Some(seq!["dotnet-runtime-8.0"@]),
            ubuntu: Some(seq!["dotnet-runtime-8.0"@]),
            flatpak: None,
            snap: Some(SnapView { name: "dotnet-runtime-80"@, is_official: true, is_classic: false, channel: ""@ }),
            other: None,
            pre_install: Some(InstallHook::DotnetRuntimeRepository),
            post_install: None,
        },
        PackageView {
            name: "dotnet - C# SDK 8.0 LTS"@,
            desktop_environment: None,
            arch: Some(seq!["dotnet-sdk-8.0"@]),
            debian: Some(seq!["dotnet-sdk-8.0"@]),
            fedora: Some(seq!["dotnet-sdk-8.0"@]),
            redhat: Some(seq!["dotnet-sdk-8.0"@]),
            ubuntu: Some(seq!["dotnet-sdk-8.0"@]),
            flatpak: None,
            snap: Some(SnapView { name: "dotnet-sdk"@, is_official: true, is_classic: true, channel: "8.0/stable"@ }),
            other: None,
            pre_install: Some(InstallHook::DotnetSdkSetup),
            post_install: None,
        },
        PackageView {
            name: "Flatpak"@,
            desktop_environment: None,
            arch: Some(seq!["flatpak"@]),
            debian: Some(seq!["flatpak"@]),
            fedora: Some(seq!["flatpak"@]),
            redhat: Some(seq!["flatpak"@]),
            ubuntu: Some(seq!["flatpak"@]),
            flatpak: None,
            snap: None,
            other: None,
            pre_install: None,
            post_install: None,
        },
        PackageView {
            name: "Flutter"@,
            desktop_environment: None,
            arch: None,
            debian: None,
            fedora: None,
            redhat: None,
            ubuntu: None,
            flatpak: None,
            snap: Some(SnapView { name: "flutter"@, is_official: true, is_classic: true, channel: ""@ }),
            other: None,
            pre_install: None,
            post_install: None,
        },
        PackageView {
            name: "git - Version Control"@,
            desktop_environment: None,
            arch: Some(seq!["git"@]),
            debian: Some(seq!["git"@]),
            fedora: Some(seq!["git"@]),
            redhat: Some(seq!["git"@]),
            ubuntu: Some(seq!["git"@]),
            flatpak: None,
            snap: None,
            other: None,
            pre_install: None,
            post_install: None,
        },
        PackageView {
            name: "Go Language"@,
            desktop_environment: None,
            arch: Some(seq!["go"@, "gopls"@]),
            debian: Some(seq!["golang"@, "gopls"@]),
            fedora: Some(seq!["golang"@, "golang-x-tools-gopls"@]),
            redhat: Some(seq!["golang"@]),
            ubuntu: Some(seq!["golang"@, "gopls"@]),
            flatpak: None,
            snap: Some(SnapView { name: "go"@, is_official: true, is_classic: true, channel: ""@ }),
            other: None,
            pre_install: Some(InstallHook::GoCleanup),
            post_install: Some(InstallHook::GoSetup),
        },
        PackageView {
            name: "htop - Process Viewer"@,
            desktop_environment: None,
            arch: Some(seq!["htop"@]),
            debian: Some(seq!["htop"@]),
            fedora: Some(seq!["htop"@]),
            redhat: Some(seq!["htop"@]),
            ubuntu: Some(seq!["htop"@]),
            flatpak: None,
            snap: None,
            other: None,
            pre_install: None,
            post_install: None,
        },
        PackageView {
            name: "MariaDB - Database"@,
            desktop_environment: None,
            arch: Some(seq!["mariadb"@]),
            debian: Some(seq!["mariadb-server"@]),
            fedora: Some(seq!["mariadb-server"@]),
            redhat: Some(seq!["mariadb-server"@]),
            ubuntu: Some(seq!["mariadb-server"@]),
            flatpak: None,
            snap: None,
            other: None,
            pre_install: None,
            post_install: None,
        },
        PackageView {
            name: "neovim - Text Editor"@,
            desktop_environment: None,
            arch: Some(seq!["neovim"@, "vim"@, "vim-airline"@, "vim-ale"@, "vim-ctrlp"@, "vim-gitgutter"@, "vim-nerdtree"@]),
            debian: Some(seq!["neovim"@, "vim"@, "vim-airline"@, "vim-ale"@, "vim-ctrlp"@, "vim-gitgutter"@]),
            fedora: Some(seq!["neovim"@, "vim-enhanced"@, "vim-airline"@, "vim-ale"@, "vim-ctrlp"@, "vim-gitgutter"@, "vim-nerdtree"@]),
            redhat: None,
            ubuntu: Some(seq!["neovim"@, "vim"@, "vim-airline"@, "vim-ale"@, "vim-ctrlp"@, "vim-gitgutter"@]),
            flatpak: None,
            snap: None,
            other: None,
            pre_install: Some(InstallHook::NeovimCleanup),
            post_install: Some(InstallHook::NeovimSetup),
        },
        PackageView {
            name: "nano - Text Editor"@,
            desktop_environment: None,
            arch: Some(seq!["nano"@]),
            debian: Some(seq!["nano"@]),
            fedora: Some(seq!["nano"@]),
            redhat: Some(seq!["nano"@]),
            ubuntu: Some(seq!["nano"@]),
            flatpak: None,
            snap: None,
            other: None,
            pre_install: None,
            post_install: None,
        },
        PackageView {
            name: "Node.js - JavaScript RE"@,
            desktop_environment: None,
            arch: Some(seq!["nodejs"@, "npm"@]),
            debian: Some(seq!["nodejs"@, "npm"@]),
            fedora: Some(seq!["nodejs"@, "npm"@]),
            redhat: Some(seq!["nodejs"@, "npm"@]),
            ubuntu: Some(seq!["nodejs"@, "npm"@]),
            flatpak: None,
            snap: Some(SnapView { name: "node"@, is_official: true, is_classic: true, channel: "18/stable"@ }),
            other: None,
            pre_install: Some(InstallHook::NodeModule),
            post_install: None,
        },
        PackageView {
            name: "Podman - Containers"@,
            desktop_environment: None,
            arch: Some(seq!["podman"@]),
            debian: Some(seq!["podman"@]),
            fedora: Some(seq!["podman"@]),
            redhat: Some(seq!["podman"@]),
            ubuntu: Some(seq!["podman"@]),
            flatpak: None,
            snap: None,
            other: None,
            pre_install: None,
            post_install: None,
        },
        PackageView {
            name: "Rust Language"@,
            desktop_environment: None,
            arch: Some(seq!["rust"@]),
            debian: Some(seq!["rustc"@, "rustfmt"@, "cargo"@]),
            fedora: Some(seq!["rust"@, "rustfmt"@, "cargo"@]),
            redhat: Some(seq!["rust"@, "rustfmt"@, "cargo"@]),
            ubuntu: Some(seq!["rustc"@, "rustfmt"@, "cargo"@]),
            flatpak: None,
            snap: None,
            other: None,
            pre_install: Some(InstallHook::CargoCleanup),
            post_install: None,
        },
        PackageView {
            name: "rustup"@,
            desktop_environment: None,
            arch: Some(seq!["rustup"@]),
            debian: None,
            fedora: Some(seq!["rustup"@]),
            redhat: None,
            ubuntu: Some(seq!["rustup"@]),
            flatpak: None,
            snap: Some(SnapView { name: "rustup"@, is_official: true, is_classic: true, channel: ""@ }),
            other: Some("rustup"@),
            pre_install: Some(InstallHook::RustupPrepare),
            post_install: Some(InstallHook::RustAnalyzer),
        },
        PackageView {
            name: "Snap"@,
            desktop_environment: None,
            arch: None,
            debian: Some(seq!["snapd"@]),
            fedora: Some(seq!["snapd"@]),
            redhat: Some(seq!["snapd"@]),
            ubuntu: Some(seq!["snapd"@]),
            flatpak: None,
            snap: None,
            other: None,
            pre_install: None,
            post_install: Some(InstallHook::SnapSetup),
        },
        PackageView {
            name: "SSH - Secure Shell Protocol"@,
            desktop_environment: None,
            arch: Some(seq!["libssh"@, "openssh"@]),
            debian: Some(seq!["ssh"@]),
            fedora: Some(seq!["libssh"@, "openssh"@]),
            redhat: Some(seq!["libssh"@, "openssh"@]),
            ubuntu: Some(seq!["ssh"@]),
            flatpak: None,
            snap: None,
            other: None,
            pre_install: None,
            post_install: None,
        },
        PackageView {
            name: "vim - Text Editor"@,
            desktop_environment: None,
            arch: Some(seq!["vim"@, "vim-airline"@, "vim-ale"@, "vim-ctrlp"@, "vim-gitgutter"@, "vim-nerdtree"@]),
            debian: Some(seq!["vim"@, "vim-airline"@, "vim-ale"@, "vim-ctrlp"@, "vim-gitgutter"@]),
            fedora: Some(seq!["vim-enhanced"@, "vim-airline"@, "vim-ale"@, "vim-ctrlp"@, "vim-gitgutter"@, "vim-nerdtree"@]),
            redhat: Some(seq!["vim-enhanced"@]),
            ubuntu: Some(seq!["vim"@, "vim-airline"@, "vim-ale"@, "vim-ctrlp"@, "vim-gitgutter"@]),
            flatpak: None,
            snap: None,
            other: None,
            pre_install: Some(InstallHook::VimCleanup),
            post_install: Some(InstallHook::VimSetup),
        },
    ]
}

/// The packages of the Server category.
pub fn server_packages() -> (r: Vec<Package>)
    ensures
        package_views(r@) == server_spec(),
{
    let r = vec![
        Package {
            name: "Cockpit - Web Interface",
            desktop_environment: None,
            repository: RepoPackages {
                arch: Some(vec!["cockpit"]),
                debian: Some(vec!["cockpit"]),
                fedora: Some(vec!["cockpit"]),
                redhat: Some(vec!["cockpit"]),
                ubuntu: Some(vec!["cockpit"]),
            },
            flatpak: None,
            snap: None,
            other: None,
            pre_install: None,
            post_install: None,
        },
        Package {
            name: "cURL - Client URL",
            desktop_environment: None,
            repository: RepoPackages {
                arch: Some(vec!["curl"]),
                debian: Some(vec!["curl"]),
                fedora: Some(vec!["curl"]),
                redhat: Some(vec!["curl"]),
                ubuntu: Some(vec!["curl"]),
            },
            flatpak: None,
            snap: None,
            other: None,
            pre_install: None,
            post_install: None,
        },
        Package {
            name: "dotnet - C# runtime 8.0 LTS",
            desktop_environment: None,
            repository: RepoPackages {
                arch: Some(vec!["dotnet-runtime-8.0"]),
                debian: Some(vec!["dotnet-runtime-8.0"]),
                fedora: Some(vec!["dotnet-runtime-8.0"]),
                redhat: Some(vec!["dotnet-runtime-8.0"]),
                ubuntu: Some(vec!["dotnet-runtime-8.0"]),
            },
            flatpak: None,
            snap: Some(Snap { name: "dotnet-runtime-80", is_official: true, is_classic: false, channel: "" }),
            other: None,
            pre_install: Some(InstallHook::DotnetRuntimeRepository),
            post_install: None,
        },
        Package {
            name: "dotnet - C# SDK 8.0 LTS",
            desktop_environment: None,
            repository: RepoPackages {
                arch: Some(vec!["dotnet-sdk-8.0"]),
                debian: Some(vec!["dotnet-sdk-8.0"]),
                fedora: Some(vec!["dotnet-sdk-8.0"]),
                redhat: Some(vec!["dotnet-sdk-8.0"]),
                ubuntu: Some(vec!["dotnet-sdk-8.0"]),
            },
            flatpak: None,
            snap: Some(Snap { name: "dotnet-sdk", is_official: true, is_classic: true, channel: "8.0/stable" }),
            other: None,
            pre_install: Some(InstallHook::DotnetSdkSetup),
            post_install: None,
        },
        Package {
            name: "Flatpak",
            desktop_environment: None,
            repository: RepoPackages {
                arch: Some(vec!["flatpak"]),
                debian: Some(vec!["flatpak"]),
                fedora: Some(vec!["flatpak"]),
                redhat: Some(vec!["flatpak"]),
                ubuntu: Some(vec!["flatpak"]),
            },
            flatpak: None,
            snap: None,
            other: None,
            pre_install: None,
            post_install: None,
        },
        Package {
            name: "Flutter",
            desktop_environment: None,
            repository: RepoPackages {
                arch: None,
                debian: None,
                fedora: None,
                redhat: None,
                ubuntu: None,
            },
            flatpak: None,
            snap: Some(Snap { name: "flutter", is_official: true, is_classic: true, channel: "" }),
            other: None,
            pre_install: None,
            post_install: None,
        },
        Package {
            name: "git - Version Control",
            desktop_environment: None,
            repository: RepoPackages {
                arch: Some(vec!["git"]),
                debian: Some(vec!["git"]),
                fedora: Some(vec!["git"]),
                redhat: Some(vec!["git"]),
                ubuntu: Some(vec!["git"]),
            },
            flatpak: None,
            snap: None,
            other: None,
            pre_install: None,
            post_install: None,
        },
        Package {
            name: "Go Language",
            desktop_environment: None,
            repository: RepoPackages {
                arch: Some(vec!["go", "gopls"]),
                debian: Some(vec!["golang", "gopls"]),
                fedora: Some(vec!["golang", "golang-x-tools-gopls"]),
                redhat: Some(vec!["golang"]),
                ubuntu: Some(vec!["golang", "gopls"]),
            },
            flatpak: None,
            snap: Some(Snap { name: "go", is_official: true, is_classic: true, channel: "" }),
            other: None,
            pre_install: Some(InstallHook::GoCleanup),
            post_install: Some(InstallHook::GoSetup),
        },
        Package {
            name: "htop - Process Viewer",
            desktop_environment: None,
            repository: RepoPackages {
                arch: Some(vec!["htop"]),
                debian: Some(vec!["htop"]),
                fedora: Some(vec!["htop"]),
                redhat: Some(vec!["htop"]),
                ubuntu: Some(vec!["htop"]),
            },
            flatpak: None,
            snap: None,
            other: None,
            pre_install: None,
            post_install: None,
        },
        Package {
            name: "MariaDB - Database",
            desktop_environment: None,
            repository: RepoPackages {
                arch: Some(vec!["mariadb"]),
                debian: Some(vec!["mariadb-server"]),
                fedora: Some(vec!["mariadb-server"]),
                redhat: Some(vec!["mariadb-server"]),
                ubuntu: Some(vec!["mariadb-server"]),
            },
            flatpak: None,
            snap: None,
            other: None,
            pre_install: None,
            post_install: None,
        },
        Package {
            name: "neovim - Text Editor",
            desktop_environment: None,
            repository: RepoPackages {
                arch: Some(vec!["neovim", "vim", "vim-airline", "vim-ale", "vim-ctrlp", "vim-gitgutter", "vim-nerdtree"]),
                debian: Some(vec!["neovim", "vim", "vim-airline", "vim-ale", "vim-ctrlp", "vim-gitgutter"]),
                fedora: Some(vec!["neovim", "vim-enhanced", "vim-airline", "vim-ale", "vim-ctrlp", "vim-gitgutter", "vim-nerdtree"]),
                redhat: None,
                ubuntu: Some(vec!["neovim", "vim", "vim-airline", "vim-ale", "vim-ctrlp", "vim-gitgutter"]),
            },
            flatpak: None,
            snap: None,
            other: None,
            pre_install: Some(InstallHook::NeovimCleanup),
            post_install: Some(InstallHook::NeovimSetup),
        },
        Package {
            name: "nano - Text Editor",
            desktop_environment: None,
            repository: RepoPackages {
                arch: Some(vec!["nano"]),
                debian: Some(vec!["nano"]),
                fedora: Some(vec!["nano"]),
                redhat: Some(vec!["nano"]),
                ubuntu: Some(vec!["nano"]),
            },
            flatpak: None,
            snap: None,
            other: None,
            pre_install: None,
            post_install: None,
        },
        Package {
            name: "Node.js - JavaScript RE",
            desktop_environment: None,
            repository: RepoPackages {
                arch: Some(vec!["nodejs", "npm"]),
                debian: Some(vec!["nodejs", "npm"]),
                fedora: Some(vec!["nodejs", "npm"]),
                redhat: Some(vec!["nodejs", "npm"]),
                ubuntu: Some(vec!["nodejs", "npm"]),
            },
            flatpak: None,
            snap: Some(Snap { name: "node", is_official: true, is_classic: true, channel: "18/stable" }),
            other: None,
            pre_install: Some(InstallHook::NodeModule),
            post_install: None,
        },
        Package {
            name: "Podman - Containers",
            desktop_environment: None,
            repository: RepoPackages {
                arch: Some(vec!["podman"]),
                debian: Some(vec!["podman"]),
                fedora: Some(vec!["podman"]),
                redhat: Some(vec!["podman"]),
                ubuntu: Some(vec!["podman"]),
            },
            flatpak: None,
            snap: None,
            other: None,
            pre_install: None,
            post_install: None,
        },
        Package {
            name: "Rust Language",
            desktop_environment: None,
            repository: RepoPackages {
                arch: Some(vec!["rust"]),
                debian: Some(vec!["rustc", "rustfmt", "cargo"]),
                fedora: Some(vec!["rust", "rustfmt", "cargo"]),
                redhat: Some(vec!["rust", "rustfmt", "cargo"]),
                ubuntu: Some(vec!["rustc", "rustfmt", "cargo"]),
            },
            flatpak: None,
            snap: None,
            other: None,
            pre_install: Some(InstallHook::CargoCleanup),
            post_install: None,
        },
        Package {
            name: "rustup",
            desktop_environment: None,
            repository: RepoPackages {
                arch: Some(vec!["rustup"]),
                debian: None,
                fedora: Some(vec!["rustup"]),
                redhat: None,
                ubuntu: Some(vec!["rustup"]),
            },
            flatpak: None,
            snap: Some(Snap { name: "rustup", is_official: true, is_classic: true, channel: "" }),
            other: Some(OtherPackage { name: "rustup" }),
            pre_install: Some(InstallHook::RustupPrepare),
            post_install: Some(InstallHook::RustAnalyzer),
        },
        Package {
            name: "Snap",
            desktop_environment: None,
            repository: RepoPackages {
                arch: None,
                debian: Some(vec!["snapd"]),
                fedora: Some(vec!["snapd"]),
                redhat: Some(vec!["snapd"]),
                ubuntu: Some(vec!["snapd"]),
            },
            flatpak: None,
            snap: None,
            other: None,
            pre_install: None,
            post_install: Some(InstallHook::SnapSetup),
        },
        Package {
            name: "SSH - Secure Shell Protocol",
            desktop_environment: None,
            repository: RepoPackages {
                arch: Some(vec!["libssh", "openssh"]),
                debian: Some(vec!["ssh"]),
                fedora: Some(vec!["libssh", "openssh"]),
                redhat: Some(vec!["libssh", "openssh"]),
                ubuntu: Some(vec!["ssh"]),
            },
            flatpak: None,
            snap: None,
            other: None,
            pre_install: None,
            post_install: None,
        },
        Package {
            name: "vim - Text Editor",
            desktop_environment: None,
            repository: RepoPackages {
                arch: Some(vec!["vim", "vim-airline", "vim-ale", "vim-ctrlp", "vim-gitgutter", "vim-nerdtree"]),
                debian: Some(vec!["vim", "vim-airline", "vim-ale", "vim-ctrlp", "vim-gitgutter"]),
                fedora: Some(vec!["vim-enhanced", "vim-airline", "vim-ale", "vim-ctrlp", "vim-gitgutter", "vim-nerdtree"]),
                redhat: Some(vec!["vim-enhanced"]),
                ubuntu: Some(vec!["vim", "vim-airline", "vim-ale", "vim-ctrlp", "vim-gitgutter"]),
            },
            flatpak: None,
            snap: None,
            other: None,
            pre_install: Some(InstallHook::VimCleanup),
            post_install: Some(InstallHook::VimSetup),
        },
    ];
    assert(package_views(r@) =~~= server_spec());
    r
}

/// The packages of the Desktop category, in menu order.
pub open spec fn desktop_spec() -> Seq<PackageView> {
    seq![
        PackageView {
            name: "cups - Printer Support"@,
            desktop_environment: None,
            arch: Some(seq!["cups"@]),
            debian: Some(seq!["cups"@]),
            fedora: Some(seq!["cups"@]),
            redhat: Some(seq!["cups"@]),
            ubuntu: Some(seq!["cups"@]),
            flatpak: None,
            snap: None,
            other: None,
            pre_install: None,
            post_install: None,
        },
        PackageView {
            name: "ffmpeg - Media Codecs"@,
            desktop_environment: None,
            arch: Some(seq!["ffmpeg"@]),
            debian: Some(seq!["ffmpeg"@]),
            fedora: Some(seq!["ffmpeg"@]),
            redhat: Some(seq!["ffmpeg"@]),
            ubuntu: Some(seq!["ffmpeg"@]),
            flatpak: None,
            snap: None,
            other: None,
            pre_install: None,
            post_install: None,
        },
        PackageView {
            name: "imagemagick"@,
            desktop_environment: None,
            arch: Some(seq!["imagemagick"@]),
            debian: Some(seq!["imagemagick"@]),
            fedora: Some(seq!["ImageMagick"@]),
            redhat: Some(seq!["ImageMagick"@]),
            ubuntu: Some(seq!["imagemagick"@]),
            flatpak: None,
            snap: None,
            other: None,
            pre_install: None,
            post_install: None,
        },
        PackageView {
            name: "LaTex - Compiler"@,
            desktop_environment: None,
            arch: Some(seq!["texlive-core"@, "texlive-latexextra"@]),
            debian: Some(seq!["texlive-latex-base"@, "texlive-latex-extra"@]),
            fedora: Some(seq!["texlive-latex"@, "texlive-collection-latexextra"@]),
            redhat: Some(seq!["texlive-latex"@]),
            ubuntu: Some(seq!["texlive-latex-base"@, "texlive-latex-extra"@]),
            flatpak: None,
            snap: None,
            other: None,
            pre_install: None,
            post_install: None,
        },
        PackageView {
            name: "MP3 Metadata Editor"@,
            desktop_environment: None,
            arch: Some(seq!["id3v2"@]),
            debian: Some(seq!["id3v2"@]),
            fedora: Some(seq!["id3v2"@]),
            redhat: None,
            ubuntu: Some(seq!["id3v2"@]),
            flatpak: None,
            snap: None,
            other: None,
            pre_install: None,
            post_install: None,
        },
        PackageView {
            name: "qtile - Window Manager"@,
            desktop_environment: None,
            arch: Some(seq!["qtile"@, "alacritty"@, "rofi"@, "numlockx"@, "playerctl"@]),
            debian: None,
            fedora: None,
            redhat: None,
            ubuntu: None,
            flatpak: None,
            snap: None,
            other: None,
            pre_install: None,
            post_install: None,
        },
        PackageView {
            name: "Vietnamese Keyboard"@,
            desktop_environment: None,
            arch: Some(seq!["ibus-unikey"@]),
            debian: Some(seq!["ibus-unikey"@]),
            fedora: Some(seq!["ibus-unikey"@]),
            redhat: Some(seq!["https://rpmfind.net/linux/fedora/linux/releases/34/Everything/x86_64/os/Packages/i/ibus-unikey-0.6.1-26.20190311git46b5b9e.fc34.x86_64.rpm"@]),
            ubuntu: Some(seq!["ibus-unikey"@]),
            flatpak: None,
            snap: None,
            other: None,
            pre_install: None,
            post_install: None,
        },
        PackageView {
            name: "yt-dlp - Download YouTube"@,
            desktop_environment: None,
            arch: Some(seq!["yt-dlp"@]),
            debian: Some(seq!["yt-dlp"@]),
            fedora: Some(seq!["yt-dlp"@]),
            redhat: Some(seq!["yt-dlp"@]),
            ubuntu: Some(seq!["yt-dlp"@]),
            flatpak: None,
            snap: None,
            other: None,
            pre_install: None,
            post_install: None,
        },
    ]
}

/// The packages of the Desktop category.
pub fn desktop_packages() -> (r: Vec<Package>)
    ensures
        package_views(r@) == desktop_spec(),
{
    let r = vec![
        Package {
            name: "cups - Printer Support",
            desktop_environment: None,
            repository: RepoPackages {
                arch: Some(vec!["cups"]),
                debian: Some(vec!["cups"]),
                fedora: Some(vec!["cups"]),
                redhat: Some(vec!["cups"]),
                ubuntu: Some(vec!["cups"]),
            },
            flatpak: None,
            snap: None,
            other: None,
            pre_install: None,
            post_install: None,
        },
        Package {
            name: "ffmpeg - Media Codecs",
            desktop_environment: None,
            repository: RepoPackages {
                arch: Some(vec!["ffmpeg"]),
                debian: Some(vec!["ffmpeg"]),
                fedora: Some(vec!["ffmpeg"]),
                redhat: Some(vec!["ffmpeg"]),
                ubuntu: Some(vec!["ffmpeg"]),
            },
            flatpak: None,
            snap: None,
            other: None,
            pre_install: None,
            post_install: None,
        },
        Package {
            name: "imagemagick",
            desktop_environment: None,
            repository: RepoPackages {
                arch: Some(vec!["imagemagick"]),
                debian: Some(vec!["imagemagick"]),
                fedora: Some(vec!["ImageMagick"]),
                redhat: Some(vec!["ImageMagick"]),
                ubuntu: Some(vec!["imagemagick"]),
            },
            flatpak: None,
            snap: None,
            other: None,
            pre_install: None,
            post_install: None,
        },
        Package {
            name: "LaTex - Compiler",
            desktop_environment: None,
            repository: RepoPackages {
                arch: Some(vec!["texlive-core", "texlive-latexextra"]),
                debian: Some(vec!["texlive-latex-base", "texlive-latex-extra"]),
                fedora: Some(vec!["texlive-latex", "texlive-collection-latexextra"]),
                redhat: Some(vec!["texlive-latex"]),
                ubuntu: Some(vec!["texlive-latex-base", "texlive-latex-extra"]),
            },
            flatpak: None,
            snap: None,
            other: None,
            pre_install: None,
            post_install: None,
        },
        Package {
            name: "MP3 Metadata Editor",
            desktop_environment: None,
            repository: RepoPackages {
                arch: Some(vec!["id3v2"]),
                debian: Some(vec!["id3v2"]),
                fedora: Some(vec!["id3v2"]),
                redhat: None,
                ubuntu: Some(vec!["id3v2"]),
            },
            flatpak: None,
            snap: None,
            other: None,
            pre_install: None,
            post_install: None,
        },
        Package {
            name: "qtile - Window Manager",
            desktop_environment: None,
            repository: RepoPackages {
                arch: Some(vec!["qtile", "alacritty", "rofi", "numlockx", "playerctl"]),
                debian: None,
                fedora: None,
                redhat: None,
                ubuntu: None,
            },
            flatpak: None,
            snap: None,
            other: None,
            pre_install: None,
            post_install: None,
        },
        Package {
            name: "Vietnamese Keyboard",
            desktop_environment: None,
            repository: RepoPackages {
                arch: Some(vec!["ibus-unikey"]),
                debian: Some(vec!["ibus-unikey"]),
                fedora: Some(vec!["ibus-unikey"]),
                redhat: Some(vec!["https://rpmfind.net/linux/fedora/linux/releases/34/Everything/x86_64/os/Packages/i/ibus-unikey-0.6.1-26.20190311git46b5b9e.fc34.x86_64.rpm"]),
                ubuntu: Some(vec!["ibus-unikey"]),
            },
            flatpak: None,
            snap: None,
            other: None,
            pre_install: None,
            post_install: None,
        },
        Package {
            name: "yt-dlp - Download YouTube",
            desktop_environment: None,
            repository: RepoPackages {
                arch: Some(vec!["yt-dlp"]),
                debian: Some(vec!["yt-dlp"]),
                fedora: Some(vec!["yt-dlp"]),
                redhat: Some(vec!["yt-dlp"]),
                ubuntu: Some(vec!["yt-dlp"]),
            },
            flatpak: None,
            snap: None,
            other: None,
            pre_install: None,
            post_install: None,
        },
    ];
    assert(package_views(r@) =~~= desktop_spec());
    r
}

/// The packages of the Applications category, in menu order.
pub open spec fn applications_spec() -> Seq<PackageView> {
    seq![
        PackageView {
            name: "Cheese - Webcam"@,
            desktop_environment: Some(DesktopEnvironment::Gnome),
            arch: Some(seq!["cheese"@]),
            debian: Some(seq!["cheese"@]),
            fedora: Some(seq!["cheese"@]),
            redhat: Some(seq!["cheese"@]),
            ubuntu: Some(seq!["cheese"@]),
            flatpak: Some(FlatpakView { name: "org.gnome.Cheese"@, is_verified: true, remotes: seq!["fedora"@, "flathub"@] }),
            snap: None,
            other: None,
            pre_install: None,
            post_install: None,
        },
        PackageView {
            name: "Deja Dup - Backups"@,
            desktop_environment: Some(DesktopEnvironment::Gnome),
            arch: Some(seq!["deja-dup"@]),
            debian: Some(seq!["deja-dup"@]),
            fedora: Some(seq!["deja-dup"@]),
            redhat: None,
            ubuntu: Some(seq!["deja-dup"@]),
            flatpak: Some(FlatpakView { name: "org.gnome.DejaDup"@, is_verified: true, remotes: seq!["flathub"@] }),
            snap: None,
            other: None,
            pre_install: None,
            post_install: None,
        },
        PackageView {
            name: "Evince - Document Viewer"@,
            desktop_environment: Some(DesktopEnvironment::Gnome),
            arch: Some(seq!["evince"@]),
            debian: Some(seq!["evince"@]),
            fedora: Some(seq!["evince"@]),
            redhat: Some(seq!["evince"@]),
            ubuntu: Some(seq!["evince"@]),
            flatpak: Some(FlatpakView { name: "org.gnome.Evince"@, is_verified: true, remotes: seq!["fedora"@, "flathub"@] }),
            snap: None,
            other: None,
            pre_install: None,
            post_install: None,
        },
        PackageView {
            name: "Eye of Gnome - Image Viewer"@,
            desktop_environment: Some(DesktopEnvironment::Gnome),
            arch: Some(seq!["eog"@]),
            debian: Some(seq!["eog"@]),
            fedora: Some(seq!["eog"@]),
            redhat: Some(seq!["eog"@]),
            ubuntu: Some(seq!["eog"@]),
            flatpak: Some(FlatpakView { name: "org.gnome.eog"@, is_verified: true, remotes: seq!["fedora"@, "flathub"@] }),
            snap: Some(SnapView { name: "eog"@, is_official: true, is_classic: false, channel: ""@ }),
            other: None,
            pre_install: None,
            post_install: None,
        },
        PackageView {
            name: "Gnome Boxes - VM Manager"@,
            desktop_environment: Some(DesktopEnvironment::Gnome),
            arch: Some(seq!["gnome-boxes"@]),
            debian: Some(seq!["gnome-boxes"@]),
            fedora: Some(seq!["gnome-boxes"@]),
            redhat: None,
            ubuntu: Some(seq!["gnome-boxes"@]),
            flatpak: Some(FlatpakView { name: "org.gnome.Boxes"@, is_verified: true, remotes: seq!["flathub"@] }),
            snap: None,
            other: None,
            pre_install: None,
            post_install: None,
        },
        PackageView {
            name: "Gnome Calculator"@,
            desktop_environment: Some(DesktopEnvironment::Gnome),
            arch: Some(seq!["gnome-calculator"@]),
            debian: Some(seq!["gnome-calculator"@]),
            fedora: Some(seq!["gnome-calculator"@]),
            redhat: Some(seq!["gnome-calculator"@]),
            ubuntu: Some(seq!["gnome-calculator"@]),
            flatpak: Some(FlatpakView { name: "org.gnome.Calculator"@, is_verified: true, remotes: seq!["fedora"@, "flathub"@] }),
            snap: Some(SnapView { name: "gnome-calculator"@, is_official: true, is_classic: false, channel: ""@ }),
            other: None,
            pre_install: None,
            post_install: None,
        },
        PackageView {
            name: "Gnome Calendar"@,
            desktop_environment: Some(DesktopEnvironment::Gnome),
            arch: Some(seq!["gnome-calendar"@]),
            debian: Some(seq!["gnome-calendar"@]),
            fedora: Some(seq!["gnome-calendar"@]),
            redhat: None,
            ubuntu: Some(seq!["gnome-calendar"@]),
            flatpak: Some(FlatpakView { name: "org.gnome.Calendar"@, is_verified: true, remotes: seq!["fedora"@, "flathub"@] }),
            snap: None,
            other: None,
            pre_install: None,
            post_install: None,
        },
        PackageView {
            name: "Gnome Clocks"@,
            desktop_environment: Some(DesktopEnvironment::Gnome),
            arch: Some(seq!["gnome-clocks"@]),
            debian: Some(seq!["gnome-clocks"@]),
            fedora: Some(seq!["gnome-clocks"@]),
            redhat: None,
            ubuntu: Some(seq!["gnome-clocks"@]),
            flatpak: Some(FlatpakView { name: "org.gnome.clocks"@, is_verified: true, remotes: seq!["fedora"@, "flathub"@] }),
            snap: Some(SnapView { name: "gnome-clocks"@, is_official: true, is_classic: false, channel: ""@ }),
            other: None,
            pre_install: None,
            post_install: None,
        },
        PackageView {
            name: "Gnome Camera"@,
            desktop_environment: Some(DesktopEnvironment::Gnome),
            arch: Some(seq!["snapshot"@]),
            debian: None,
            fedora: Some(seq!["snapshot"@]),
            redhat: None,
            ubuntu: Some(seq!["gnome-snapshot"@]),
            flatpak: Some(FlatpakView { name: "org.gnome.Snapshot"@, is_verified: true, remotes: seq!["fedora"@, "flathub"@] }),
            snap: None,
            other: None,
            pre_install: None,
            post_install: None,
        },
        PackageView {
            name: "Gnome Connections"@,
            desktop_environment: Some(DesktopEnvironment::Gnome),
            arch: Some(seq!["gnome-connections"@]),
            debian: Some(seq!["gnome-connections"@]),
            fedora: Some(seq!["gnome-connections"@]),
            redhat: Some(seq!["gnome-connections"@]),
            ubuntu: Some(seq!["gnome-connections"@]),
            flatpak: Some(FlatpakView { name: "org.gnome.Connections"@, is_verified: true, remotes: seq!["fedora"@, "flathub"@] }),
            snap: None,
            other: None,
            pre_install: None,
            post_install: None,
        },
        PackageView {
            name: "Gnome Contacts"@,
            desktop_environment: Some(DesktopEnvironment::Gnome),
            arch: Some(seq!["gnome-contacts"@]),
            debian: Some(seq!["gnome-contacts"@]),
            fedora: Some(seq!["gnome-contacts"@]),
            redhat: None,
            ubuntu: Some(seq!["gnome-contacts"@]),
            flatpak: Some(FlatpakView { name: "org.gnome.Contacts"@, is_verified: true, remotes: seq!["fedora"@, "flathub"@] }),
            snap: None,
            other: None,
            pre_install: None,
            post_install: None,
        },
        PackageView {
            name: "Gnome Image Viewer"@,
            desktop_environment: Some(DesktopEnvironment::Gnome),
            arch: None,
            debian: None,
            fedora: Some(seq!["loupe"@]),
            redhat: None,
            ubuntu: None,
            flatpak: Some(FlatpakView { name: "org.gnome.Loupe"@, is_verified: true, remotes: seq!["fedora"@, "flathub"@] }),
            snap: Some(SnapView { name: "loupe"@, is_official: true, is_classic: false, channel: ""@ }),
            other: None,
            pre_install: None,
            post_install: None,
        },
        PackageView {
            name: "Gnome Maps"@,
            desktop_environment: Some(DesktopEnvironment::Gnome),
            arch: Some(seq!["gnome-maps"@]),
            debian: Some(seq!["gnome-maps"@]),
            fedora: Some(seq!["gnome-maps"@]),
            redhat: None,
            ubuntu: Some(seq!["gnome-maps"@]),
            flatpak: Some(FlatpakView { name: "org.gnome.Maps"@, is_verified: true, remotes: seq!["fedora"@, "flathub"@] }),
            snap: None,
            other: None,
            pre_install: None,
            post_install: None,
        },
        PackageView {
            name: "Gnome Password Safe"@,
            desktop_environment: Some(DesktopEnvironment::Gnome),
            arch: Some(seq!["gnome-passwordsafe"@]),
            debian: Some(seq!["gnome-passwordsafe"@]),
            fedora: Some(seq!["secrets"@]),
            redhat: None,
            ubuntu: Some(seq!["gnome-passwordsafe"@]),
            flatpak: Some(FlatpakView { name: "org.gnome.World.Secrets"@, is_verified: true, remotes: seq!["fedora"@, "flathub"@] }),
            snap: None,
            other: None,
            pre_install: None,
            post_install: None,
        },
        PackageView {
            name: "Gnome Weather"@,
            desktop_environment: Some(DesktopEnvironment::Gnome),
            arch: Some(seq!["gnome-weather"@]),
            debian: Some(seq!["gnome-weather"@]),
            fedora: Some(seq!["gnome-weather"@]),
            redhat: None,
            ubuntu: Some(seq!["gnome-weather"@]),
            flatpak: Some(FlatpakView { name: "org.gnome.Weather"@, is_verified: true, remotes: seq!["fedora"@, "flathub"@] }),
            snap: None,
            other: None,
            pre_install: None,
            post_install: None,
        },
        PackageView {
            name: "GNU Cash - Accounting"@,
            desktop_environment: None,
            arch: Some(seq!["gnucash"@]),
            debian: Some(seq!["gnucash"@]),
            fedora: Some(seq!["gnucash"@]),
            redhat: None,
            ubuntu: Some(seq!["gnucash"@]),
            flatpak: Some(FlatpakView { name: "org.gnucash.GnuCash"@, is_verified: true, remotes: seq!["fedora"@, "flathub"@] }),
            snap: None,
            other: None,
            pre_install: None,
            post_install: None,
        },
        PackageView {
            name: "Gwenview - Image Viewer"@,
            desktop_environment: Some(DesktopEnvironment::KDE),
            arch: Some(seq!["gwenview"@]),
            debian: Some(seq!["gwenview"@]),
            fedora: Some(seq!["gwenview"@]),
            redhat: None,
            ubuntu: Some(seq!["gwenview"@]),
            flatpak: Some(FlatpakView { name: "org.kde.gwenview"@, is_verified: true, remotes: seq!["fedora"@, "flathub"@] }),
            snap: Some(SnapView { name: "gwenview"@, is_official: true, is_classic: false, channel: ""@ }),
            other: None,
            pre_install: None,
            post_install: None,
        },
        PackageView {
            name: "KCalc - Calculator"@,
            desktop_environment: Some(DesktopEnvironment::KDE),
            arch: Some(seq!["kcalc"@]),
            debian: Some(seq!["kcalc"@]),
            fedora: Some(seq!["kcalc"@]),
            redhat: Some(seq!["kcalc"@]),
            ubuntu: Some(seq!["kcalc"@]),
            flatpak: Some(FlatpakView { name: "org.kde.kcalc"@, is_verified: true, remotes: seq!["fedora"@, "flathub"@] }),
            snap: Some(SnapView { name: "kcalc"@, is_official: true, is_classic: false, channel: ""@ }),
            other: None,
            pre_install: None,
            post_install: None,
        },
        PackageView {
            name: "Okular - Document Viewer"@,
            desktop_environment: Some(DesktopEnvironment::KDE),
            arch: Some(seq!["okular"@]),
            debian: Some(seq!["okular"@]),
            fedora: Some(seq!["okular"@]),
            redhat: None,
            ubuntu: Some(seq!["okular"@]),
            flatpak: Some(FlatpakView { name: "org.kde.okular"@, is_verified: true, remotes: seq!["fedora"@, "flathub"@] }),
            snap: Some(SnapView { name: "okular"@, is_official: true, is_classic: false, channel: ""@ }),
            other: None,
            pre_install: None,
            post_install: None,
        },
        PackageView {
            name: "Transmission (GTK) - Torrent"@,
            desktop_environment: Some(DesktopEnvironment::Gnome),
            arch: Some(seq!["transmission-gtk"@]),
            debian: Some(seq!["transmission-gtk"@]),
            fedora: Some(seq!["transmission-gtk"@]),
            redhat: None,
            ubuntu: Some(seq!["transmission-gtk"@]),
            flatpak: Some(FlatpakView { name: "com.transmissionbt.Transmission"@, is_verified: false, remotes: seq!["fedora"@, "flathub"@] }),
            snap: None,
            other: None,
            pre_install: None,
            post_install: None,
        },
        PackageView {
            name: "Transmission (QT) - Torrent"@,
            desktop_environment: Some(DesktopEnvironment::KDE),
            arch: Some(seq!["transmission-qt"@]),
            debian: Some(seq!["transmission-qt"@]),
            fedora: Some(seq!["transmission-qt"@]),
            redhat: None,
            ubuntu: Some(seq!["transmission-qt"@]),
            flatpak: Some(FlatpakView { name: "com.transmissionbt.Transmission"@, is_verified: false, remotes: seq!["fedora"@, "flathub"@] }),
            snap: None,
            other: None,
            pre_install: None,
            post_install: None,
        },
        PackageView {
            name: "Virt Manager"@,
            desktop_environment: None,
            arch: Some(seq!["virt-manager"@]),
            debian: Some(seq!["virt-manager"@]),
            fedora: Some(seq!["virt-manager"@]),
            redhat: Some(seq!["virt-manager"@]),
            ubuntu: Some(seq!["virt-manager"@]),
            flatpak: None,
            snap: None,
            other: None,
            pre_install: None,
            post_install: None,
        },
    ]
}

/// The packages of the Applications category.
pub fn applications_packages() -> (r: Vec<Package>)
    ensures
        package_views(r@) == applications_spec(),
{
    let r = vec![
        Package {
            name: "Cheese - Webcam",
            desktop_environment: Some(DesktopEnvironment::Gnome),
            repository: RepoPackages {
                arch: Some(vec!["cheese"]),
                debian: Some(vec!["cheese"]),
                fedora: Some(vec!["cheese"]),
                redhat: Some(vec!["cheese"]),
                ubuntu: Some(vec!["cheese"]),
            },
            flatpak: Some(Flatpak { name: "org.gnome.Cheese", is_verified: true, remotes: vec!["fedora", "flathub"] }),
            snap: None,
            other: None,
            pre_install: None,
            post_install: None,
        },
        Package {
            name: "Deja Dup - Backups",
            desktop_environment: Some(DesktopEnvironment::Gnome),
            repository: RepoPackages {
                arch: Some(vec!["deja-dup"]),
                debian: Some(vec!["deja-dup"]),
                fedora: Some(vec!["deja-dup"]),
                redhat: None,
                ubuntu: Some(vec!["deja-dup"]),
            },
            flatpak: Some(Flatpak { name: "org.gnome.DejaDup", is_verified: true, remotes: vec!["flathub"] }),
            snap: None,
            other: None,
            pre_install: None,
            post_install: None,
        },
        Package {
            name: "Evince - Document Viewer",
            desktop_environment: Some(DesktopEnvironment::Gnome),
            repository: RepoPackages {
                arch: Some(vec!["evince"]),
                debian: Some(vec!["evince"]),
                fedora: Some(vec!["evince"]),
                redhat: Some(vec!["evince"]),
                ubuntu: Some(vec!["evince"]),
            },
            flatpak: Some(Flatpak { name: "org.gnome.Evince", is_verified: true, remotes: vec!["fedora", "flathub"] }),
            snap: None,
            other: None,
            pre_install: None,
            post_install: None,
        },
        Package {
            name: "Eye of Gnome - Image Viewer",
            desktop_environment: Some(DesktopEnvironment::Gnome),
            repository: RepoPackages {
                arch: Some(vec!["eog"]),
                debian: Some(vec!["eog"]),
                fedora: Some(vec!["eog"]),
                redhat: Some(vec!["eog"]),
                ubuntu: Some(vec!["eog"]),
            },
            flatpak: Some(Flatpak { name: "org.gnome.eog", is_verified: true, remotes: vec!["fedora", "flathub"] }),
            snap: Some(Snap { name: "eog", is_official: true, is_classic: false, channel: "" }),
            other: None,
            pre_install: None,
            post_install: None,
        },
        Package {
            name: "Gnome Boxes - VM Manager",
            desktop_environment: Some(DesktopEnvironment::Gnome),
            repository: RepoPackages {
                arch: Some(vec!["gnome-boxes"]),
                debian: Some(vec!["gnome-boxes"]),
                fedora: Some(vec!["gnome-boxes"]),
                redhat: None,
                ubuntu: Some(vec!["gnome-boxes"]),
            },
            flatpak: Some(Flatpak { name: "org.gnome.Boxes", is_verified: true, remotes: vec!["flathub"] }),
            snap: None,
            other: None,
            pre_install: None,
            post_install: None,
        },
        Package {
            name: "Gnome Calculator",
            desktop_environment: Some(DesktopEnvironment::Gnome),
            repository: RepoPackages {
                arch: Some(vec!["gnome-calculator"]),
                debian: Some(vec!["gnome-calculator"]),
                fedora: Some(vec!["gnome-calculator"]),
                redhat: Some(vec!["gnome-calculator"]),
                ubuntu: Some(vec!["gnome-calculator"]),
            },
            flatpak: Some(Flatpak { name: "org.gnome.Calculator", is_verified: true, remotes: vec!["fedora", "flathub"] }),
            snap: Some(Snap { name: "gnome-calculator", is_official: true, is_classic: false, channel: "" }),
            other: None,
            pre_install: None,
            post_install: None,
        },
        Package {
            name: "Gnome Calendar",
            desktop_environment: Some(DesktopEnvironment::Gnome),
            repository: RepoPackages {
                arch: Some(vec!["gnome-calendar"]),
                debian: Some(vec!["gnome-calendar"]),
                fedora: Some(vec!["gnome-calendar"]),
                redhat: None,
                ubuntu: Some(vec!["gnome-calendar"]),
            },
            flatpak: Some(Flatpak { name: "org.gnome.Calendar", is_verified: true, remotes: vec!["fedora", "flathub"] }),
            snap: None,
            other: None,
            pre_install: None,
            post_install: None,
        },
        Package {
            name: "Gnome Clocks",
            desktop_environment: Some(DesktopEnvironment::Gnome),
            repository: RepoPackages {
                arch: Some(vec!["gnome-clocks"]),
                debian: Some(vec!["gnome-clocks"]),
                fedora: Some(vec!["gnome-clocks"]),
                redhat: None,
                ubuntu: Some(vec!["gnome-clocks"]),
            },
            flatpak: Some(Flatpak { name: "org.gnome.clocks", is_verified: true, remotes: vec!["fedora", "flathub"] }),
            snap: Some(Snap { name: "gnome-clocks", is_official: true, is_classic: false, channel: "" }),
            other: None,
            pre_install: None,
            post_install: None,
        },
        Package {
            name: "Gnome Camera",
            desktop_environment: Some(DesktopEnvironment::Gnome),
            repository: RepoPackages {
                arch: Some(vec!["snapshot"]),
                debian: None,
                fedora: Some(vec!["snapshot"]),
                redhat: None,
                ubuntu: Some(vec!["gnome-snapshot"]),
            },
            flatpak: Some(Flatpak { name: "org.gnome.Snapshot", is_verified: true, remotes: vec!["fedora", "flathub"] }),
            snap: None,
            other: None,
            pre_install: None,
            post_install: None,
        },
        Package {
            name: "Gnome Connections",
            desktop_environment: Some(DesktopEnvironment::Gnome),
            repository: RepoPackages {
                arch: Some(vec!["gnome-connections"]),
                debian: Some(vec!["gnome-connections"]),
                fedora: Some(vec!["gnome-connections"]),
                redhat: Some(vec!["gnome-connections"]),
                ubuntu: Some(vec!["gnome-connections"]),
            },
            flatpak: Some(Flatpak { name: "org.gnome.Connections", is_verified: true, remotes: vec!["fedora", "flathub"] }),
            snap: None,
            other: None,
            pre_install: None,
            post_install: None,
        },
        Package {
            name: "Gnome Contacts",
            desktop_environment: Some(DesktopEnvironment::Gnome),
            repository: RepoPackages {
                arch: Some(vec!["gnome-contacts"]),
                debian: Some(vec!["gnome-contacts"]),
                fedora: Some(vec!["gnome-contacts"]),
                redhat: None,
                ubuntu: Some(vec!["gnome-contacts"]),
            },
            flatpak: Some(Flatpak { name: "org.gnome.Contacts", is_verified: true, remotes: vec!["fedora", "flathub"] }),
            snap: None,
            other: None,
            pre_install: None,
            post_install: None,
        },
        Package {
            name: "Gnome Image Viewer",
            desktop_environment: Some(DesktopEnvironment::Gnome),
            repository: RepoPackages {
                arch: None,
                debian: None,
                fedora: Some(vec!["loupe"]),
                redhat: None,
                ubuntu: None,
            },
            flatpak: Some(Flatpak { name: "org.gnome.Loupe", is_verified: true, remotes: vec!["fedora", "flathub"] }),
            snap: Some(Snap { name: "loupe", is_official: true, is_classic: false, channel: "" }),
            other: None,
            pre_install: None,
            post_install: None,
        },
        Package {
            name: "Gnome Maps",
            desktop_environment: Some(DesktopEnvironment::Gnome),
            repository: RepoPackages {
                arch: Some(vec!["gnome-maps"]),
                debian: Some(vec!["gnome-maps"]),
                fedora: Some(vec!["gnome-maps"]),
                redhat: None,
                ubuntu: Some(vec!["gnome-maps"]),
            },
            flatpak: Some(Flatpak { name: "org.gnome.Maps", is_verified: true, remotes: vec!["fedora", "flathub"] }),
            snap: None,
            other: None,
            pre_install: None,
            post_install: None,
        },
        Package {
            name: "Gnome Password Safe",
            desktop_environment: Some(DesktopEnvironment::Gnome),
            repository: RepoPackages {
                arch: Some(vec!["gnome-passwordsafe"]),
                debian: Some(vec!["gnome-passwordsafe"]),
                fedora: Some(vec!["secrets"]),
                redhat: None,
                ubuntu: Some(vec!["gnome-passwordsafe"]),
            },
            flatpak: Some(Flatpak { name: "org.gnome.World.Secrets", is_verified: true, remotes: vec!["fedora", "flathub"] }),
            snap: None,
            other: None,
            pre_install: None,
            post_install: None,
        },
        Package {
            name: "Gnome Weather",
            desktop_environment: Some(DesktopEnvironment::Gnome),
            repository: RepoPackages {
                arch: Some(vec!["gnome-weather"]),
                debian: Some(vec!["gnome-weather"]),
                fedora: Some(vec!["gnome-weather"]),
                redhat: None,
                ubuntu: Some(vec!["gnome-weather"]),
            },
            flatpak: Some(Flatpak { name: "org.gnome.Weather", is_verified: true, remotes: vec!["fedora", "flathub"] }),
            snap: None,
            other: None,
            pre_install: None,
            post_install: None,
        },
        Package {
            name: "GNU Cash - Accounting",
            desktop_environment: None,
            repository: RepoPackages {
                arch: Some(vec!["gnucash"]),
                debian: Some(vec!["gnucash"]),
                fedora: Some(vec!["gnucash"]),
                redhat: None,
                ubuntu: Some(vec!["gnucash"]),
            },
            flatpak: Some(Flatpak { name: "org.gnucash.GnuCash", is_verified: true, remotes: vec!["fedora", "flathub"] }),
            snap: None,
            other: None,
            pre_install: None,
            post_install: None,
        },
        Package {
            name: "Gwenview - Image Viewer",
            desktop_environment: Some(DesktopEnvironment::KDE),
            repository: RepoPackages {
                arch: Some(vec!["gwenview"]),
                debian: Some(vec!["gwenview"]),
                fedora: Some(vec!["gwenview"]),
                redhat: None,
                ubuntu: Some(vec!["gwenview"]),
            },
            flatpak: Some(Flatpak { name: "org.kde.gwenview", is_verified: true, remotes: vec!["fedora", "flathub"] }),
            snap: Some(Snap { name: "gwenview", is_official: true, is_classic: false, channel: "" }),
            other: None,
            pre_install: None,
            post_install: None,
        },
        Package {
            name: "KCalc - Calculator",
            desktop_environment: Some(DesktopEnvironment::KDE),
            repository: RepoPackages {
                arch: Some(vec!["kcalc"]),
                debian: Some(vec!["kcalc"]),
                fedora: Some(vec!["kcalc"]),
                redhat: Some(vec!["kcalc"]),
                ubuntu: Some(vec!["kcalc"]),
            },
            flatpak: Some(Flatpak { name: "org.kde.kcalc", is_verified: true, remotes: vec!["fedora", "flathub"] }),
            snap: Some(Snap { name: "kcalc", is_official: true, is_classic: false, channel: "" }),
            other: None,
            pre_install: None,
            post_install: None,
        },
        Package {
            name: "Okular - Document Viewer",
            desktop_environment: Some(DesktopEnvironment::KDE),
            repository: RepoPackages {
                arch: Some(vec!["okular"]),
                debian: Some(vec!["okular"]),
                fedora: Some(vec!["okular"]),
                redhat: None,
                ubuntu: Some(vec!["okular"]),
            },
            flatpak: Some(Flatpak { name: "org.kde.okular", is_verified: true, remotes: vec!["fedora", "flathub"] }),
            snap: Some(Snap { name: "okular", is_official: true, is_classic: false, channel: "" }),
            other: None,
            pre_install: None,
            post_install: None,
        },
        Package {
            name: "Transmission (GTK) - Torrent",
            desktop_environment: Some(DesktopEnvironment::Gnome),
            repository: RepoPackages {
                arch: Some(vec!["transmission-gtk"]),
                debian: Some(vec!["transmission-gtk"]),
                fedora: Some(vec!["transmission-gtk"]),
                redhat: None,
                ubuntu: Some(vec!["transmission-gtk"]),
            },
            flatpak: Some(Flatpak { name: "com.transmissionbt.Transmission", is_verified: false, remotes: vec!["fedora", "flathub"] }),
            snap: None,
            other: None,
            pre_install: None,
            post_install: None,
        },
        Package {
            name: "Transmission (QT) - Torrent",
            desktop_environment: Some(DesktopEnvironment::KDE),
            repository: RepoPackages {
                arch: Some(vec!["transmission-qt"]),
                debian: Some(vec!["transmission-qt"]),
                fedora: Some(vec!["transmission-qt"]),
                redhat: None,
                ubuntu: Some(vec!["transmission-qt"]),
            },
            flatpak: Some(Flatpak { name: "com.transmissionbt.Transmission", is_verified: false, remotes: vec!["fedora", "flathub"] }),
            snap: None,
            other: None,
            pre_install: None,
            post_install: None,
        },
        Package {
            name: "Virt Manager",
            desktop_environment: None,
            repository: RepoPackages {
                arch: Some(vec!["virt-manager"]),
                debian: Some(vec!["virt-manager"]),
                fedora: Some(vec!["virt-manager"]),
                redhat: Some(vec!["virt-manager"]),
                ubuntu: Some(vec!["virt-manager"]),
            },
            flatpak: None,
            snap: None,
            other: None,
            pre_install: None,
            post_install: None,
        },
    ];
    assert(package_views(r@) =~~= applications_spec());
    r
}

/// The packages of the Browsers category, in menu order.
pub open spec fn browsers_spec() -> Seq<PackageView> {
    seq![
        PackageView {
            name: "Chromium"@,
            desktop_environment: None,
            arch: Some(seq!["chromium"@]),
            debian: Some(seq!["chromium"@]),
            fedora: Some(seq!["chromium"@]),
            redhat: None,
            ubuntu: None,
            flatpak: Some(FlatpakView { name: "org.chromium.Chromium"@, is_verified: false, remotes: seq!["flathub"@] }),
            snap: Some(SnapView { name: "chromium"@, is_official: true, is_classic: false, channel: ""@ }),
            other: None,
            pre_install: None,
            post_install: None,
        },
        PackageView {
            name: "Epiphany - Gnome Web"@,
            desktop_environment: Some(DesktopEnvironment::Gnome),
            arch: Some(seq!["epiphany"@]),
            debian: Some(seq!["epiphany-browser"@]),
            fedora: Some(seq!["epiphany"@]),
            redhat: None,
            ubuntu: Some(seq!["epiphany-browser"@]),
            flatpak: Some(FlatpakView { name: "org.gnome.Epiphany"@, is_verified: true, remotes: seq!["fedora"@, "flathub"@] }),
            snap: None,
            other: None,
            pre_install: None,
            post_install: None,
        },
        PackageView {
            name: "Firefox"@,
            desktop_environment: None,
            arch: Some(seq!["firefox"@]),
            debian: None,
            fedora: Some(seq!["firefox"@]),
            redhat: None,
            ubuntu: None,
            flatpak: Some(FlatpakView { name: "org.mozilla.firefox"@, is_verified: true, remotes: seq!["flathub"@] }),
            snap: Some(SnapView { name: "firefox"@, is_official: true, is_classic: false, channel: ""@ }),
            other: None,
            pre_install: None,
            post_install: None,
        },
        PackageView {
            name: "Firefox ESR"@,
            desktop_environment: None,
            arch: None,
            debian: Some(seq!["firefox-esr"@]),
            fedora: None,
            redhat: Some(seq!["firefox"@]),
            ubuntu: None,
            flatpak: None,
            snap: Some(SnapView { name: "firefox"@, is_official: true, is_classic: false, channel: "esr-stable"@ }),
            other: None,
            pre_install: None,
            post_install: None,
        },
        PackageView {
            name: "IceCat - GNU Browser"@,
            desktop_environment: None,
            arch: None,
            debian: None,
            fedora: Some(seq!["icecat"@]),
            redhat: None,
            ubuntu: None,
            flatpak: None,
            snap: None,
            other: None,
            pre_install: None,
            post_install: None,
        },
        PackageView {
            name: "TOR - The Onion Router"@,
            desktop_environment: None,
            arch: None,
            debian: None,
            fedora: None,
            redhat: None,
            ubuntu: None,
            flatpak: Some(FlatpakView { name: "com.github.micahflee.torbrowser-launcher"@, is_verified: false, remotes: seq!["flathub"@] }),
            snap: None,
            other: None,
            pre_install: None,
            post_install: None,
        },
    ]
}

/// The packages of the Browsers category.
pub fn browsers_packages() -> (r: Vec<Package>)
    ensures
        package_views(r@) == browsers_spec(),
{
    let r = vec![
        Package {
            name: "Chromium",
            desktop_environment: None,
            repository: RepoPackages {
                arch: Some(vec!["chromium"]),
                debian: Some(vec!["chromium"]),
                fedora: Some(vec!["chromium"]),
                redhat: None,
                ubuntu: None,
            },
            flatpak: Some(Flatpak { name: "org.chromium.Chromium", is_verified: false, remotes: vec!["flathub"] }),
            snap: Some(Snap { name: "chromium", is_official: true, is_classic: false, channel: "" }),
            other: None,
            pre_install: None,
            post_install: None,
        },
        Package {
            name: "Epiphany - Gnome Web",
            desktop_environment: Some(DesktopEnvironment::Gnome),
            repository: RepoPackages {
                arch: Some(vec!["epiphany"]),
                debian: Some(vec!["epiphany-browser"]),
                fedora: Some(vec!["epiphany"]),
                redhat: None,
                ubuntu: Some(vec!["epiphany-browser"]),
            },
            flatpak: Some(Flatpak { name: "org.gnome.Epiphany", is_verified: true, remotes: vec!["fedora", "flathub"] }),
            snap: None,
            other: None,
            pre_install: None,
            post_install: None,
        },
        Package {
            name: "Firefox",
            desktop_environment: None,
            repository: RepoPackages {
                arch: Some(vec!["firefox"]),
                debian: None,
                fedora: Some(vec!["firefox"]),
                redhat: None,
                ubuntu: None,
            },
            flatpak: Some(Flatpak { name: "org.mozilla.firefox", is_verified: true, remotes: vec!["flathub"] }),
            snap: Some(Snap { name: "firefox", is_official: true, is_classic: false, channel: "" }),
            other: None,
            pre_install: None,
            post_install: None,
        },
        Package {
            name: "Firefox ESR",
            desktop_environment: None,
            repository: RepoPackages {
                arch: None,
                debian: Some(vec!["firefox-esr"]),
                fedora: None,
                redhat: Some(vec!["firefox"]),
                ubuntu: None,
            },
            flatpak: None,
            snap: Some(Snap { name: "firefox", is_official: true, is_classic: false, channel: "esr-stable" }),
            other: None,
            pre_install: None,
            post_install: None,
        },
        Package {
            name: "IceCat - GNU Browser",
            desktop_environment: None,
            repository: RepoPackages {
                arch: None,
                debian: None,
                fedora: Some(vec!["icecat"]),
                redhat: None,
                ubuntu: None,
            },
            flatpak: None,
            snap: None,
            other: None,
            pre_install: None,
            post_install: None,
        },
        Package {
            name: "TOR - The Onion Router",
            desktop_environment: None,
            repository: RepoPackages {
                arch: None,
                debian: None,
                fedora: None,
                redhat: None,
                ubuntu: None,
            },
            flatpak: Some(Flatpak { name: "com.github.micahflee.torbrowser-launcher", is_verified: false, remotes: vec!["flathub"] }),
            snap: None,
            other: None,
            pre_install: None,
            post_install: None,
        },
    ];
    assert(package_views(r@) =~~= browsers_spec());
    r
}

/// The packages of the Communication category, in menu order.
pub open spec fn communication_spec() -> Seq<PackageView> {
    seq![
        PackageView {
            name: "Discord"@,
            desktop_environment: None,
            arch: Some(seq!["discord"@]),
            debian: None,
            fedora: None,
            redhat: None,
            ubuntu: None,
            flatpak: Some(FlatpakView { name: "com.discordapp.Discord"@, is_verified: true, remotes: seq!["flathub"@] }),
            snap: Some(SnapView { name: "discord"@, is_official: false, is_classic: false, channel: ""@ }),
            other: None,
            pre_install: None,
            post_install: None,
        },
        PackageView {
            name: "Thunderbird"@,
            desktop_environment: None,
            arch: Some(seq!["thunderbird"@]),
            debian: Some(seq!["thunderbird"@]),
            fedora: Some(seq!["thunderbird"@]),
            redhat: Some(seq!["thunderbird"@]),
            ubuntu: Some(seq!["thunderbird"@]),
            flatpak: Some(FlatpakView { name: "org.mozilla.Thunderbird"@, is_verified: true, remotes: seq!["fedora"@, "flathub"@] }),
            snap: Some(SnapView { name: "thunderbird"@, is_official: true, is_classic: false, channel: ""@ }),
            other: None,
            pre_install: None,
            post_install: None,
        },
    ]
}

/// The packages of the Communication category.
pub fn communication_packages() -> (r: Vec<Package>)
    ensures
        package_views(r@) == communication_spec(),
{
    let r = vec![
        Package {
            name: "Discord",
            desktop_environment: None,
            repository: RepoPackages {
                arch: Some(vec!["discord"]),
                debian: None,
                fedora: None,
                redhat: None,
                ubuntu: None,
            },
            flatpak: Some(Flatpak { name: "com.discordapp.Discord", is_verified: true, remotes: vec!["flathub"] }),
            snap: Some(Snap { name: "discord", is_official: false, is_classic: false, channel: "" }),
            other: None,
            pre_install: None,
            post_install: None,
        },
        Package {
            name: "Thunderbird",
            desktop_environment: None,
            repository: RepoPackages {
                arch: Some(vec!["thunderbird"]),
                debian: Some(vec!["thunderbird"]),
                fedora: Some(vec!["thunderbird"]),
                redhat: Some(vec!["thunderbird"]),
                ubuntu: Some(vec!["thunderbird"]),
            },
            flatpak: Some(Flatpak { name: "org.mozilla.Thunderbird", is_verified: true, remotes: vec!["fedora", "flathub"] }),
            snap: Some(Snap { name: "thunderbird", is_official: true, is_classic: false, channel: "" }),
            other: None,
            pre_install: None,
            post_install: None,
        },
    ];
    assert(package_views(r@) =~~= communication_spec());
    r
}

/// The packages of the Games category, in menu order.
pub open spec fn games_spec() -> Seq<PackageView> {
    seq![
        PackageView {
            name: "0 A.D."@,
            desktop_environment: None,
            arch: Some(seq!["0ad"@]),
            debian: Some(seq!["0ad"@]),
            fedora: Some(seq!["0ad"@]),
            redhat: None,
            ubuntu: Some(seq!["0ad"@]),
            flatpak: Some(FlatpakView { name: "com.play0ad.zeroad"@, is_verified: false, remotes: seq!["fedora"@, "flathub"@] }),
            snap: Some(SnapView { name: "0ad"@, is_official: true, is_classic: false, channel: ""@ }),
            other: None,
            pre_install: None,
            post_install: None,
        },
        PackageView {
            name: "Gnome 2048"@,
            desktop_environment: Some(DesktopEnvironment::Gnome),
            arch: Some(seq!["gnome-2048"@]),
            debian: Some(seq!["gnome-2048"@]),
            fedora: Some(seq!["gnome-2048"@]),
            redhat: None,
            ubuntu: Some(seq!["gnome-2048"@]),
            flatpak: Some(FlatpakView { name: "org.gnome.TwentyFortyEight"@, is_verified: true, remotes: seq!["fedora"@, "flathub"@] }),
            snap: None,
            other: None,
            pre_install: None,
            post_install: None,
        },
        PackageView {
            name: "Gnome Chess"@,
            desktop_environment: Some(DesktopEnvironment::Gnome),
            arch: Some(seq!["gnome-chess"@]),
            debian: Some(seq!["gnome-chess"@]),
            fedora: Some(seq!["gnome-chess"@]),
            redhat: None,
            ubuntu: Some(seq!["gnome-chess"@]),
            flatpak: Some(FlatpakView { name: "org.gnome.Chess"@, is_verified: true, remotes: seq!["fedora"@, "flathub"@] }),
            snap: None,
            other: None,
            pre_install: None,
            post_install: None,
        },
        PackageView {
            name: "Gnome Mines"@,
            desktop_environment: Some(DesktopEnvironment::Gnome),
            arch: Some(seq!["gnome-mines"@]),
            debian: Some(seq!["gnome-mines"@]),
            fedora: Some(seq!["gnome-mines"@]),
            redhat: None,
            ubuntu: Some(seq!["gnome-mines"@]),
            flatpak: Some(FlatpakView { name: "org.gnome.Mines"@, is_verified: true, remotes: seq!["fedora"@, "flathub"@] }),
            snap: None,
            other: None,
            pre_install: None,
            post_install: None,
        },
        PackageView {
            name: "Gnome Solitaire"@,
            desktop_environment: Some(DesktopEnvironment::Gnome),
            arch: Some(seq!["aisleriot"@]),
            debian: Some(seq!["aisleriot"@]),
            fedora: Some(seq!["aisleriot"@]),
            redhat: None,
            ubuntu: Some(seq!["aisleriot"@]),
            flatpak: Some(FlatpakView { name: "org.gnome.Aisleriot"@, is_verified: false, remotes: seq!["fedora"@, "flathub"@] }),
            snap: None,
            other: None,
            pre_install: None,
            post_install: None,
        },
        PackageView {
            name: "Gnome Sudoku"@,
            desktop_environment: Some(DesktopEnvironment::Gnome),
            arch: Some(seq!["gnome-sudoku"@]),
            debian: Some(seq!["gnome-sudoku"@]),
            fedora: Some(seq!["gnome-sudoku"@]),
            redhat: None,
            ubuntu: Some(seq!["gnome-sudoku"@]),
            flatpak: Some(FlatpakView { name: "org.gnome.Sudoku"@, is_verified: true, remotes: seq!["fedora"@, "flathub"@] }),
            snap: Some(SnapView { name: "gnome-sudoku"@, is_official: true, is_classic: false, channel: ""@ }),
            other: None,
            pre_install: None,
            post_install: None,
        },
        PackageView {
            name: "Gnome Tetris"@,
            desktop_environment: Some(DesktopEnvironment::Gnome),
            arch: Some(seq!["quadrapassel"@]),
            debian: Some(seq!["quadrapassel"@]),
            fedora: Some(seq!["quadrapassel"@]),
            redhat: None,
            ubuntu: Some(seq!["quadrapassel"@]),
            flatpak: Some(FlatpakView { name: "org.gnome.Quadrapassel"@, is_verified: false, remotes: seq!["fedora"@, "flathub"@] }),
            snap: Some(SnapView { name: "quadrapassel"@, is_official: true, is_classic: false, channel: ""@ }),
            other: None,
            pre_install: None,
            post_install: None,
        },
        PackageView {
            name: "KDE Chess"@,
            desktop_environment: Some(DesktopEnvironment::KDE),
            arch: Some(seq!["knights"@]),
            debian: Some(seq!["knights"@]),
            fedora: Some(seq!["knights"@]),
            redhat: None,
            ubuntu: Some(seq!["knights"@]),
            flatpak: None,
            snap: Some(SnapView { name: "knights"@, is_official: true, is_classic: false, channel: ""@ }),
            other: None,
            pre_install: None,
            post_install: None,
        },
        PackageView {
            name: "KDE Mines"@,
            desktop_environment: Some(DesktopEnvironment::KDE),
            arch: Some(seq!["kmines"@]),
            debian: Some(seq!["kmines"@]),
            fedora: Some(seq!["kmines"@]),
            redhat: Some(seq!["kmines"@]),
            ubuntu: Some(seq!["kmines"@]),
            flatpak: None,
            snap: Some(SnapView { name: "kmines"@, is_official: true, is_classic: false, channel: ""@ }),
            other: None,
            pre_install: None,
            post_install: None,
        },
        PackageView {
            name: "KDE Sudoku"@,
            desktop_environment: Some(DesktopEnvironment::KDE),
            arch: Some(seq!["ksudoku"@]),
            debian: Some(seq!["ksudoku"@]),
            fedora: Some(seq!["ksudoku"@]),
            redhat: Some(seq!["ksudoku"@]),
            ubuntu: Some(seq!["ksudoku"@]),
            flatpak: Some(FlatpakView { name: "org.kde.ksudoku"@, is_verified: true, remotes: seq!["fedora"@, "flathub"@] }),
            snap: Some(SnapView { name: "ksudoku"@, is_official: true, is_classic: false, channel: ""@ }),
            other: None,
            pre_install: None,
            post_install: None,
        },
        PackageView {
            name: "Steam"@,
            desktop_environment: None,
            arch: Some(seq!["steam"@]),
            debian: None,
            fedora: Some(seq!["steam"@]),
            redhat: None,
            ubuntu: None,
            flatpak: Some(FlatpakView { name: "com.valvesoftware.Steam"@, is_verified: false, remotes: seq!["flathub"@] }),
            snap: Some(SnapView { name: "steam"@, is_official: true, is_classic: false, channel: ""@ }),
            other: None,
            pre_install: Some(InstallHook::SteamRepository),
            post_install: None,
        },
        PackageView {
            name: "Super Tux Kart"@,
            desktop_environment: None,
            arch: Some(seq!["supertuxkart"@]),
            debian: Some(seq!["supertuxkart"@]),
            fedora: Some(seq!["supertuxkart"@]),
            redhat: None,
            ubuntu: Some(seq!["supertuxkart"@]),
            flatpak: Some(FlatpakView { name: "net.supertuxkart.SuperTuxKart"@, is_verified: false, remotes: seq!["fedora"@, "flathub"@] }),
            snap: Some(SnapView { name: "supertuxkart"@, is_official: false, is_classic: false, channel: ""@ }),
            other: None,
            pre_install: None,
            post_install: None,
        },
        PackageView {
            name: "Xonotic"@,
            desktop_environment: None,
            arch: Some(seq!["xonotic"@]),
            debian: None,
            fedora: Some(seq!["xonotic"@]),
            redhat: None,
            ubuntu: None,
            flatpak: Some(FlatpakView { name: "org.xonotic.Xonotic"@, is_verified: false, remotes: seq!["flathub"@] }),
            snap: Some(SnapView { name: "xonotic"@, is_official: false, is_classic: false, channel: ""@ }),
            other: None,
            pre_install: None,
            post_install: None,
        },
    ]
}

/// The packages of the Games category.
pub fn games_packages() -> (r: Vec<Package>)
    ensures
        package_views(r@) == games_spec(),
{
    let r = vec![
        Package {
            name: "0 A.D.",
            desktop_environment: None,
            repository: RepoPackages {
                arch: Some(vec!["0ad"]),
                debian: Some(vec!["0ad"]),
                fedora: Some(vec!["0ad"]),
                redhat: None,
                ubuntu: Some(vec!["0ad"]),
            },
            flatpak: Some(Flatpak { name: "com.play0ad.zeroad", is_verified: false, remotes: vec!["fedora", "flathub"] }),
            snap: Some(Snap { name: "0ad", is_official: true, is_classic: false, channel: "" }),
            other: None,
            pre_install: None,
            post_install: None,
        },
        Package {
            name: "Gnome 2048",
            desktop_environment: Some(DesktopEnvironment::Gnome),
            repository: RepoPackages {
                arch: Some(vec!["gnome-2048"]),
                debian: Some(vec!["gnome-2048"]),
                fedora: Some(vec!["gnome-2048"]),
                redhat: None,
                ubuntu: Some(vec!["gnome-2048"]),
            },
            flatpak: Some(Flatpak { name: "org.gnome.TwentyFortyEight", is_verified: true, remotes: vec!["fedora", "flathub"] }),
            snap: None,
            other: None,
            pre_install: None,
            post_install: None,
        },
        Package {
            name: "Gnome Chess",
            desktop_environment: Some(DesktopEnvironment::Gnome),
            repository: RepoPackages {
                arch: Some(vec!["gnome-chess"]),
                debian: Some(vec!["gnome-chess"]),
                fedora: Some(vec!["gnome-chess"]),
                redhat: None,
                ubuntu: Some(vec!["gnome-chess"]),
            },
            flatpak: Some(Flatpak { name: "org.gnome.Chess", is_verified: true, remotes: vec!["fedora", "flathub"] }),
            snap: None,
            other: None,
            pre_install: None,
            post_install: None,
        },
        Package {
            name: "Gnome Mines",
            desktop_environment: Some(DesktopEnvironment::Gnome),
            repository: RepoPackages {
                arch: Some(vec!["gnome-mines"]),
                debian: Some(vec!["gnome-mines"]),
                fedora: Some(vec!["gnome-mines"]),
                redhat: None,
                ubuntu: Some(vec!["gnome-mines"]),
            },
            flatpak: Some(Flatpak { name: "org.gnome.Mines", is_verified: true, remotes: vec!["fedora", "flathub"] }),
            snap: None,
            other: None,
            pre_install: None,
            post_install: None,
        },
        Package {
            name: "Gnome Solitaire",
            desktop_environment: Some(DesktopEnvironment::Gnome),
            repository: RepoPackages {
                arch: Some(vec!["aisleriot"]),
                debian: Some(vec!["aisleriot"]),
                fedora: Some(vec!["aisleriot"]),
                redhat: None,
                ubuntu: Some(vec!["aisleriot"]),
            },
            flatpak: Some(Flatpak { name: "org.gnome.Aisleriot", is_verified: false, remotes: vec!["fedora", "flathub"] }),
            snap: None,
            other: None,
            pre_install: None,
            post_install: None,
        },
        Package {
            name: "Gnome Sudoku",
            desktop_environment: Some(DesktopEnvironment::Gnome),
            repository: RepoPackages {
                arch: Some(vec!["gnome-sudoku"]),
                debian: Some(vec!["gnome-sudoku"]),
                fedora: Some(vec!["gnome-sudoku"]),
                redhat: None,
                ubuntu: Some(vec!["gnome-sudoku"]),
            },
            flatpak: Some(Flatpak { name: "org.gnome.Sudoku", is_verified: true, remotes: vec!["fedora", "flathub"] }),
            snap: Some(Snap { name: "gnome-sudoku", is_official: true, is_classic: false, channel: "" }),
            other: None,
            pre_install: None,
            post_install: None,
        },
        Package {
            name: "Gnome Tetris",
            desktop_environment: Some(DesktopEnvironment::Gnome),
            repository: RepoPackages {
                arch: Some(vec!["quadrapassel"]),
                debian: Some(vec!["quadrapassel"]),
                fedora: Some(vec!["quadrapassel"]),
                redhat: None,
                ubuntu: Some(vec!["quadrapassel"]),
            },
            flatpak: Some(Flatpak { name: "org.gnome.Quadrapassel", is_verified: false, remotes: vec!["fedora", "flathub"] }),
            snap: Some(Snap { name: "quadrapassel", is_official: true, is_classic: false, channel: "" }),
            other: None,
            pre_install: None,
            post_install: None,
        },
        Package {
            name: "KDE Chess",
            desktop_environment: Some(DesktopEnvironment::KDE),
            repository: RepoPackages {
                arch: Some(vec!["knights"]),
                debian: Some(vec!["knights"]),
                fedora: Some(vec!["knights"]),
                redhat: None,
                ubuntu: Some(vec!["knights"]),
            },
            flatpak: None,
            snap: Some(Snap { name: "knights", is_official: true, is_classic: false, channel: "" }),
            other: None,
            pre_install: None,
            post_install: None,
        },
        Package {
            name: "KDE Mines",
            desktop_environment: Some(DesktopEnvironment::KDE),
            repository: RepoPackages {
                arch: Some(vec!["kmines"]),
                debian: Some(vec!["kmines"]),
                fedora: Some(vec!["kmines"]),
                redhat: Some(vec!["kmines"]),
                ubuntu: Some(vec!["kmines"]),
            },
            flatpak: None,
            snap: Some(Snap { name: "kmines", is_official: true, is_classic: false, channel: "" }),
            other: None,
            pre_install: None,
            post_install: None,
        },
        Package {
            name: "KDE Sudoku",
            desktop_environment: Some(DesktopEnvironment::KDE),
            repository: RepoPackages {
                arch: Some(vec!["ksudoku"]),
                debian: Some(vec!["ksudoku"]),
                fedora: Some(vec!["ksudoku"]),
                redhat: Some(vec!["ksudoku"]),
                ubuntu: Some(vec!["ksudoku"]),
            },
            flatpak: Some(Flatpak { name: "org.kde.ksudoku", is_verified: true, remotes: vec!["fedora", "flathub"] }),
            snap: Some(Snap { name: "ksudoku", is_official: true, is_classic: false, channel: "" }),
            other: None,
            pre_install: None,
            post_install: None,
        },
        Package {
            name: "Steam",
            desktop_environment: None,
            repository: RepoPackages {
                arch: Some(vec!["steam"]),
                debian: None,
                fedora: Some(vec!["steam"]),
                redhat: None,
                ubuntu: None,
            },
            flatpak: Some(Flatpak { name: "com.valvesoftware.Steam", is_verified: false, remotes: vec!["flathub"] }),
            snap: Some(Snap { name: "steam", is_official: true, is_classic: false, channel: "" }),
            other: None,
            pre_install: Some(InstallHook::SteamRepository),
            post_install: None,
        },
        Package {
            name: "Super Tux Kart",
            desktop_environment: None,
            repository: RepoPackages {
                arch: Some(vec!["supertuxkart"]),
                debian: Some(vec!["supertuxkart"]),
                fedora: Some(vec!["supertuxkart"]),
                redhat: None,
                ubuntu: Some(vec!["supertuxkart"]),
            },
            flatpak: Some(Flatpak { name: "net.supertuxkart.SuperTuxKart", is_verified: false, remotes: vec!["fedora", "flathub"] }),
            snap: Some(Snap { name: "supertuxkart", is_official: false, is_classic: false, channel: "" }),
            other: None,
            pre_install: None,
            post_install: None,
        },
        Package {
            name: "Xonotic",
            desktop_environment: None,
            repository: RepoPackages {
                arch: Some(vec!["xonotic"]),
                debian: None,
                fedora: Some(vec!["xonotic"]),
                redhat: None,
                ubuntu: None,
            },
            flatpak: Some(Flatpak { name: "org.xonotic.Xonotic", is_verified: false, remotes: vec!["flathub"] }),
            snap: Some(Snap { name: "xonotic", is_official: false, is_classic: false, channel: "" }),
            other: None,
            pre_install: None,
            post_install: None,
        },
    ];
    assert(package_views(r@) =~~= games_spec());
    r
}

/// The packages of the MultiMedia category, in menu order.
pub open spec fn multimedia_spec() -> Seq<PackageView> {
    seq![
        PackageView {
            name: "Blender"@,
            desktop_environment: None,
            arch: Some(seq!["blender"@]),
            debian: Some(seq!["blender"@]),
            fedora: Some(seq!["blender"@]),
            redhat: None,
            ubuntu: Some(seq!["blender"@]),
            flatpak: Some(FlatpakView { name: "org.blender.Blender"@, is_verified: false, remotes: seq!["flathub"@] }),
            snap: Some(SnapView { name: "blender"@, is_official: true, is_classic: true, channel: ""@ }),
            other: None,
            pre_install: None,
            post_install: None,
        },
        PackageView {
            name: "Elisa Music Player"@,
            desktop_environment: Some(DesktopEnvironment::KDE),
            arch: Some(seq!["elisa"@]),
            debian: Some(seq!["elisa"@]),
            fedora: Some(seq!["elisa"@]),
            redhat: None,
            ubuntu: Some(seq!["elisa"@]),
            flatpak: Some(FlatpakView { name: "org.kde.elisa"@, is_verified: true, remotes: seq!["fedora"@, "flathub"@] }),
            snap: None,
            other: None,
            pre_install: None,
            post_install: None,
        },
        PackageView {
            name: "GIMP"@,
            desktop_environment: None,
            arch: Some(seq!["gimp"@]),
            debian: Some(seq!["gimp"@]),
            fedora: Some(seq!["gimp"@]),
            redhat: Some(seq!["gimp"@]),
            ubuntu: Some(seq!["gimp"@]),
            flatpak: Some(FlatpakView { name: "org.gimp.GIMP"@, is_verified: true, remotes: seq!["fedora"@, "flathub"@] }),
            snap: Some(SnapView { name: "gimp"@, is_official: false, is_classic: false, channel: ""@ }),
            other: None,
            pre_install: None,
            post_install: None,
        },
        PackageView {
            name: "Gnome Music"@,
            desktop_environment: Some(DesktopEnvironment::Gnome),
            arch: Some(seq!["gnome-music"@]),
            debian: Some(seq!["gnome-music"@]),
            fedora: Some(seq!["gnome-music"@]),
            redhat: None,
            ubuntu: Some(seq!["gnome-music"@]),
            flatpak: Some(FlatpakView { name: "org.gnome.Music"@, is_verified: true, remotes: seq!["fedora"@, "flathub"@] }),
            snap: None,
            other: None,
            pre_install: None,
            post_install: None,
        },
        PackageView {
            name: "Gnome Photos"@,
            desktop_environment: Some(DesktopEnvironment::Gnome),
            arch: Some(seq!["gnome-photos"@]),
            debian: Some(seq!["gnome-photos"@]),
            fedora: Some(seq!["gnome-photos"@]),
            redhat: Some(seq!["gnome-photos"@]),
            ubuntu: Some(seq!["gnome-photos"@]),
            flatpak: Some(FlatpakView { name: "org.gnome.Photos"@, is_verified: false, remotes: seq!["fedora"@, "flathub"@] }),
            snap: None,
            other: None,
            pre_install: None,
            post_install: None,
        },
        PackageView {
            name: "Gnome Sound Recorder"@,
            desktop_environment: Some(DesktopEnvironment::Gnome),
            arch: Some(seq!["gnome-sound-recorder"@]),
            debian: Some(seq!["gnome-sound-recorder"@]),
            fedora: Some(seq!["gnome-sound-recorder"@]),
            redhat: None,
            ubuntu: Some(seq!["gnome-sound-recorder"@]),
            flatpak: Some(FlatpakView { name: "org.gnome.SoundRecorder"@, is_verified: false, remotes: seq!["fedora"@, "flathub"@] }),
            snap: None,
            other: None,
            pre_install: None,
            post_install: None,
        },
        PackageView {
            name: "KdenLive Video Editor"@,
            desktop_environment: Some(DesktopEnvironment::KDE),
            arch: Some(seq!["kdenlive"@]),
            debian: Some(seq!["kdenlive"@]),
            fedora: Some(seq!["kdenlive"@]),
            redhat: None,
            ubuntu: Some(seq!["kdenlive"@]),
            flatpak: Some(FlatpakView { name: "org.kde.kdenlive"@, is_verified: true, remotes: seq!["flathub"@] }),
            snap: Some(SnapView { name: "kdenlive"@, is_official: true, is_classic: false, channel: ""@ }),
            other: None,
            pre_install: None,
            post_install: None,
        },
        PackageView {
            name: "RhythmBox"@,
            desktop_environment: Some(DesktopEnvironment::Gnome),
            arch: Some(seq!["rhythmbox"@]),
            debian: Some(seq!["rhythmbox"@]),
            fedora: Some(seq!["rhythmbox"@]),
            redhat: None,
            ubuntu: Some(seq!["rhythmbox"@]),
            flatpak: Some(FlatpakView { name: "org.gnome.Rhythmbox3"@, is_verified: false, remotes: seq!["fedora"@, "flathub"@] }),
            snap: None,
            other: None,
            pre_install: None,
            post_install: None,
        },
        PackageView {
            name: "Shotwell"@,
            desktop_environment: Some(DesktopEnvironment::Gnome),
            arch: Some(seq!["shotwell"@]),
            debian: Some(seq!["shotwell"@]),
            fedora: Some(seq!["shotwell"@]),
            redhat: None,
            ubuntu: Some(seq!["shotwell"@]),
            flatpak: Some(FlatpakView { name: "org.gnome.Shotwell"@, is_verified: true, remotes: seq!["fedora"@, "flathub"@] }),
            snap: None,
            other: None,
            pre_install: None,
            post_install: None,
        },
        PackageView {
            name: "Totem Video Player"@,
            desktop_environment: Some(DesktopEnvironment::Gnome),
            arch: Some(seq!["totem"@]),
            debian: Some(seq!["totem"@]),
            fedora: Some(seq!["totem"@]),
            redhat: Some(seq!["totem"@]),
            ubuntu: Some(seq!["totem"@]),
            flatpak: Some(FlatpakView { name: "org.gnome.Totem"@, is_verified: true, remotes: seq!["fedora"@, "flathub"@] }),
            snap: None,
            other: None,
            pre_install: None,
            post_install: None,
        },
        PackageView {
            name: "VLC"@,
            desktop_environment: None,
            arch: Some(seq!["vlc"@]),
            debian: Some(seq!["vlc"@]),
            fedora: Some(seq!["vlc"@]),
            redhat: Some(seq!["vlc"@]),
            ubuntu: Some(seq!["vlc"@]),
            flatpak: Some(FlatpakView { name: "org.videolan.VLC"@, is_verified: false, remotes: seq!["flathub"@] }),
            snap: Some(SnapView { name: "vlc"@, is_official: true, is_classic: false, channel: ""@ }),
            other: None,
            pre_install: None,
            post_install: None,
        },
    ]
}

/// The packages of the MultiMedia category.
pub fn multimedia_packages() -> (r: Vec<Package>)
    ensures
        package_views(r@) == multimedia_spec(),
{
    let r = vec![
        Package {
            name: "Blender",
            desktop_environment: None,
            repository: RepoPackages {
                arch: Some(vec!["blender"]),
                debian: Some(vec!["blender"]),
                fedora: Some(vec!["blender"]),
                redhat: None,
                ubuntu: Some(vec!["blender"]),
            },
            flatpak: Some(Flatpak { name: "org.blender.Blender", is_verified: false, remotes: vec!["flathub"] }),
            snap: Some(Snap { name: "blender", is_official: true, is_classic: true, channel: "" }),
            other: None,
            pre_install: None,
            post_install: None,
        },
        Package {
            name: "Elisa Music Player",
            desktop_environment: Some(DesktopEnvironment::KDE),
            repository: RepoPackages {
                arch: Some(vec!["elisa"]),
                debian: Some(vec!["elisa"]),
                fedora: Some(vec!["elisa"]),
                redhat: None,
                ubuntu: Some(vec!["elisa"]),
            },
            flatpak: Some(Flatpak { name: "org.kde.elisa", is_verified: true, remotes: vec!["fedora", "flathub"] }),
            snap: None,
            other: None,
            pre_install: None,
            post_install: None,
        },
        Package {
            name: "GIMP",
            desktop_environment: None,
            repository: RepoPackages {
                arch: Some(vec!["gimp"]),
                debian: Some(vec!["gimp"]),
                fedora: Some(vec!["gimp"]),
                redhat: Some(vec!["gimp"]),
                ubuntu: Some(vec!["gimp"]),
            },
            flatpak: Some(Flatpak { name: "org.gimp.GIMP", is_verified: true, remotes: vec!["fedora", "flathub"] }),
            snap: Some(Snap { name: "gimp", is_official: false, is_classic: false, channel: "" }),
            other: None,
            pre_install: None,
            post_install: None,
        },
        Package {
            name: "Gnome Music",
            desktop_environment: Some(DesktopEnvironment::Gnome),
            repository: RepoPackages {
                arch: Some(vec!["gnome-music"]),
                debian: Some(vec!["gnome-music"]),
                fedora: Some(vec!["gnome-music"]),
                redhat: None,
                ubuntu: Some(vec!["gnome-music"]),
            },
            flatpak: Some(Flatpak { name: "org.gnome.Music", is_verified: true, remotes: vec!["fedora", "flathub"] }),
            snap: None,
            other: None,
            pre_install: None,
            post_install: None,
        },
        Package {
            name: "Gnome Photos",
            desktop_environment: Some(DesktopEnvironment::Gnome),
            repository: RepoPackages {
                arch: Some(vec!["gnome-photos"]),
                debian: Some(vec!["gnome-photos"]),
                fedora: Some(vec!["gnome-photos"]),
                redhat: Some(vec!["gnome-photos"]),
                ubuntu: Some(vec!["gnome-photos"]),
            },
            flatpak: Some(Flatpak { name: "org.gnome.Photos", is_verified: false, remotes: vec!["fedora", "flathub"] }),
            snap: None,
            other: None,
            pre_install: None,
            post_install: None,
        },
        Package {
            name: "Gnome Sound Recorder",
            desktop_environment: Some(DesktopEnvironment::Gnome),
            repository: RepoPackages {
                arch: Some(vec!["gnome-sound-recorder"]),
                debian: Some(vec!["gnome-sound-recorder"]),
                fedora: Some(vec!["gnome-sound-recorder"]),
                redhat: None,
                ubuntu: Some(vec!["gnome-sound-recorder"]),
            },
            flatpak: Some(Flatpak { name: "org.gnome.SoundRecorder", is_verified: false, remotes: vec!["fedora", "flathub"] }),
            snap: None,
            other: None,
            pre_install: None,
            post_install: None,
        },
        Package {
            name: "KdenLive Video Editor",
            desktop_environment: Some(DesktopEnvironment::KDE),
            repository: RepoPackages {
                arch: Some(vec!["kdenlive"]),
                debian: Some(vec!["kdenlive"]),
                fedora: Some(vec!["kdenlive"]),
                redhat: None,
                ubuntu: Some(vec!["kdenlive"]),
            },
            flatpak: Some(Flatpak { name: "org.kde.kdenlive", is_verified: true, remotes: vec!["flathub"] }),
            snap: Some(Snap { name: "kdenlive", is_official: true, is_classic: false, channel: "" }),
            other: None,
            pre_install: None,
            post_install: None,
        },
        Package {
            name: "RhythmBox",
            desktop_environment: Some(DesktopEnvironment::Gnome),
            repository: RepoPackages {
                arch: Some(vec!["rhythmbox"]),
                debian: Some(vec!["rhythmbox"]),
                fedora: Some(vec!["rhythmbox"]),
                redhat: None,
                ubuntu: Some(vec!["rhythmbox"]),
            },
            flatpak: Some(Flatpak { name: "org.gnome.Rhythmbox3", is_verified: false, remotes: vec!["fedora", "flathub"] }),
            snap: None,
            other: None,
            pre_install: None,
            post_install: None,
        },
        Package {
            name: "Shotwell",
            desktop_environment: Some(DesktopEnvironment::Gnome),
            repository: RepoPackages {
                arch: Some(vec!["shotwell"]),
                debian: Some(vec!["shotwell"]),
                fedora: Some(vec!["shotwell"]),
                redhat: None,
                ubuntu: Some(vec!["shotwell"]),
            },
            flatpak: Some(Flatpak { name: "org.gnome.Shotwell", is_verified: true, remotes: vec!["fedora", "flathub"] }),
            snap: None,
            other: None,
            pre_install: None,
            post_install: None,
        },
        Package {
            name: "Totem Video Player",
            desktop_environment: Some(DesktopEnvironment::Gnome),
            repository: RepoPackages {
                arch: Some(vec!["totem"]),
                debian: Some(vec!["totem"]),
                fedora: Some(vec!["totem"]),
                redhat: Some(vec!["totem"]),
                ubuntu: Some(vec!["totem"]),
            },
            flatpak: Some(Flatpak { name: "org.gnome.Totem", is_verified: true, remotes: vec!["fedora", "flathub"] }),
            snap: None,
            other: None,
            pre_install: None,
            post_install: None,
        },
        Package {
            name: "VLC",
            desktop_environment: None,
            repository: RepoPackages {
                arch: Some(vec!["vlc"]),
                debian: Some(vec!["vlc"]),
                fedora: Some(vec!["vlc"]),
                redhat: Some(vec!["vlc"]),
                ubuntu: Some(vec!["vlc"]),
            },
            flatpak: Some(Flatpak { name: "org.videolan.VLC", is_verified: false, remotes: vec!["flathub"] }),
            snap: Some(Snap { name: "vlc", is_official: true, is_classic: false, channel: "" }),
            other: None,
            pre_install: None,
            post_install: None,
        },
    ];
    assert(package_views(r@) =~~= multimedia_spec());
    r
}

/// The packages of the Editors category, in menu order.
pub open spec fn editors_spec() -> Seq<PackageView> {
    seq![
        PackageView {
            name: "gedit"@,
            desktop_environment: Some(DesktopEnvironment::Gnome),
            arch: Some(seq!["gedit"@]),
            debian: Some(seq!["gedit"@]),
            fedora: Some(seq!["gedit"@]),
            redhat: Some(seq!["gedit"@]),
            ubuntu: Some(seq!["gedit"@]),
            flatpak: Some(FlatpakView { name: "org.gnome.gedit"@, is_verified: false, remotes: seq!["fedora"@, "flathub"@] }),
            snap: Some(SnapView { name: "gedit"@, is_official: true, is_classic: false, channel: ""@ }),
            other: None,
            pre_install: None,
            post_install: None,
        },
        PackageView {
            name: "Gnome Builder"@,
            desktop_environment: Some(DesktopEnvironment::Gnome),
            arch: Some(seq!["gnome-builder"@]),
            debian: Some(seq!["gnome-builder"@]),
            fedora: Some(seq!["gnome-builder"@]),
            redhat: None,
            ubuntu: Some(seq!["gnome-builder"@]),
            flatpak: Some(FlatpakView { name: "org.gnome.Builder"@, is_verified: true, remotes: seq!["flathub"@] }),
            snap: None,
            other: None,
            pre_install: None,
            post_install: None,
        },
        PackageView {
            name: "Gnome Text Editor"@,
            desktop_environment: Some(DesktopEnvironment::Gnome),
            arch: Some(seq!["gnome-text-editor"@]),
            debian: Some(seq!["gnome-text-editor"@]),
            fedora: Some(seq!["gnome-text-editor"@]),
            redhat: None,
            ubuntu: Some(seq!["gnome-text-editor"@]),
            flatpak: Some(FlatpakView { name: "org.gnome.TextEditor"@, is_verified: true, remotes: seq!["fedora"@, "flathub"@] }),
            snap: None,
            other: None,
            pre_install: None,
            post_install: None,
        },
        PackageView {
            name: "Intellij"@,
            desktop_environment: None,
            arch: Some(seq!["intellij-idea-community-edition"@]),
            debian: None,
            fedora: None,
            redhat: None,
            ubuntu: None,
            flatpak: Some(FlatpakView { name: "com.jetbrains.IntelliJ-IDEA-Community"@, is_verified: false, remotes: seq!["flathub"@] }),
            snap: Some(SnapView { name: "intellij-idea-community"@, is_official: true, is_classic: true, channel: ""@ }),
            other: None,
            pre_install: None,
            post_install: Some(InstallHook::IdeavimConfig),
        },
        PackageView {
            name: "Kate"@,
            desktop_environment: Some(DesktopEnvironment::KDE),
            arch: Some(seq!["kate"@]),
            debian: Some(seq!["kate"@]),
            fedora: Some(seq!["kate"@]),
            redhat: Some(seq!["kate"@]),
            ubuntu: Some(seq!["kate"@]),
            flatpak: None,
            snap: Some(SnapView { name: "kate"@, is_official: true, is_classic: true, channel: ""@ }),
            other: None,
            pre_install: None,
            post_install: None,
        },
        PackageView {
            name: "KDevelop"@,
            desktop_environment: Some(DesktopEnvironment::KDE),
            arch: Some(seq!["kdevelop"@]),
            debian: Some(seq!["kdevelop"@]),
            fedora: Some(seq!["kdevelop"@]),
            redhat: None,
            ubuntu: Some(seq!["kdevelop"@]),
            flatpak: Some(FlatpakView { name: "org.kde.kdevelop"@, is_verified: true, remotes: seq!["flathub"@] }),
            snap: Some(SnapView { name: "kdevelop"@, is_official: true, is_classic: true, channel: ""@ }),
            other: None,
            pre_install: None,
            post_install: None,
        },
        PackageView {
            name: "Kile - LaTex Editor"@,
            desktop_environment: Some(DesktopEnvironment::KDE),
            arch: Some(seq!["kile"@]),
            debian: Some(seq!["kile"@]),
            fedora: Some(seq!["kile"@]),
            redhat: None,
            ubuntu: Some(seq!["kile"@]),
            flatpak: None,
            snap: None,
            other: None,
            pre_install: None,
            post_install: None,
        },
        PackageView {
            name: "KWrite"@,
            desktop_environment: Some(DesktopEnvironment::KDE),
            arch: Some(seq!["kwrite"@]),
            debian: Some(seq!["kwrite"@]),
            fedora: Some(seq!["kwrite"@]),
            redhat: Some(seq!["kwrite"@]),
            ubuntu: Some(seq!["kwrite"@]),
            flatpak: Some(FlatpakView { name: "org.kde.kwrite"@, is_verified: true, remotes: seq!["fedora"@, "flathub"@] }),
            snap: None,
            other: None,
            pre_install: None,
            post_install: None,
        },
        PackageView {
            name: "LibreOffice"@,
            desktop_environment: None,
            arch: Some(seq!["libreoffice-fresh"@]),
            debian: Some(seq!["libreoffice-writer"@, "libreoffice-calc"@, "libreoffice-impress"@, "libreoffice-draw"@, "libreoffice-base"@]),
            fedora: Some(seq!["libreoffice-writer"@, "libreoffice-calc"@, "libreoffice-impress"@, "libreoffice-draw"@, "libreoffice-base"@]),
            redhat: Some(seq!["libreoffice-writer"@, "libreoffice-calc"@, "libreoffice-impress"@, "libreoffice-draw"@, "libreoffice-base"@]),
            ubuntu: Some(seq!["libreoffice-writer"@, "libreoffice-calc"@, "libreoffice-impress"@, "libreoffice-draw"@, "libreoffice-base"@]),
            flatpak: Some(FlatpakView { name: "org.libreoffice.LibreOffice"@, is_verified: true, remotes: seq!["fedora"@, "flathub"@] }),
            snap: Some(SnapView { name: "libreoffice"@, is_official: true, is_classic: false, channel: ""@ }),
            other: None,
            pre_install: None,
            post_install: None,
        },
        PackageView {
            name: "Pycharm"@,
            desktop_environment: None,
            arch: Some(seq!["pycharm-community-edition"@]),
            debian: None,
            fedora: Some(seq!["pycharm-community"@]),
            redhat: None,
            ubuntu: None,
            flatpak: Some(FlatpakView { name: "com.jetbrains.PyCharm-Community"@, is_verified: false, remotes: seq!["flathub"@] }),
            snap: Some(SnapView { name: "pycharm-community"@, is_official: true, is_classic: true, channel: ""@ }),
            other: None,
            pre_install: Some(InstallHook::PycharmRepository),
            post_install: Some(InstallHook::IdeavimConfig),
        },
        PackageView {
            name: "VS Code"@,
            desktop_environment: None,
            arch: Some(seq!["code"@]),
            debian: Some(seq!["code"@]),
            fedora: Some(seq!["code"@]),
            redhat: Some(seq!["code"@]),
            ubuntu: None,
            flatpak: Some(FlatpakView { name: "com.visualstudio.code"@, is_verified: false, remotes: seq!["flathub"@] }),
            snap: Some(SnapView { name: "code"@, is_official: true, is_classic: true, channel: ""@ }),
            other: None,
            pre_install: Some(InstallHook::VscodeRepository),
            post_install: Some(InstallHook::VscodeSetup),
        },
    ]
}

/// The packages of the Editors category.
pub fn editors_packages() -> (r: Vec<Package>)
    ensures
        package_views(r@) == editors_spec(),
{
    let r = vec![
        Package {
            name: "gedit",
            desktop_environment: Some(DesktopEnvironment::Gnome),
            repository: RepoPackages {
                arch: Some(vec!["gedit"]),
                debian: Some(vec!["gedit"]),
                fedora: Some(vec!["gedit"]),
                redhat: Some(vec!["gedit"]),
                ubuntu: Some(vec!["gedit"]),
            },
            flatpak: Some(Flatpak { name: "org.gnome.gedit", is_verified: false, remotes: vec!["fedora", "flathub"] }),
            snap: Some(Snap { name: "gedit", is_official: true, is_classic: false, channel: "" }),
            other: None,
            pre_install: None,
            post_install: None,
        },
        Package {
            name: "Gnome Builder",
            desktop_environment: Some(DesktopEnvironment::Gnome),
            repository: RepoPackages {
                arch: Some(vec!["gnome-builder"]),
                debian: Some(vec!["gnome-builder"]),
                fedora: Some(vec!["gnome-builder"]),
                redhat: None,
                ubuntu: Some(vec!["gnome-builder"]),
            },
            flatpak: Some(Flatpak { name: "org.gnome.Builder", is_verified: true, remotes: vec!["flathub"] }),
            snap: None,
            other: None,
            pre_install: None,
            post_install: None,
        },
        Package {
            name: "Gnome Text Editor",
            desktop_environment: Some(DesktopEnvironment::Gnome),
            repository: RepoPackages {
                arch: Some(vec!["gnome-text-editor"]),
                debian: Some(vec!["gnome-text-editor"]),
                fedora: Some(vec!["gnome-text-editor"]),
                redhat: None,
                ubuntu: Some(vec!["gnome-text-editor"]),
            },
            flatpak: Some(Flatpak { name: "org.gnome.TextEditor", is_verified: true, remotes: vec!["fedora", "flathub"] }),
            snap: None,
            other: None,
            pre_install: None,
            post_install: None,
        },
        Package {
            name: "Intellij",
            desktop_environment: None,
            repository: RepoPackages {
                arch: Some(vec!["intellij-idea-community-edition"]),
                debian: None,
                fedora: None,
                redhat: None,
                ubuntu: None,
            },
            flatpak: Some(Flatpak { name: "com.jetbrains.IntelliJ-IDEA-Community", is_verified: false, remotes: vec!["flathub"] }),
            snap: Some(Snap { name: "intellij-idea-community", is_official: true, is_classic: true, channel: "" }),
            other: None,
            pre_install: None,
            post_install: Some(InstallHook::IdeavimConfig),
        },
        Package {
            name: "Kate",
            desktop_environment: Some(DesktopEnvironment::KDE),
            repository: RepoPackages {
                arch: Some(vec!["kate"]),
                debian: Some(vec!["kate"]),
                fedora: Some(vec!["kate"]),
                redhat: Some(vec!["kate"]),
                ubuntu: Some(vec!["kate"]),
            },
            flatpak: None,
            snap: Some(Snap { name: "kate", is_official: true, is_classic: true, channel: "" }),
            other: None,
            pre_install: None,
            post_install: None,
        },
        Package {
            name: "KDevelop",
            desktop_environment: Some(DesktopEnvironment::KDE),
            repository: RepoPackages {
                arch: Some(vec!["kdevelop"]),
                debian: Some(vec!["kdevelop"]),
                fedora: Some(vec!["kdevelop"]),
                redhat: None,
                ubuntu: Some(vec!["kdevelop"]),
            },
            flatpak: Some(Flatpak { name: "org.kde.kdevelop", is_verified: true, remotes: vec!["flathub"] }),
            snap: Some(Snap { name: "kdevelop", is_official: true, is_classic: true, channel: "" }),
            other: None,
            pre_install: None,
            post_install: None,
        },
        Package {
            name: "Kile - LaTex Editor",
            desktop_environment: Some(DesktopEnvironment::KDE),
            repository: RepoPackages {
                arch: Some(vec!["kile"]),
                debian: Some(vec!["kile"]),
                fedora: Some(vec!["kile"]),
                redhat: None,
                ubuntu: Some(vec!["kile"]),
            },
            flatpak: None,
            snap: None,
            other: None,
            pre_install: None,
            post_install: None,
        },
        Package {
            name: "KWrite",
            desktop_environment: Some(DesktopEnvironment::KDE),
            repository: RepoPackages {
                arch: Some(vec!["kwrite"]),
                debian: Some(vec!["kwrite"]),
                fedora: Some(vec!["kwrite"]),
                redhat: Some(vec!["kwrite"]),
                ubuntu: Some(vec!["kwrite"]),
            },
            flatpak: Some(Flatpak { name: "org.kde.kwrite", is_verified: true, remotes: vec!["fedora", "flathub"] }),
            snap: None,
            other: None,
            pre_install: None,
            post_install: None,
        },
        Package {
            name: "LibreOffice",
            desktop_environment: None,
            repository: RepoPackages {
                arch: Some(vec!["libreoffice-fresh"]),
                debian: Some(vec!["libreoffice-writer", "libreoffice-calc", "libreoffice-impress", "libreoffice-draw", "libreoffice-base"]),
                fedora: Some(vec!["libreoffice-writer", "libreoffice-calc", "libreoffice-impress", "libreoffice-draw", "libreoffice-base"]),
                redhat: Some(vec!["libreoffice-writer", "libreoffice-calc", "libreoffice-impress", "libreoffice-draw", "libreoffice-base"]),
                ubuntu: Some(vec!["libreoffice-writer", "libreoffice-calc", "libreoffice-impress", "libreoffice-draw", "libreoffice-base"]),
            },
            flatpak: Some(Flatpak { name: "org.libreoffice.LibreOffice", is_verified: true, remotes: vec!["fedora", "flathub"] }),
            snap: Some(Snap { name: "libreoffice", is_official: true, is_classic: false, channel: "" }),
            other: None,
            pre_install: None,
            post_install: None,
        },
        Package {
            name: "Pycharm",
            desktop_environment: None,
            repository: RepoPackages {
                arch: Some(vec!["pycharm-community-edition"]),
                debian: None,
                fedora: Some(vec!["pycharm-community"]),
                redhat: None,
                ubuntu: None,
            },
            flatpak: Some(Flatpak { name: "com.jetbrains.PyCharm-Community", is_verified: false, remotes: vec!["flathub"] }),
            snap: Some(Snap { name: "pycharm-community", is_official: true, is_classic: true, channel: "" }),
            other: None,
            pre_install: Some(InstallHook::PycharmRepository),
            post_install: Some(InstallHook::IdeavimConfig),
        },
        Package {
            name: "VS Code",
            desktop_environment: None,
            repository: RepoPackages {
                arch: Some(vec!["code"]),
                debian: Some(vec!["code"]),
                fedora: Some(vec!["code"]),
                redhat: Some(vec!["code"]),
                ubuntu: None,
            },
            flatpak: Some(Flatpak { name: "com.visualstudio.code", is_verified: false, remotes: vec!["flathub"] }),
            snap: Some(Snap { name: "code", is_official: true, is_classic: true, channel: "" }),
            other: None,
            pre_install: Some(InstallHook::VscodeRepository),
            post_install: Some(InstallHook::VscodeSetup),
        },
    ];
    assert(package_views(r@) =~~= editors_spec());
    r
}

/// The packages of the Software category, in menu order.
pub open spec fn software_spec() -> Seq<PackageView> {
    seq![
        PackageView {
            name: "Gnome Software"@,
            desktop_environment: Some(DesktopEnvironment::Gnome),
            arch: Some(seq!["gnome-software"@]),
            debian: Some(seq!["gnome-software"@]),
            fedora: Some(seq!["gnome-software"@]),
            redhat: Some(seq!["gnome-software"@]),
            ubuntu: Some(seq!["gnome-software"@]),
            flatpak: None,
            snap: None,
            other: None,
            pre_install: None,
            post_install: None,
        },
        PackageView {
            name: "Plasma Discover"@,
            desktop_environment: Some(DesktopEnvironment::KDE),
            arch: Some(seq!["discover"@]),
            debian: Some(seq!["plasma-discover"@]),
            fedora: Some(seq!["plasma-discover"@]),
            redhat: None,
            ubuntu: Some(seq!["plasma-discover"@]),
            flatpak: None,
            snap: None,
            other: None,
            pre_install: None,
            post_install: None,
        },
        PackageView {
            name: "Snap Store"@,
            desktop_environment: None,
            arch: None,
            debian: None,
            fedora: None,
            redhat: None,
            ubuntu: None,
            flatpak: None,
            snap: Some(SnapView { name: "snap-store"@, is_official: true, is_classic: false, channel: ""@ }),
            other: None,
            pre_install: None,
            post_install: None,
        },
    ]
}

/// The packages of the Software category.
pub fn software_packages() -> (r: Vec<Package>)
    ensures
        package_views(r@) == software_spec(),
{
    let r = vec![
        Package {
            name: "Gnome Software",
            desktop_environment: Some(DesktopEnvironment::Gnome),
            repository: RepoPackages {
                arch: Some(vec!["gnome-software"]),
                debian: Some(vec!["gnome-software"]),
                fedora: Some(vec!["gnome-software"]),
                redhat: Some(vec!["gnome-software"]),
                ubuntu: Some(vec!["gnome-software"]),
            },
            flatpak: None,
            snap: None,
            other: None,
            pre_install: None,
            post_install: None,
        },
        Package {
            name: "Plasma Discover",
            desktop_environment: Some(DesktopEnvironment::KDE),
            repository: RepoPackages {
                arch: Some(vec!["discover"]),
                debian: Some(vec!["plasma-discover"]),
                fedora: Some(vec!["plasma-discover"]),
                redhat: None,
                ubuntu: Some(vec!["plasma-discover"]),
            },
            flatpak: None,
            snap: None,
            other: None,
            pre_install: None,
            post_install: None,
        },
        Package {
            name: "Snap Store",
            desktop_environment: None,
            repository: RepoPackages {
                arch: None,
                debian: None,
                fedora: None,
                redhat: None,
                ubuntu: None,
            },
            flatpak: None,
            snap: Some(Snap { name: "snap-store", is_official: true, is_classic: false, channel: "" }),
            other: None,
            pre_install: None,
            post_install: None,
        },
    ];
    assert(package_views(r@) =~~= software_spec());
    r
}

/// The packages of the Utilities category, in menu order.
pub open spec fn utilities_spec() -> Seq<PackageView> {
    seq![
        PackageView {
            name: "Ark Archiving"@,
            desktop_environment: Some(DesktopEnvironment::KDE),
            arch: Some(seq!["ark"@]),
            debian: Some(seq!["ark"@]),
            fedora: Some(seq!["ark"@]),
            redhat: Some(seq!["ark"@]),
            ubuntu: Some(seq!["ark"@]),
            flatpak: Some(FlatpakView { name: "org.kde.ark"@, is_verified: true, remotes: seq!["fedora"@, "flathub"@] }),
            snap: Some(SnapView { name: "ark"@, is_official: true, is_classic: false, channel: ""@ }),
            other: None,
            pre_install: None,
            post_install: None,
        },
        PackageView {
            name: "dconf Editor"@,
            desktop_environment: Some(DesktopEnvironment::Gnome),
            arch: Some(seq!["dconf-editor"@]),
            debian: Some(seq!["dconf-editor"@]),
            fedora: Some(seq!["dconf-editor"@]),
            redhat: Some(seq!["dconf-editor"@]),
            ubuntu: Some(seq!["dconf-editor"@]),
            flatpak: Some(FlatpakView { name: "ca.desrt.dconf-editor"@, is_verified: true, remotes: seq!["fedora"@, "flathub"@] }),
            snap: None,
            other: None,
            pre_install: None,
            post_install: None,
        },
        PackageView {
            name: "Fedora Media Writer"@,
            desktop_environment: None,
            arch: None,
            debian: None,
            fedora: Some(seq!["mediawriter"@]),
            redhat: None,
            ubuntu: None,
            flatpak: Some(FlatpakView { name: "org.fedoraproject.MediaWriter"@, is_verified: true, remotes: seq!["fedora"@, "flathub"@] }),
            snap: None,
            other: None,
            pre_install: None,
            post_install: None,
        },
        PackageView {
            name: "FileLight Disk Usage"@,
            desktop_environment: Some(DesktopEnvironment::KDE),
            arch: Some(seq!["filelight"@]),
            debian: Some(seq!["filelight"@]),
            fedora: Some(seq!["filelight"@]),
            redhat: Some(seq!["filelight"@]),
            ubuntu: Some(seq!["filelight"@]),
            flatpak: None,
            snap: None,
            other: None,
            pre_install: None,
            post_install: None,
        },
        PackageView {
            name: "GParted"@,
            desktop_environment: Some(DesktopEnvironment::Gnome),
            arch: Some(seq!["gparted"@]),
            debian: Some(seq!["gparted"@]),
            fedora: Some(seq!["gparted"@]),
            redhat: Some(seq!["gparted"@]),
            ubuntu: Some(seq!["gparted"@]),
            flatpak: None,
            snap: None,
            other: None,
            pre_install: None,
            post_install: None,
        },
        PackageView {
            name: "Gnome Disk Usage"@,
            desktop_environment: Some(DesktopEnvironment::Gnome),
            arch: Some(seq!["baobab"@]),
            debian: Some(seq!["baobab"@]),
            fedora: Some(seq!["baobab"@]),
            redhat: Some(seq!["baobab"@]),
            ubuntu: Some(seq!["baobab"@]),
            flatpak: Some(FlatpakView { name: "org.gnome.baobab"@, is_verified: true, remotes: seq!["fedora"@, "flathub"@] }),
            snap: None,
            other: None,
            pre_install: None,
            post_install: None,
        },
        PackageView {
            name: "Gnome Disk Utility"@,
            desktop_environment: Some(DesktopEnvironment::Gnome),
            arch: Some(seq!["gnome-disk-utility"@]),
            debian: Some(seq!["gnome-disk-utility"@]),
            fedora: Some(seq!["gnome-disk-utility"@]),
            redhat: Some(seq!["gnome-disk-utility"@]),
            ubuntu: Some(seq!["gnome-disk-utility"@]),
            flatpak: None,
            snap: None,
            other: None,
            pre_install: None,
            post_install: None,
        },
        PackageView {
            name: "Gnome Shell Extension"@,
            desktop_environment: Some(DesktopEnvironment::Gnome),
            arch: Some(seq!["gnome-shell-extensions"@]),
            debian: Some(seq!["gnome-shell-extensions"@]),
            fedora: Some(seq!["gnome-extensions-app"@]),
            redhat: Some(seq!["gnome-extensions-app"@]),
            ubuntu: Some(seq!["gnome-shell-extensions"@]),
            flatpak: None,
            snap: None,
            other: None,
            pre_install: None,
            post_install: None,
        },
        PackageView {
            name: "Gnome Shell Extension Manager"@,
            desktop_environment: Some(DesktopEnvironment::Gnome),
            arch: None,
            debian: Some(seq!["gnome-shell-extension-manager"@]),
            fedora: None,
            redhat: None,
            ubuntu: Some(seq!["gnome-shell-extension-manager"@]),
            flatpak: None,
            snap: None,
            other: None,
            pre_install: None,
            post_install: None,
        },
        PackageView {
            name: "Gnome System Monitor"@,
            desktop_environment: Some(DesktopEnvironment::Gnome),
            arch: Some(seq!["gnome-system-monitor"@]),
            debian: Some(seq!["gnome-system-monitor"@]),
            fedora: Some(seq!["gnome-system-monitor"@]),
            redhat: Some(seq!["gnome-system-monitor"@]),
            ubuntu: Some(seq!["gnome-system-monitor"@]),
            flatpak: None,
            snap: None,
            other: None,
            pre_install: None,
            post_install: None,
        },
        PackageView {
            name: "Gnome Tweaks"@,
            desktop_environment: Some(DesktopEnvironment::Gnome),
            arch: Some(seq!["gnome-tweaks"@]),
            debian: Some(seq!["gnome-tweaks"@]),
            fedora: Some(seq!["gnome-tweaks"@]),
            redhat: Some(seq!["gnome-tweaks"@]),
            ubuntu: Some(seq!["gnome-tweaks"@]),
            flatpak: None,
            snap: None,
            other: None,
            pre_install: None,
            post_install: None,
        },
        PackageView {
            name: "KSysGuard"@,
            desktop_environment: Some(DesktopEnvironment::KDE),
            arch: Some(seq!["ksysguard"@]),
            debian: Some(seq!["ksysguard"@]),
            fedora: Some(seq!["ksysguard"@]),
            redhat: Some(seq!["ksysguard"@]),
            ubuntu: Some(seq!["ksysguard"@]),
            flatpak: None,
            snap: None,
            other: None,
            pre_install: None,
            post_install: None,
        },
        PackageView {
            name: "Plasma System Monitor"@,
            desktop_environment: Some(DesktopEnvironment::KDE),
            arch: Some(seq!["plasma-systemmonitor"@]),
            debian: Some(seq!["plasma-systemmonitor"@]),
            fedora: Some(seq!["plasma-systemmonitor"@]),
            redhat: Some(seq!["plasma-systemmonitor"@]),
            ubuntu: Some(seq!["plasma-systemmonitor"@]),
            flatpak: None,
            snap: None,
            other: None,
            pre_install: None,
            post_install: None,
        },
        PackageView {
            name: "Simple Scan"@,
            desktop_environment: None,
            arch: Some(seq!["simple-scan"@]),
            debian: Some(seq!["simple-scan"@]),
            fedora: Some(seq!["simple-scan"@]),
            redhat: None,
            ubuntu: Some(seq!["simple-scan"@]),
            flatpak: None,
            snap: None,
            other: None,
            pre_install: None,
            post_install: None,
        },
        PackageView {
            name: "Spectacle Screenshot"@,
            desktop_environment: Some(DesktopEnvironment::KDE),
            arch: Some(seq!["spectacle"@]),
            debian: Some(seq!["spectacle"@]),
            fedora: Some(seq!["spectacle"@]),
            redhat: Some(seq!["spectacle"@]),
            ubuntu: Some(seq!["spectacle"@]),
            flatpak: None,
            snap: None,
            other: None,
            pre_install: None,
            post_install: None,
        },
    ]
}

/// The packages of the Utilities category.
pub fn utilities_packages() -> (r: Vec<Package>)
    ensures
        package_views(r@) == utilities_spec(),
{
    let r = vec![
        Package {
            name: "Ark Archiving",
            desktop_environment: Some(DesktopEnvironment::KDE),
            repository: RepoPackages {
                arch: Some(vec!["ark"]),
                debian: Some(vec!["ark"]),
                fedora: Some(vec!["ark"]),
                redhat: Some(vec!["ark"]),
                ubuntu: Some(vec!["ark"]),
            },
            flatpak: Some(Flatpak { name: "org.kde.ark", is_verified: true, remotes: vec!["fedora", "flathub"] }),
            snap: Some(Snap { name: "ark", is_official: true, is_classic: false, channel: "" }),
            other: None,
            pre_install: None,
            post_install: None,
        },
        Package {
            name: "dconf Editor",
            desktop_environment: Some(DesktopEnvironment::Gnome),
            repository: RepoPackages {
                arch: Some(vec!["dconf-editor"]),
                debian: Some(vec!["dconf-editor"]),
                fedora: Some(vec!["dconf-editor"]),
                redhat: Some(vec!["dconf-editor"]),
                ubuntu: Some(vec!["dconf-editor"]),
            },
            flatpak: Some(Flatpak { name: "ca.desrt.dconf-editor", is_verified: true, remotes: vec!["fedora", "flathub"] }),
            snap: None,
            other: None,
            pre_install: None,
            post_install: None,
        },
        Package {
            name: "Fedora Media Writer",
            desktop_environment: None,
            repository: RepoPackages {
                arch: None,
                debian: None,
                fedora: Some(vec!["mediawriter"]),
                redhat: None,
                ubuntu: None,
            },
            flatpak: Some(Flatpak { name: "org.fedoraproject.MediaWriter", is_verified: true, remotes: vec!["fedora", "flathub"] }),
            snap: None,
            other: None,
            pre_install: None,
            post_install: None,
        },
        Package {
            name: "FileLight Disk Usage",
            desktop_environment: Some(DesktopEnvironment::KDE),
            repository: RepoPackages {
                arch: Some(vec!["filelight"]),
                debian: Some(vec!["filelight"]),
                fedora: Some(vec!["filelight"]),
                redhat: Some(vec!["filelight"]),
                ubuntu: Some(vec!["filelight"]),
            },
            flatpak: None,
            snap: None,
            other: None,
            pre_install: None,
            post_install: None,
        },
        Package {
            name: "GParted",
            desktop_environment: Some(DesktopEnvironment::Gnome),
            repository: RepoPackages {
                arch: Some(vec!["gparted"]),
                debian: Some(vec!["gparted"]),
                fedora: Some(vec!["gparted"]),
                redhat: Some(vec!["gparted"]),
                ubuntu: Some(vec!["gparted"]),
            },
            flatpak: None,
            snap: None,
            other: None,
            pre_install: None,
            post_install: None,
        },
        Package {
            name: "Gnome Disk Usage",
            desktop_environment: Some(DesktopEnvironment::Gnome),
            repository: RepoPackages {
                arch: Some(vec!["baobab"]),
                debian: Some(vec!["baobab"]),
                fedora: Some(vec!["baobab"]),
                redhat: Some(vec!["baobab"]),
                ubuntu: Some(vec!["baobab"]),
            },
            flatpak: Some(Flatpak { name: "org.gnome.baobab", is_verified: true, remotes: vec!["fedora", "flathub"] }),
            snap: None,
            other: None,
            pre_install: None,
            post_install: None,
        },
        Package {
            name: "Gnome Disk Utility",
            desktop_environment: Some(DesktopEnvironment::Gnome),
            repository: RepoPackages {
                arch: Some(vec!["gnome-disk-utility"]),
                debian: Some(vec!["gnome-disk-utility"]),
                fedora: Some(vec!["gnome-disk-utility"]),
                redhat: Some(vec!["gnome-disk-utility"]),
                ubuntu: Some(vec!["gnome-disk-utility"]),
            },
            flatpak: None,
            snap: None,
            other: None,
            pre_install: None,
            post_install: None,
        },
        Package {
            name: "Gnome Shell Extension",
            desktop_environment: Some(DesktopEnvironment::Gnome),
            repository: RepoPackages {
                arch: Some(vec!["gnome-shell-extensions"]),
                debian: Some(vec!["gnome-shell-extensions"]),
                fedora: Some(vec!["gnome-extensions-app"]),
                redhat: Some(vec!["gnome-extensions-app"]),
                ubuntu: Some(vec!["gnome-shell-extensions"]),
            },
            flatpak: None,
            snap: None,
            other: None,
            pre_install: None,
            post_install: None,
        },
        Package {
            name: "Gnome Shell Extension Manager",
            desktop_environment: Some(DesktopEnvironment::Gnome),
            repository: RepoPackages {
                arch: None,
                debian: Some(vec!["gnome-shell-extension-manager"]),
                fedora: None,
                redhat: None,
                ubuntu: Some(vec!["gnome-shell-extension-manager"]),
            },
            flatpak: None,
            snap: None,
            other: None,
            pre_install: None,
            post_install: None,
        },
        Package {
            name: "Gnome System Monitor",
            desktop_environment: Some(DesktopEnvironment::Gnome),
            repository: RepoPackages {
                arch: Some(vec!["gnome-system-monitor"]),
                debian: Some(vec!["gnome-system-monitor"]),
                fedora: Some(vec!["gnome-system-monitor"]),
                redhat: Some(vec!["gnome-system-monitor"]),
                ubuntu: Some(vec!["gnome-system-monitor"]),
            },
            flatpak: None,
            snap: None,
            other: None,
            pre_install: None,
            post_install: None,
        },
        Package {
            name: "Gnome Tweaks",
            desktop_environment: Some(DesktopEnvironment::Gnome),
            repository: RepoPackages {
                arch: Some(vec!["gnome-tweaks"]),
                debian: Some(vec!["gnome-tweaks"]),
                fedora: Some(vec!["gnome-tweaks"]),
                redhat: Some(vec!["gnome-tweaks"]),
                ubuntu: Some(vec!["gnome-tweaks"]),
            },
            flatpak: None,
            snap: None,
            other: None,
            pre_install: None,
            post_install: None,
        },
        Package {
            name: "KSysGuard",
            desktop_environment: Some(DesktopEnvironment::KDE),
            repository: RepoPackages {
                arch: Some(vec!["ksysguard"]),
                debian: Some(vec!["ksysguard"]),
                fedora: Some(vec!["ksysguard"]),
                redhat: Some(vec!["ksysguard"]),
                ubuntu: Some(vec!["ksysguard"]),
            },
            flatpak: None,
            snap: None,
            other: None,
            pre_install: None,
            post_install: None,
        },
        Package {
            name: "Plasma System Monitor",
            desktop_environment: Some(DesktopEnvironment::KDE),
            repository: RepoPackages {
                arch: Some(vec!["plasma-systemmonitor"]),
                debian: Some(vec!["plasma-systemmonitor"]),
                fedora: Some(vec!["plasma-systemmonitor"]),
                redhat: Some(vec!["plasma-systemmonitor"]),
                ubuntu: Some(vec!["plasma-systemmonitor"]),
            },
            flatpak: None,
            snap: None,
            other: None,
            pre_install: None,
            post_install: None,
        },
        Package {
            name: "Simple Scan",
            desktop_environment: None,
            repository: RepoPackages {
                arch: Some(vec!["simple-scan"]),
                debian: Some(vec!["simple-scan"]),
                fedora: Some(vec!["simple-scan"]),
                redhat: None,
                ubuntu: Some(vec!["simple-scan"]),
            },
            flatpak: None,
            snap: None,
            other: None,
            pre_install: None,
            post_install: None,
        },
        Package {
            name: "Spectacle Screenshot",
            desktop_environment: Some(DesktopEnvironment::KDE),
            repository: RepoPackages {
                arch: Some(vec!["spectacle"]),
                debian: Some(vec!["spectacle"]),
                fedora: Some(vec!["spectacle"]),
                redhat: Some(vec!["spectacle"]),
                ubuntu: Some(vec!["spectacle"]),
            },
            flatpak: None,
            snap: None,
            other: None,
            pre_install: None,
            post_install: None,
        },
    ];
    assert(package_views(r@) =~~= utilities_spec());
    r
}

/// The packages offered in a category, in menu order.
pub open spec fn category_packages_spec(category: Category) -> Seq<PackageView> {
    match category {
        Category::Server => server_spec(),
        Category::Desktop => desktop_spec(),
        Category::Applications => applications_spec(),
        Category::Browsers => browsers_spec(),
        Category::Communication => communication_spec(),
        Category::Games => games_spec(),
        Category::MultiMedia => multimedia_spec(),
        Category::Editors => editors_spec(),
        Category::Software => software_spec(),
        Category::Utilities => utilities_spec(),
    }
}

/// The packages offered in a category, in menu order.
pub fn get_category_packages(category: &Category) -> (r: Vec<Package>)
    ensures
        package_views(r@) == category_packages_spec(*category),
{
    match category {
        Category::Server => server_packages(),
        Category::Desktop => desktop_packages(),
        Category::Applications => applications_packages(),
        Category::Browsers => browsers_packages(),
        Category::Communication => communication_packages(),
        Category::Games => games_packages(),
        Category::MultiMedia => multimedia_packages(),
        Category::Editors => editors_packages(),
        Category::Software => software_packages(),
        Category::Utilities => utilities_packages(),
    }
}

} // verus!
