//! Packages and the categories they are listed under.
use vstd::prelude::*;
use crate::linux_setup::distribution::{DesktopEnvironment, Repository};
use crate::linux_setup::flatpak::Flatpak;
use crate::linux_setup::other::OtherPackage;
use crate::linux_setup::snap::Snap;

verus! {

/// The abstract contents of a list of string slices.
pub open spec fn str_views(v: Seq<&'static str>) -> Seq<Seq<char>> {
    v.map_values(|x: &'static str| x@)
}

/// A category of packages.
#[derive(PartialEq, Eq, Structural, Clone, Copy, Debug)]
pub enum Category {
    Server,
    Desktop,
    Applications,
    Browsers,
    Communication,
    Games,
    MultiMedia,
    Editors,
    Software,
    Utilities,
}

/// The title of a category.
pub open spec fn category_title(c: Category) -> Seq<char> {
    match c {
        Category::Server => "Server"@,
        Category::Desktop => "Desktop"@,
        Category::Applications => "Applications"@,
        Category::Browsers => "Browsers"@,
        Category::Communication => "Communication"@,
        Category::Games => "Games"@,
        Category::MultiMedia => "Multi Media"@,
        Category::Editors => "Editors"@,
        Category::Software => "Software"@,
        Category::Utilities => "Utilities"@,
    }
}

/// Every category, in menu order.
pub open spec fn all_categories() -> Seq<Category> {
    seq![
        Category::Server,
        Category::Desktop,
        Category::Applications,
        Category::Browsers,
        Category::Communication,
        Category::Games,
        Category::MultiMedia,
        Category::Editors,
        Category::Software,
        Category::Utilities,
    ]
}

impl Category {
    /// The category's title.
    pub fn as_str(&self) -> (r: &'static str)
        ensures
            r@ == category_title(*self),
    {
        match self {
            Category::Server => "Server",
            Category::Desktop => "Desktop",
            Category::Applications => "Applications",
            Category::Browsers => "Browsers",
            Category::Communication => "Communication",
            Category::Games => "Games",
            Category::MultiMedia => "Multi Media",
            Category::Editors => "Editors",
            Category::Software => "Software",
            Category::Utilities => "Utilities",
        }
    }

    /// Every category, in menu order.
    pub fn iterator() -> (r: Vec<Category>)
        ensures
            r@ == all_categories(),
    {
        let r = vec![
            Category::Server,
            Category::Desktop,
            Category::Applications,
            Category::Browsers,
            Category::Communication,
            Category::Games,
            Category::MultiMedia,
            Category::Editors,
            Category::Software,
            Category::Utilities,
        ];
        assert(r@ =~= all_categories());
        r
    }
}

/// The repository package names of a package, per repository.
pub struct RepoPackages {
    pub arch: Option<Vec<&'static str>>,
    pub debian: Option<Vec<&'static str>>,
    pub fedora: Option<Vec<&'static str>>,
    pub redhat: Option<Vec<&'static str>>,
    pub ubuntu: Option<Vec<&'static str>>,
}

impl RepoPackages {
    /// The names listed for `r`, if any.
    pub open spec fn names(&self, r: Repository) -> Option<Seq<Seq<char>>> {
        let entry = match r {
            Repository::Arch => self.arch,
            Repository::Debian => self.debian,
            Repository::Fedora => self.fedora,
            Repository::RedHat => self.redhat,
            Repository::Ubuntu => self.ubuntu,
        };
        match entry {
            Some(v) => Some(str_views(v@)),
            None => None,
        }
    }

    /// No repository lists the package.
    pub fn new() -> (r: Self)
        ensures
            forall|x: Repository| r.names(x) is None,
    {
        RepoPackages { arch: None, debian: None, fedora: None, redhat: None, ubuntu: None }
    }

    /// The names listed for `r`, if any (`HashMap::get`).
    pub fn get(&self, r: &Repository) -> (res: Option<&Vec<&'static str>>)
        ensures
            match res {
                Some(v) => self.names(*r) == Some(str_views(v@)),
                None => self.names(*r) is None,
            },
    {
        match r {
            Repository::Arch => self.arch.as_ref(),
            Repository::Debian => self.debian.as_ref(),
            Repository::Fedora => self.fedora.as_ref(),
            Repository::RedHat => self.redhat.as_ref(),
            Repository::Ubuntu => self.ubuntu.as_ref(),
        }
    }

    /// Whether some names are listed for `r` (`HashMap::contains_key`).
    pub fn contains_key(&self, r: &Repository) -> (res: bool)
        ensures
            res == self.names(*r) is Some,
    {
        self.get(r).is_some()
    }
}

/// The work done before or after a package is installed with a given method.
#[derive(PartialEq, Eq, Structural, Clone, Copy, Debug)]
pub enum InstallHook {
    DotnetRuntimeRepository,
    DotnetSdkSetup,
    GoCleanup,
    GoSetup,
    NeovimCleanup,
    NeovimSetup,
    NodeModule,
    CargoCleanup,
    RustupPrepare,
    RustAnalyzer,
    SnapSetup,
    VimCleanup,
    VimSetup,
    SteamRepository,
    IdeavimConfig,
    PycharmRepository,
    VscodeRepository,
    VscodeSetup,
}

/// The abstract value of a [`Flatpak`].
#[verifier::ext_equal]
pub struct FlatpakView {
    pub name: Seq<char>,
    pub is_verified: bool,
    pub remotes: Seq<Seq<char>>,
}

/// The abstract value of a [`Snap`].
#[verifier::ext_equal]
pub struct SnapView {
    pub name: Seq<char>,
    pub is_official: bool,
    pub is_classic: bool,
    pub channel: Seq<char>,
}

/// The abstract value of a [`Package`].
#[verifier::ext_equal]
pub struct PackageView {
    pub name: Seq<char>,
    pub desktop_environment: Option<DesktopEnvironment>,
    pub arch: Option<Seq<Seq<char>>>,
    pub debian: Option<Seq<Seq<char>>>,
    pub fedora: Option<Seq<Seq<char>>>,
    pub redhat: Option<Seq<Seq<char>>>,
    pub ubuntu: Option<Seq<Seq<char>>>,
    pub flatpak: Option<FlatpakView>,
    pub snap: Option<SnapView>,
    pub other: Option<Seq<char>>,
    pub pre_install: Option<InstallHook>,
    pub post_install: Option<InstallHook>,
}

impl View for Package {
    type V = PackageView;

    open spec fn view(&self) -> PackageView {
        PackageView {
            name: self.name@,
            desktop_environment: self.desktop_environment,
            arch: self.repository.names(Repository::Arch),
            debian: self.repository.names(Repository::Debian),
            fedora: self.repository.names(Repository::Fedora),
            redhat: self.repository.names(Repository::RedHat),
            ubuntu: self.repository.names(Repository::Ubuntu),
            flatpak: match self.flatpak {
                Some(fp) => Some(FlatpakView { name: fp.name@, is_verified: fp.is_verified, remotes: str_views(fp.remotes@) }),
                None => None,
            },
            snap: match self.snap {
                Some(snp) => Some(SnapView { name: snp.name@, is_official: snp.is_official, is_classic: snp.is_classic, channel: snp.channel@ }),
                None => None,
            },
            other: match self.other {
                Some(otr) => Some(otr.name@),
                None => None,
            },
            pre_install: self.pre_install,
            post_install: self.post_install,
        }
    }
}

/// The abstract values of a sequence of packages.
pub open spec fn package_views(v: Seq<Package>) -> Seq<PackageView> {
    v.map_values(|p: Package| p@)
}

/// A package offered by the installer.
pub struct Package {
    pub name: &'static str,
    pub desktop_environment: Option<DesktopEnvironment>,
    pub repository: RepoPackages,
    pub flatpak: Option<Flatpak>,
    pub snap: Option<Snap>,
    pub other: Option<OtherPackage>,
    pub pre_install: Option<InstallHook>,
    pub post_install: Option<InstallHook>,
}

impl Package {
    /// A package with no name and no way to install it.
    pub fn new() -> (p: Self)
        ensures
            p.name@.len() == 0,
            p.desktop_environment is None,
            forall|r: Repository| p.repository.names(r) is None,
            p.flatpak is None,
            p.snap is None,
            p.other is None,
            p.pre_install is None,
            p.post_install is None,
    {
        proof {
            reveal_strlit("");
        }
        Package {
            name: "",
            desktop_environment: None,
            repository: RepoPackages::new(),
            flatpak: None,
            snap: None,
            other: None,
            pre_install: None,
            post_install: None,
        }
    }
}

} // verus!
