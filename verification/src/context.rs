//! What resolution is given: the project, the catalog of installed
//! toolchains, the user's defaults and the layout of toolchains on disk, each
//! as a snapshot of plain values.

use vstd::prelude::*;
use crate::location::{clone_names, texts, Location};
use crate::text::same_text;
use crate::version::{Version, VersionView};

verus! {

/// The answer of a collaborator that may have failed to give one.
#[derive(Debug, PartialEq, Eq)]
pub enum Lookup<T> {
    /// The collaborator answered.
    Known(T),
    /// The collaborator could not be asked, or failed.
    Unavailable,
}

/// A toolchain whose versions are installed side by side.
#[derive(Clone, Copy, Debug, PartialEq, Eq, Structural)]
pub enum Toolchain {
    Node,
    Yarn,
}

/// The value of an optional version.
pub open spec fn optional_version(version: Option<Version>) -> Option<VersionView> {
    match version {
        Some(v) => Some(v@),
        None => None,
    }
}

/// The values of a list of versions, in order.
pub open spec fn version_views(versions: Seq<Version>) -> Seq<VersionView> {
    versions.map_values(|v: Version| v@)
}

/// Copies an optional version.
pub(crate) fn clone_optional_version(version: &Option<Version>) -> (copy: Option<Version>)
    ensures
        optional_version(copy) == optional_version(*version),
{
    match version {
        Some(v) => Some(v.clone()),
        None => None,
    }
}

/// Copies a list of versions.
pub(crate) fn clone_versions(versions: &Vec<Version>) -> (copy: Vec<Version>)
    ensures
        version_views(copy@) == version_views(versions@),
{
    let mut copy: Vec<Version> = Vec::new();
    let mut i: usize = 0;
    while i < versions.len()
        invariant
            i <= versions.len(),
            copy.len() == i,
            forall|j: int| 0 <= j < i ==> copy@[j]@ == versions@[j]@,
        decreases versions.len() - i,
    {
        copy.push(versions[i].clone());
        i += 1;
    }
    assert(version_views(copy@) =~= version_views(versions@));
    copy
}

/// Whether `versions` holds the release that `wanted` names.
pub open spec fn installed(versions: Seq<VersionView>, wanted: VersionView) -> bool {
    exists|i: int| 0 <= i < versions.len() && (#[trigger] versions[i]).same_release(wanted)
}

/// Whether `versions` holds the release that `wanted` names.
pub fn has_release(versions: &Vec<Version>, wanted: &Version) -> (found: bool)
    ensures
        found == installed(version_views(versions@), wanted@),
{
    let mut i: usize = 0;
    while i < versions.len()
        invariant
            i <= versions.len(),
            forall|j: int| 0 <= j < i ==> !versions@[j]@.same_release(wanted@),
        decreases versions.len() - i,
    {
        if versions[i].same_release(wanted) {
            assert(version_views(versions@)[i as int].same_release(wanted@));
            return true;
        }
        i += 1;
    }
    assert forall|j: int| 0 <= j < version_views(versions@).len() implies !(
    #[trigger] version_views(versions@)[j]).same_release(wanted@) by {
        assert(version_views(versions@)[j] == versions@[j]@);
    }
    false
}

/// The toolchain versions that a project pins.
#[derive(Debug, PartialEq, Eq)]
pub struct PlatformConfig {
    /// The pinned version of Node.
    pub node: Version,
    /// The pinned version of Yarn. A project that pins Node and no Yarn has
    /// no Yarn at all.
    pub yarn: Option<Version>,
}

/// What a [`PlatformConfig`] holds.
pub struct PlatformView {
    pub node: VersionView,
    pub yarn: Option<VersionView>,
}

impl View for PlatformConfig {
    type V = PlatformView;

    open spec fn view(&self) -> PlatformView {
        PlatformView { node: self.node@, yarn: optional_version(self.yarn) }
    }
}

impl Clone for PlatformConfig {
    fn clone(&self) -> (copy: PlatformConfig)
        ensures
            copy@ == self@,
    {
        PlatformConfig { node: self.node.clone(), yarn: clone_optional_version(&self.yarn) }
    }
}

/// What is known of a project.
#[derive(Debug, PartialEq, Eq)]
pub struct Project {
    /// The toolchain versions that the project pins, if it pins any.
    pub platform: Option<PlatformConfig>,
    /// The names of the binaries that the project declares directly: its own
    /// executables and those of its direct dependencies.
    pub binaries: Vec<String>,
    /// The directory that holds the project's local binaries.
    pub local_bin_dir: Location,
}

/// What a [`Project`] holds.
pub struct ProjectView {
    pub platform: Option<PlatformView>,
    pub binaries: Seq<Seq<char>>,
    pub local_bin_dir: Seq<Seq<char>>,
}

impl View for Project {
    type V = ProjectView;

    open spec fn view(&self) -> ProjectView {
        ProjectView {
            platform: match self.platform {
                Some(p) => Some(p@),
                None => None,
            },
            binaries: texts(self.binaries@),
            local_bin_dir: self.local_bin_dir@,
        }
    }
}

impl Clone for Project {
    fn clone(&self) -> (copy: Project)
        ensures
            copy@ == self@,
    {
        Project {
            platform: match &self.platform {
                Some(p) => Some(p.clone()),
                None => None,
            },
            binaries: clone_names(&self.binaries),
            local_bin_dir: self.local_bin_dir.clone(),
        }
    }
}

impl ProjectView {
    /// Whether the project directly declares a binary called `name`.
    pub open spec fn has_direct_bin(self, name: Seq<char>) -> bool {
        self.binaries.contains(name)
    }
}

impl Project {
    /// Whether the project directly declares a binary called `name`.
    pub fn has_direct_bin(&self, name: &str) -> (found: bool)
        ensures
            found == self@.has_direct_bin(name@),
    {
        let mut i: usize = 0;
        while i < self.binaries.len()
            invariant
                i <= self.binaries.len(),
                forall|j: int| 0 <= j < i ==> self.binaries@[j]@ != name@,
            decreases self.binaries.len() - i,
        {
            if same_text(self.binaries[i].as_str(), name) {
                assert(self@.binaries[i as int] == name@);
                return true;
            }
            i += 1;
        }
        assert forall|j: int| 0 <= j < self@.binaries.len() implies self@.binaries[j] != name@ by {
            assert(self@.binaries[j] == self.binaries@[j]@);
        }
        false
    }
}

/// The installed versions of each toolchain, and the default where a
/// toolchain has one.
#[derive(Debug, PartialEq, Eq)]
pub struct Catalog {
    /// The installed versions of Node.
    pub node: Vec<Version>,
    /// The installed versions of Yarn.
    pub yarn: Vec<Version>,
    /// The version of Yarn to use outside any project that pins one.
    pub yarn_default: Option<Version>,
}

/// What a [`Catalog`] holds.
pub struct CatalogView {
    pub node: Seq<VersionView>,
    pub yarn: Seq<VersionView>,
    pub yarn_default: Option<VersionView>,
}

impl View for Catalog {
    type V = CatalogView;

    open spec fn view(&self) -> CatalogView {
        CatalogView {
            node: version_views(self.node@),
            yarn: version_views(self.yarn@),
            yarn_default: optional_version(self.yarn_default),
        }
    }
}

impl Clone for Catalog {
    fn clone(&self) -> (copy: Catalog)
        ensures
            copy@ == self@,
    {
        Catalog {
            node: clone_versions(&self.node),
            yarn: clone_versions(&self.yarn),
            yarn_default: clone_optional_version(&self.yarn_default),
        }
    }
}

impl CatalogView {
    /// Whether version `wanted` of `tool` is installed.
    pub open spec fn contains(self, tool: Toolchain, wanted: VersionView) -> bool {
        match tool {
            Toolchain::Node => installed(self.node, wanted),
            Toolchain::Yarn => installed(self.yarn, wanted),
        }
    }
}

impl Catalog {
    /// Whether version `wanted` of `tool` is installed.
    pub fn contains(&self, tool: Toolchain, wanted: &Version) -> (found: bool)
        ensures
            found == self@.contains(tool, wanted@),
    {
        match tool {
            Toolchain::Node => has_release(&self.node, wanted),
            Toolchain::Yarn => has_release(&self.yarn, wanted),
        }
    }
}

/// Where the versions of one toolchain lie on disk.
#[derive(Debug, PartialEq, Eq)]
pub struct ToolchainDirs {
    /// The directory with one subdirectory for each installed version, named
    /// by the version's text.
    pub versions: Location,
    /// The path from a version's directory to its executables; empty where
    /// they lie in the version's directory itself.
    pub bin: Location,
}

/// What a [`ToolchainDirs`] holds.
pub struct ToolchainDirsView {
    pub versions: Seq<Seq<char>>,
    pub bin: Seq<Seq<char>>,
}

impl View for ToolchainDirs {
    type V = ToolchainDirsView;

    open spec fn view(&self) -> ToolchainDirsView {
        ToolchainDirsView { versions: self.versions@, bin: self.bin@ }
    }
}

impl Clone for ToolchainDirs {
    fn clone(&self) -> (copy: ToolchainDirs)
        ensures
            copy@ == self@,
    {
        ToolchainDirs { versions: self.versions.clone(), bin: self.bin.clone() }
    }
}

impl ToolchainDirsView {
    /// The directory with the executables of the version whose directory is
    /// called `version_dir`.
    pub open spec fn bin_dir(self, version_dir: Seq<char>) -> Seq<Seq<char>> {
        self.versions.push(version_dir) + self.bin
    }
}

impl ToolchainDirs {
    /// The directory with the executables of the version whose directory is
    /// called `version_dir`.
    pub fn bin_dir(&self, version_dir: &str) -> (dir: Location)
        ensures
            dir@ == self@.bin_dir(version_dir@),
    {
        self.versions.join(version_dir).concat(&self.bin)
    }
}

/// Where the toolchains lie on disk.
#[derive(Debug, PartialEq, Eq)]
pub struct Layout {
    pub node: ToolchainDirs,
    pub yarn: ToolchainDirs,
}

/// What a [`Layout`] holds.
pub struct LayoutView {
    pub node: ToolchainDirsView,
    pub yarn: ToolchainDirsView,
}

impl View for Layout {
    type V = LayoutView;

    open spec fn view(&self) -> LayoutView {
        LayoutView { node: self.node@, yarn: self.yarn@ }
    }
}

impl Clone for Layout {
    fn clone(&self) -> (copy: Layout)
        ensures
            copy@ == self@,
    {
        Layout { node: self.node.clone(), yarn: self.yarn.clone() }
    }
}

impl LayoutView {
    /// The directory with the executables of the version of `tool` whose
    /// directory is called `version_dir`.
    pub open spec fn bin_dir(self, tool: Toolchain, version_dir: Seq<char>) -> Seq<Seq<char>> {
        match tool {
            Toolchain::Node => self.node.bin_dir(version_dir),
            Toolchain::Yarn => self.yarn.bin_dir(version_dir),
        }
    }

    /// The path of the executable `name` of the version of `tool` whose
    /// directory is called `version_dir`.
    pub open spec fn binary(self, tool: Toolchain, version_dir: Seq<char>, name: Seq<char>) -> Seq<
        Seq<char>,
    > {
        self.bin_dir(tool, version_dir).push(name)
    }
}

impl Layout {
    /// The directory with the executables of the version of `tool` whose
    /// directory is called `version_dir`.
    pub fn bin_dir(&self, tool: Toolchain, version_dir: &str) -> (dir: Location)
        ensures
            dir@ == self@.bin_dir(tool, version_dir@),
    {
        match tool {
            Toolchain::Node => self.node.bin_dir(version_dir),
            Toolchain::Yarn => self.yarn.bin_dir(version_dir),
        }
    }

    /// The path of the executable `name` of the version of `tool` whose
    /// directory is called `version_dir`.
    pub fn binary(&self, tool: Toolchain, version_dir: &str, name: &str) -> (path: Location)
        ensures
            path@ == self@.binary(tool, version_dir@, name@),
    {
        self.bin_dir(tool, version_dir).join(name)
    }
}

/// Everything that resolution reads, as it stood when the snapshot was taken.
#[derive(Debug, PartialEq, Eq)]
pub struct Context {
    /// The project in whose tree the caller stands, if there is one.
    pub project: Option<Project>,
    /// The catalog of installed toolchains.
    pub catalog: Lookup<Catalog>,
    /// The version of Node that the user chose as a default, if any.
    pub user_node: Lookup<Option<Version>>,
    /// The layout of the toolchains on disk.
    pub layout: Lookup<Layout>,
}

/// What a [`Context`] holds.
pub struct ContextView {
    pub project: Option<ProjectView>,
    pub catalog: Lookup<CatalogView>,
    pub user_node: Lookup<Option<VersionView>>,
    pub layout: Lookup<LayoutView>,
}

impl View for Context {
    type V = ContextView;

    open spec fn view(&self) -> ContextView {
        ContextView {
            project: match self.project {
                Some(p) => Some(p@),
                None => None,
            },
            catalog: match self.catalog {
                Lookup::Known(c) => Lookup::Known(c@),
                Lookup::Unavailable => Lookup::Unavailable,
            },
            user_node: match self.user_node {
                Lookup::Known(v) => Lookup::Known(optional_version(v)),
                Lookup::Unavailable => Lookup::Unavailable,
            },
            layout: match self.layout {
                Lookup::Known(l) => Lookup::Known(l@),
                Lookup::Unavailable => Lookup::Unavailable,
            },
        }
    }
}

impl Clone for Context {
    fn clone(&self) -> (copy: Context)
        ensures
            copy@ == self@,
    {
        Context {
            project: match &self.project {
                Some(p) => Some(p.clone()),
                None => None,
            },
            catalog: match &self.catalog {
                Lookup::Known(c) => Lookup::Known(c.clone()),
                Lookup::Unavailable => Lookup::Unavailable,
            },
            user_node: match &self.user_node {
                Lookup::Known(v) => Lookup::Known(clone_optional_version(v)),
                Lookup::Unavailable => Lookup::Unavailable,
            },
            layout: match &self.layout {
                Lookup::Known(l) => Lookup::Known(l.clone()),
                Lookup::Unavailable => Lookup::Unavailable,
            },
        }
    }
}

impl ContextView {
    /// The toolchain versions that the current project pins, if there is a
    /// project and it pins any.
    pub open spec fn platform(self) -> Option<PlatformView> {
        match self.project {
            Some(project) => project.platform,
            None => None,
        }
    }

    /// The directory of local binaries of the current project, if there is a
    /// project and it directly declares a binary called `name`.
    pub open spec fn declaring_dir(self, name: Seq<char>) -> Option<Seq<Seq<char>>> {
        match self.project {
            Some(project) if project.has_direct_bin(name) => Some(project.local_bin_dir),
            _ => None,
        }
    }
}

} // verus!
