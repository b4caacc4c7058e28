//! What a shim resolves to.

use vstd::prelude::*;
use crate::location::Location;
use crate::version::{Version, VersionView};

verus! {

/// The outcome of resolving a shim name: what would run if the name were
/// invoked now. A value of this type is data only; turning it into text is
/// left to whoever shows it.
#[derive(Debug, PartialEq, Eq)]
pub enum DispatchTarget {
    /// A binary that the current project declares, at this path.
    ProjectLocalBinary(Location),
    /// The binary of the toolchain version that the project pins, at this
    /// path.
    PinnedToolchainBinary(Location),
    /// The binary of the version that the user set as a default, at this path.
    UserDefaultBinary(Location),
    /// Whatever the system finds under this name outside managed toolchains.
    SystemFallback,
    /// Nothing stands behind the name.
    NotInstalled,
    /// The pinned version is not installed yet and will be fetched on use.
    PendingInstall(Version),
    /// Names of this class cannot be resolved yet.
    Unimplemented,
}

/// What a [`DispatchTarget`] holds.
pub enum TargetView {
    ProjectLocalBinary(Seq<Seq<char>>),
    PinnedToolchainBinary(Seq<Seq<char>>),
    UserDefaultBinary(Seq<Seq<char>>),
    SystemFallback,
    NotInstalled,
    PendingInstall(VersionView),
    Unimplemented,
}

impl View for DispatchTarget {
    type V = TargetView;

    open spec fn view(&self) -> TargetView {
        match self {
            DispatchTarget::ProjectLocalBinary(path) => TargetView::ProjectLocalBinary(path@),
            DispatchTarget::PinnedToolchainBinary(path) => TargetView::PinnedToolchainBinary(
                path@,
            ),
            DispatchTarget::UserDefaultBinary(path) => TargetView::UserDefaultBinary(path@),
            DispatchTarget::SystemFallback => TargetView::SystemFallback,
            DispatchTarget::NotInstalled => TargetView::NotInstalled,
            DispatchTarget::PendingInstall(version) => TargetView::PendingInstall(version@),
            DispatchTarget::Unimplemented => TargetView::Unimplemented,
        }
    }
}

impl TargetView {
    /// The path of the binary, for the outcomes that name one.
    pub open spec fn path(self) -> Option<Seq<Seq<char>>> {
        match self {
            TargetView::ProjectLocalBinary(path) => Some(path),
            TargetView::PinnedToolchainBinary(path) => Some(path),
            TargetView::UserDefaultBinary(path) => Some(path),
            _ => None,
        }
    }
}

impl Clone for DispatchTarget {
    fn clone(&self) -> (copy: DispatchTarget)
        ensures
            copy@ == self@,
    {
        match self {
            DispatchTarget::ProjectLocalBinary(path) => DispatchTarget::ProjectLocalBinary(
                path.clone(),
            ),
            DispatchTarget::PinnedToolchainBinary(path) => DispatchTarget::PinnedToolchainBinary(
                path.clone(),
            ),
            DispatchTarget::UserDefaultBinary(path) => DispatchTarget::UserDefaultBinary(
                path.clone(),
            ),
            DispatchTarget::SystemFallback => DispatchTarget::SystemFallback,
            DispatchTarget::NotInstalled => DispatchTarget::NotInstalled,
            DispatchTarget::PendingInstall(version) => DispatchTarget::PendingInstall(
                version.clone(),
            ),
            DispatchTarget::Unimplemented => DispatchTarget::Unimplemented,
        }
    }
}

impl DispatchTarget {
    /// The path of the binary, for the outcomes that name one.
    pub fn path(&self) -> (path: Option<&Location>)
        ensures
            match path {
                Some(p) => self@.path() == Some(p@),
                None => self@.path() is None,
            },
    {
        match self {
            DispatchTarget::ProjectLocalBinary(path) => Some(path),
            DispatchTarget::PinnedToolchainBinary(path) => Some(path),
            DispatchTarget::UserDefaultBinary(path) => Some(path),
            _ => None,
        }
    }
}

} // verus!
