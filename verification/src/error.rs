//! The failures that the library reports, and their classes.

use vstd::prelude::*;

verus! {

/// The class of a failure.
#[derive(Clone, Copy, Debug, PartialEq, Eq, Structural)]
pub enum ErrorClass {
    /// No project was found where one was needed.
    ConfigurationError,
    /// An operation on the shim directory failed.
    FileSystemError,
    /// One or more items of a bulk operation failed.
    AggregateError,
    /// A collaborator that resolution had to ask gave no answer.
    UnresolvedInfrastructureError,
}

/// Why a name could not be resolved: the collaborator that gave no answer.
#[derive(Clone, Copy, Debug, PartialEq, Eq, Structural)]
pub enum ResolveError {
    /// The catalog of installed toolchains could not be read.
    CatalogUnavailable,
    /// The user's defaults could not be read.
    UserDefaultsUnavailable,
    /// The place of the toolchains on disk could not be worked out.
    LayoutUnavailable,
}

impl ResolveError {
    /// The class of the failure.
    pub fn class(&self) -> (class: ErrorClass)
        ensures
            class == ErrorClass::UnresolvedInfrastructureError,
    {
        ErrorClass::UnresolvedInfrastructureError
    }
}

/// Why an operation on one shim failed.
#[derive(Debug, PartialEq, Eq)]
pub enum ShimError {
    /// A shim of this name is registered already.
    AlreadyExists { name: String },
    /// No shim of this name is registered.
    DoesNotExist { name: String },
    /// The shim directory could not be read or written. The library never
    /// reports this itself: it is for the caller that carries a change to
    /// disk, and `detail` is whatever that caller has to say.
    Io { name: String, detail: String },
}

/// What a [`ShimError`] holds.
pub enum ShimErrorView {
    AlreadyExists { name: Seq<char> },
    DoesNotExist { name: Seq<char> },
    Io { name: Seq<char>, detail: Seq<char> },
}

impl View for ShimError {
    type V = ShimErrorView;

    open spec fn view(&self) -> ShimErrorView {
        match self {
            ShimError::AlreadyExists { name } => ShimErrorView::AlreadyExists { name: name@ },
            ShimError::DoesNotExist { name } => ShimErrorView::DoesNotExist { name: name@ },
            ShimError::Io { name, detail } => ShimErrorView::Io { name: name@, detail: detail@ },
        }
    }
}

impl ShimErrorView {
    /// The shim that the failure is about.
    pub open spec fn name(self) -> Seq<char> {
        match self {
            ShimErrorView::AlreadyExists { name } => name,
            ShimErrorView::DoesNotExist { name } => name,
            ShimErrorView::Io { name, .. } => name,
        }
    }

    /// Whether the failure explains itself to a user. One that does not is
    /// opaque: all that can be shown of it is its detail.
    pub open spec fn is_user_friendly(self) -> bool {
        !(self is Io)
    }
}

impl Clone for ShimError {
    fn clone(&self) -> (copy: ShimError)
        ensures
            copy@ == self@,
    {
        match self {
            ShimError::AlreadyExists { name } => ShimError::AlreadyExists { name: name.clone() },
            ShimError::DoesNotExist { name } => ShimError::DoesNotExist { name: name.clone() },
            ShimError::Io { name, detail } => ShimError::Io {
                name: name.clone(),
                detail: detail.clone(),
            },
        }
    }
}

impl ShimError {
    /// The shim that the failure is about.
    pub fn name(&self) -> (name: &String)
        ensures
            name@ == self@.name(),
    {
        match self {
            ShimError::AlreadyExists { name } => name,
            ShimError::DoesNotExist { name } => name,
            ShimError::Io { name, .. } => name,
        }
    }

    /// Whether the failure explains itself to a user.
    pub fn is_user_friendly(&self) -> (friendly: bool)
        ensures
            friendly == self@.is_user_friendly(),
    {
        match self {
            ShimError::Io { .. } => false,
            _ => true,
        }
    }

    /// The class of the failure.
    pub fn class(&self) -> (class: ErrorClass)
        ensures
            class == ErrorClass::FileSystemError,
    {
        ErrorClass::FileSystemError
    }
}

/// The values of a list of failures, in order.
pub open spec fn failure_views(failures: Seq<ShimError>) -> Seq<ShimErrorView> {
    failures.map_values(|failure: ShimError| failure@)
}

/// Why shimming a project's binaries failed.
#[derive(Debug, PartialEq, Eq)]
pub enum AutoshimError {
    /// There is no project at `path`.
    NotAPackage { path: String },
    /// Some shims could not be created; the others were. `failures` holds
    /// one entry for each shim that was not, in the order of the attempts.
    Incomplete { failures: Vec<ShimError> },
}

/// What an [`AutoshimError`] holds.
pub enum AutoshimErrorView {
    NotAPackage { path: Seq<char> },
    Incomplete { failures: Seq<ShimErrorView> },
}

impl View for AutoshimError {
    type V = AutoshimErrorView;

    open spec fn view(&self) -> AutoshimErrorView {
        match self {
            AutoshimError::NotAPackage { path } => AutoshimErrorView::NotAPackage { path: path@ },
            AutoshimError::Incomplete { failures } => AutoshimErrorView::Incomplete {
                failures: failure_views(failures@),
            },
        }
    }
}

impl AutoshimErrorView {
    /// The class of the failure.
    pub open spec fn class(self) -> ErrorClass {
        match self {
            AutoshimErrorView::NotAPackage { .. } => ErrorClass::ConfigurationError,
            AutoshimErrorView::Incomplete { .. } => ErrorClass::AggregateError,
        }
    }
}

impl AutoshimError {
    /// The class of the failure.
    pub fn class(&self) -> (class: ErrorClass)
        ensures
            class == self@.class(),
    {
        match self {
            AutoshimError::NotAPackage { .. } => ErrorClass::ConfigurationError,
            AutoshimError::Incomplete { .. } => ErrorClass::AggregateError,
        }
    }
}

} // verus!
