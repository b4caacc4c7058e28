//! Resolution of a shim name to what would run under it.
//!
//! Each class of name has its own rule, and each rule asks its collaborators
//! in a fixed order. Resolution fails only where a collaborator that the rule
//! had to ask gave no answer; that nothing stands behind a name is an
//! outcome, not a failure.

use vstd::prelude::*;
use crate::class::{class_of, classify, lemma_reserved_names, ToolClass};
use crate::context::{Context, ContextView, LayoutView, Lookup, Toolchain};
use crate::error::ResolveError;
use crate::location::Location;
use crate::target::{DispatchTarget, TargetView};
use crate::version::{semver_text, version_text, Version, VersionView};

verus! {

/// The value of the outcome of a resolution.
pub open spec fn outcome_view(outcome: Result<DispatchTarget, ResolveError>) -> Result<
    TargetView,
    ResolveError,
> {
    match outcome {
        Ok(target) => Ok(target@),
        Err(e) => Err(e),
    }
}

/// The path of the executable `name` of version `version` of `tool`, where
/// the layout is known.
pub open spec fn toolchain_binary(
    layout: Lookup<LayoutView>,
    tool: Toolchain,
    version: VersionView,
    name: Seq<char>,
) -> Result<Seq<Seq<char>>, ResolveError> {
    match layout {
        Lookup::Known(l) => Ok(l.binary(tool, version_text(version), name)),
        Lookup::Unavailable => Err(ResolveError::LayoutUnavailable),
    }
}

/// What a version that a project pins resolves to: its binary where the
/// version is installed, and else the notice that it will be installed.
pub open spec fn pinned_resolution(
    name: Seq<char>,
    tool: Toolchain,
    version: VersionView,
    ctx: ContextView,
) -> Result<TargetView, ResolveError> {
    match ctx.catalog {
        Lookup::Unavailable => Err(ResolveError::CatalogUnavailable),
        Lookup::Known(catalog) => if catalog.contains(tool, version) {
            match toolchain_binary(ctx.layout, tool, version, name) {
                Ok(path) => Ok(TargetView::PinnedToolchainBinary(path)),
                Err(e) => Err(e),
            }
        } else {
            Ok(TargetView::PendingInstall(version))
        },
    }
}

/// What a default version resolves to: its binary, installed or not.
pub open spec fn default_resolution(
    name: Seq<char>,
    tool: Toolchain,
    version: VersionView,
    ctx: ContextView,
) -> Result<TargetView, ResolveError> {
    match toolchain_binary(ctx.layout, tool, version, name) {
        Ok(path) => Ok(TargetView::UserDefaultBinary(path)),
        Err(e) => Err(e),
    }
}

/// The rule for `node` and `npm`: the project's pin, then the user's default,
/// then the system.
pub open spec fn node_resolution(name: Seq<char>, ctx: ContextView) -> Result<
    TargetView,
    ResolveError,
> {
    match ctx.platform() {
        Some(platform) => pinned_resolution(name, Toolchain::Node, platform.node, ctx),
        None => match ctx.user_node {
            Lookup::Unavailable => Err(ResolveError::UserDefaultsUnavailable),
            Lookup::Known(Some(version)) => default_resolution(
                name,
                Toolchain::Node,
                version,
                ctx,
            ),
            Lookup::Known(None) => Ok(TargetView::SystemFallback),
        },
    }
}

/// The rule for `yarn`: in a project that pins toolchains, the pinned Yarn or
/// none at all; elsewhere the catalog's default, then the system.
pub open spec fn yarn_resolution(name: Seq<char>, ctx: ContextView) -> Result<
    TargetView,
    ResolveError,
> {
    match ctx.platform() {
        Some(platform) => match platform.yarn {
            Some(version) => pinned_resolution(name, Toolchain::Yarn, version, ctx),
            None => Ok(TargetView::NotInstalled),
        },
        None => match ctx.catalog {
            Lookup::Unavailable => Err(ResolveError::CatalogUnavailable),
            Lookup::Known(catalog) => match catalog.yarn_default {
                Some(version) => default_resolution(name, Toolchain::Yarn, version, ctx),
                None => Ok(TargetView::SystemFallback),
            },
        },
    }
}

/// The rule for `npx`, which has none yet.
pub open spec fn npx_resolution() -> Result<TargetView, ResolveError> {
    Ok(TargetView::Unimplemented)
}

/// The rule for every other name: a binary that the current project declares
/// directly, or nothing.
pub open spec fn third_party_resolution(name: Seq<char>, ctx: ContextView) -> Result<
    TargetView,
    ResolveError,
> {
    match ctx.project {
        Some(project) => if project.has_direct_bin(name) {
            Ok(TargetView::ProjectLocalBinary(project.local_bin_dir.push(name)))
        } else {
            Ok(TargetView::NotInstalled)
        },
        None => Ok(TargetView::NotInstalled),
    }
}

/// What the shim `name` resolves to in the context `ctx`.
pub open spec fn resolution(name: Seq<char>, ctx: ContextView) -> Result<
    TargetView,
    ResolveError,
> {
    match class_of(name) {
        ToolClass::Node => node_resolution(name, ctx),
        ToolClass::Yarn => yarn_resolution(name, ctx),
        ToolClass::Npx => npx_resolution(),
        ToolClass::ThirdParty => third_party_resolution(name, ctx),
    }
}

/// The path of the executable `name` of version `version` of `tool`.
fn locate(ctx: &Context, tool: Toolchain, version: &Version, name: &str) -> (path: Result<
    Location,
    ResolveError,
>)
    ensures
        match path {
            Ok(p) => toolchain_binary(ctx@.layout, tool, version@, name@) == Ok::<
                Seq<Seq<char>>,
                ResolveError,
            >(p@),
            Err(e) => toolchain_binary(ctx@.layout, tool, version@, name@) == Err::<
                Seq<Seq<char>>,
                ResolveError,
            >(e),
        },
{
    match &ctx.layout {
        Lookup::Known(layout) => {
            let dir = semver_text(version);
            Ok(layout.binary(tool, dir.as_str(), name))
        },
        Lookup::Unavailable => Err(ResolveError::LayoutUnavailable),
    }
}

/// Resolves `name` to version `version` of `tool`, which a project pins.
fn resolve_pinned(ctx: &Context, tool: Toolchain, version: &Version, name: &str) -> (outcome:
    Result<DispatchTarget, ResolveError>)
    ensures
        outcome_view(outcome) == pinned_resolution(name@, tool, version@, ctx@),
{
    match &ctx.catalog {
        Lookup::Unavailable => Err(ResolveError::CatalogUnavailable),
        Lookup::Known(catalog) => {
            if catalog.contains(tool, version) {
                match locate(ctx, tool, version, name) {
                    Ok(path) => Ok(DispatchTarget::PinnedToolchainBinary(path)),
                    Err(e) => Err(e),
                }
            } else {
                Ok(DispatchTarget::PendingInstall(version.clone()))
            }
        },
    }
}

/// Resolves `name` to version `version` of `tool`, which is a default.
fn resolve_default(ctx: &Context, tool: Toolchain, version: &Version, name: &str) -> (outcome:
    Result<DispatchTarget, ResolveError>)
    ensures
        outcome_view(outcome) == default_resolution(name@, tool, version@, ctx@),
{
    match locate(ctx, tool, version, name) {
        Ok(path) => Ok(DispatchTarget::UserDefaultBinary(path)),
        Err(e) => Err(e),
    }
}

/// Resolves `node` or `npm`: the version that the project pins, installed or
/// about to be; without a pin the user's default; without either the system's.
pub fn resolve_node_shims(ctx: &Context, name: &str) -> (outcome: Result<
    DispatchTarget,
    ResolveError,
>)
    ensures
        outcome_view(outcome) == node_resolution(name@, ctx@),
{
    if let Some(project) = &ctx.project {
        if let Some(platform) = &project.platform {
            return resolve_pinned(ctx, Toolchain::Node, &platform.node, name);
        }
    }
    match &ctx.user_node {
        Lookup::Unavailable => Err(ResolveError::UserDefaultsUnavailable),
        Lookup::Known(Some(version)) => resolve_default(ctx, Toolchain::Node, version, name),
        Lookup::Known(None) => Ok(DispatchTarget::SystemFallback),
    }
}

/// Resolves `yarn`: in a project that pins toolchains the pinned Yarn,
/// installed or about to be, and nothing where it pins none; outside such a
/// project the catalog's default, and without one the system's.
pub fn resolve_yarn_shims(ctx: &Context, name: &str) -> (outcome: Result<
    DispatchTarget,
    ResolveError,
>)
    ensures
        outcome_view(outcome) == yarn_resolution(name@, ctx@),
{
    if let Some(project) = &ctx.project {
        if let Some(platform) = &project.platform {
            return match &platform.yarn {
                Some(version) => resolve_pinned(ctx, Toolchain::Yarn, version, name),
                None => Ok(DispatchTarget::NotInstalled),
            };
        }
    }
    match &ctx.catalog {
        Lookup::Unavailable => Err(ResolveError::CatalogUnavailable),
        Lookup::Known(catalog) => match &catalog.yarn_default {
            Some(version) => resolve_default(ctx, Toolchain::Yarn, version, name),
            None => Ok(DispatchTarget::SystemFallback),
        },
    }
}

/// Resolves `npx`, for which no rule exists yet.
pub fn resolve_npx_shims() -> (outcome: Result<DispatchTarget, ResolveError>)
    ensures
        outcome_view(outcome) == npx_resolution(),
{
    Ok(DispatchTarget::Unimplemented)
}

/// Resolves any other name: a binary that the current project declares
/// directly, inside the project's directory of local binaries, or nothing.
pub fn resolve_3p_shims(ctx: &Context, name: &str) -> (outcome: Result<
    DispatchTarget,
    ResolveError,
>)
    ensures
        outcome_view(outcome) == third_party_resolution(name@, ctx@),
{
    if let Some(project) = &ctx.project {
        if project.has_direct_bin(name) {
            return Ok(DispatchTarget::ProjectLocalBinary(project.local_bin_dir.join(name)));
        }
    }
    Ok(DispatchTarget::NotInstalled)
}

/// Resolves the shim `name` in the context `ctx`.
pub fn resolve_shim(ctx: &Context, name: &str) -> (outcome: Result<DispatchTarget, ResolveError>)
    ensures
        outcome_view(outcome) == resolution(name@, ctx@),
{
    match classify(name) {
        ToolClass::Node => resolve_node_shims(ctx, name),
        ToolClass::Yarn => resolve_yarn_shims(ctx, name),
        ToolClass::Npx => resolve_npx_shims(),
        ToolClass::ThirdParty => resolve_3p_shims(ctx, name),
    }
}

/// Whether version `version` of Node is installed, by the catalog.
pub fn is_node_version_installed(version: &Version, ctx: &Context) -> (found: Result<
    bool,
    ResolveError,
>)
    ensures
        found == match ctx@.catalog {
            Lookup::Known(catalog) => Ok::<bool, ResolveError>(
                catalog.contains(Toolchain::Node, version@),
            ),
            Lookup::Unavailable => Err::<bool, ResolveError>(ResolveError::CatalogUnavailable),
        },
{
    match &ctx.catalog {
        Lookup::Known(catalog) => Ok(catalog.contains(Toolchain::Node, version)),
        Lookup::Unavailable => Err(ResolveError::CatalogUnavailable),
    }
}

/// A name other than `node`, `npm`, `yarn` and `npx` resolves by what the
/// project declares and by nothing else: two contexts in which the name is
/// declared alike, by projects with the same directory of local binaries, or
/// declared in neither, give the same outcome, whatever their catalogs,
/// defaults, layouts and pins hold. The outcome is never a failure: it is the
/// project's binary of that name where the project declares one directly, and
/// nothing otherwise.
pub proof fn third_party_resolves_by_declaration_alone(
    name: Seq<char>,
    a: ContextView,
    b: ContextView,
)
    requires
        name != "node"@,
        name != "npm"@,
        name != "yarn"@,
        name != "npx"@,
        a.declaring_dir(name) == b.declaring_dir(name),
    ensures
        resolution(name, a) == resolution(name, b),
        resolution(name, a) == match a.declaring_dir(name) {
            Some(dir) => Ok::<TargetView, ResolveError>(
                TargetView::ProjectLocalBinary(dir.push(name)),
            ),
            None => Ok::<TargetView, ResolveError>(TargetView::NotInstalled),
        },
{
}

/// Where the project pins Node at `version` and the catalog can be read:
/// with `version` installed, `node` and `npm` resolve to the file of that
/// name in the directory of that version's executables; with `version` not
/// installed, they resolve to the notice that `version` will be installed,
/// which names no path.
pub proof fn pinned_node_resolves_to_pin(name: Seq<char>, ctx: ContextView, version: VersionView)
    requires
        name == "node"@ || name == "npm"@,
        ctx.platform() matches Some(platform) && platform.node == version,
        ctx.catalog is Known,
        ctx.catalog->Known_0.contains(Toolchain::Node, version) ==> ctx.layout is Known,
    ensures
        ctx.catalog->Known_0.contains(Toolchain::Node, version) ==> resolution(name, ctx) == Ok::<
            TargetView,
            ResolveError,
        >(
            TargetView::PinnedToolchainBinary(
                ctx.layout->Known_0.bin_dir(Toolchain::Node, version_text(version)).push(name),
            ),
        ),
        !ctx.catalog->Known_0.contains(Toolchain::Node, version) ==> resolution(name, ctx) == Ok::<
            TargetView,
            ResolveError,
        >(TargetView::PendingInstall(version)),
        !ctx.catalog->Known_0.contains(Toolchain::Node, version) ==> resolution(
            name,
            ctx,
        )->Ok_0.path() is None,
{
}

/// In a project that pins Node and no Yarn, `yarn` resolves to nothing,
/// whatever default the catalog holds and whether or not it can be read.
pub proof fn yarn_without_pin_is_not_installed(ctx: ContextView)
    requires
        ctx.platform() matches Some(platform) && platform.yarn is None,
    ensures
        resolution("yarn"@, ctx) == Ok::<TargetView, ResolveError>(TargetView::NotInstalled),
{
    lemma_reserved_names();
}

/// `npx` resolves to the notice that it cannot be resolved yet, in every
/// context.
pub proof fn npx_is_unimplemented(ctx: ContextView)
    ensures
        resolution("npx"@, ctx) == Ok::<TargetView, ResolveError>(TargetView::Unimplemented),
{
    lemma_reserved_names();
}

} // verus!
