//! The listing of the registered shims, with or without what each resolves
//! to. Nothing of a listing is kept: each is worked out anew from the registry
//! and the context as they stand.

use vstd::prelude::*;
use crate::context::{Context, ContextView};
use crate::error::ResolveError;
use crate::location::texts;
use crate::registry::ShimRegistry;
use crate::resolve::{resolution, resolve_shim};
use crate::target::{DispatchTarget, TargetView};

verus! {

/// One line of a listing.
#[derive(Debug, PartialEq, Eq)]
pub struct ShimInfo {
    /// The name of the shim.
    pub name: String,
    /// What the shim resolves to, where the listing was asked to say.
    pub target: Option<DispatchTarget>,
}

/// What a [`ShimInfo`] holds.
pub struct ShimInfoView {
    pub name: Seq<char>,
    pub target: Option<TargetView>,
}

impl View for ShimInfo {
    type V = ShimInfoView;

    open spec fn view(&self) -> ShimInfoView {
        ShimInfoView {
            name: self.name@,
            target: match self.target {
                Some(t) => Some(t@),
                None => None,
            },
        }
    }
}

/// The line for the shim `name`: the name alone, or with `verbose` the name
/// and what it resolves to in `ctx`.
pub open spec fn info_of(name: Seq<char>, ctx: ContextView, verbose: bool) -> Result<
    ShimInfoView,
    ResolveError,
> {
    if verbose {
        match resolution(name, ctx) {
            Ok(target) => Ok(ShimInfoView { name, target: Some(target) }),
            Err(e) => Err(e),
        }
    } else {
        Ok(ShimInfoView { name, target: None })
    }
}

/// The value of the outcome of making one line.
pub open spec fn info_outcome_view(outcome: Result<ShimInfo, ResolveError>) -> Result<
    ShimInfoView,
    ResolveError,
> {
    match outcome {
        Ok(info) => Ok(info@),
        Err(e) => Err(e),
    }
}

/// Makes the line for the shim `name`: the name alone, or with `verbose` the
/// name and what it resolves to in `ctx`. Fails where the line needs a
/// resolution and the resolution fails.
pub fn shim_info(ctx: &Context, name: &str, verbose: bool) -> (outcome: Result<
    ShimInfo,
    ResolveError,
>)
    ensures
        info_outcome_view(outcome) == info_of(name@, ctx@, verbose),
{
    if verbose {
        match resolve_shim(ctx, name) {
            Ok(target) => Ok(ShimInfo { name: name.to_owned(), target: Some(target) }),
            Err(e) => Err(e),
        }
    } else {
        Ok(ShimInfo { name: name.to_owned(), target: None })
    }
}

/// The values of the lines of a listing, in order.
pub open spec fn line_views(lines: Seq<ShimInfo>) -> Seq<ShimInfoView> {
    lines.map_values(|line: ShimInfo| line@)
}

/// The value of the outcome of a listing.
pub open spec fn listing_outcome_view(outcome: Result<Vec<ShimInfo>, ResolveError>) -> Result<
    Seq<ShimInfoView>,
    ResolveError,
> {
    match outcome {
        Ok(lines) => Ok(line_views(lines@)),
        Err(e) => Err(e),
    }
}

/// Whether `outcome` is the listing of `entries`: one line for each entry, in
/// order, or the failure of the first entry whose line cannot be made.
pub open spec fn is_listing(
    entries: Seq<Seq<char>>,
    ctx: ContextView,
    verbose: bool,
    outcome: Result<Seq<ShimInfoView>, ResolveError>,
) -> bool {
    match outcome {
        Ok(lines) => {
            &&& lines.len() == entries.len()
            &&& forall|i: int|
                0 <= i < lines.len() ==> info_of(entries[i], ctx, verbose) == Ok::<
                    ShimInfoView,
                    ResolveError,
                >(#[trigger] lines[i])
        },
        Err(e) => exists|k: int|
            {
                &&& 0 <= k < entries.len()
                &&& #[trigger] info_of(entries[k], ctx, verbose) == Err::<
                    ShimInfoView,
                    ResolveError,
                >(e)
                &&& forall|j: int|
                    0 <= j < k ==> (#[trigger] info_of(entries[j], ctx, verbose)) is Ok
            },
    }
}

/// Lists the registered shims in the order of the registry, one line each.
/// Fails with the failure of the first shim whose line cannot be made.
pub fn list(registry: &ShimRegistry, ctx: &Context, verbose: bool) -> (outcome: Result<
    Vec<ShimInfo>,
    ResolveError,
>)
    ensures
        is_listing(registry@, ctx@, verbose, listing_outcome_view(outcome)),
{
    let names = registry.list_entries();
    assert(names@.len() == registry@.len()) by {
        assert(texts(names@).len() == names@.len());
    }
    let mut lines: Vec<ShimInfo> = Vec::new();
    let mut i: usize = 0;
    while i < names.len()
        invariant
            i <= names.len(),
            names@.len() == registry@.len(),
            texts(names@) == registry@,
            lines.len() == i,
            forall|j: int|
                0 <= j < i ==> info_of(registry@[j], ctx@, verbose) == Ok::<
                    ShimInfoView,
                    ResolveError,
                >(#[trigger] lines[j]@),
        decreases names.len() - i,
    {
        match shim_info(ctx, names[i].as_str(), verbose) {
            Ok(info) => {
                lines.push(info);
            },
            Err(e) => {
                assert(info_of(registry@[i as int], ctx@, verbose) == Err::<
                    ShimInfoView,
                    ResolveError,
                >(e));
                assert forall|j: int| 0 <= j < i implies (#[trigger] info_of(
                    registry@[j],
                    ctx@,
                    verbose,
                )) is Ok by {
                    assert(info_of(registry@[j], ctx@, verbose) == Ok::<
                        ShimInfoView,
                        ResolveError,
                    >(lines[j]@));
                }
                return Err(e);
            },
        }
        i += 1;
    }
    assert forall|j: int| 0 <= j < lines@.len() implies info_of(registry@[j], ctx@, verbose)
        == Ok::<ShimInfoView, ResolveError>(#[trigger] line_views(lines@)[j]) by {
        assert(line_views(lines@)[j] == lines[j]@);
    }
    Ok(lines)
}

} // verus!
