//! Shimming of every binary that a project declares directly.
//!
//! One shim that cannot be created does not stop the others: each failure is
//! kept, the scan goes on, and only at its end does the whole report failure,
//! with the list of what went wrong.

use vstd::prelude::*;
use crate::context::{Context, ContextView, Project, ProjectView};
use crate::error::{failure_views, AutoshimError, AutoshimErrorView, ShimError, ShimErrorView};
use crate::registry::{create, create_outcome, entries_after_create, ShimRegistry};

verus! {

/// A directory that the caller named as the root of a project, and the
/// project that was found there, if any was.
#[derive(Debug, PartialEq, Eq)]
pub struct ScanRoot {
    /// The path as the caller wrote it.
    pub path: String,
    /// The project at that path.
    pub project: Option<Project>,
}

/// What a [`ScanRoot`] holds.
pub struct ScanRootView {
    pub path: Seq<char>,
    pub project: Option<ProjectView>,
}

impl View for ScanRoot {
    type V = ScanRootView;

    open spec fn view(&self) -> ScanRootView {
        ScanRootView {
            path: self.path@,
            project: match self.project {
                Some(p) => Some(p@),
                None => None,
            },
        }
    }
}

/// The value of an optional root.
pub open spec fn optional_root(root: Option<ScanRoot>) -> Option<ScanRootView> {
    match root {
        Some(r) => Some(r@),
        None => None,
    }
}

/// The project to scan: the one at the root that the caller named, or, where
/// the caller named none, the one of the context. Where there is no project,
/// the failure carries the path that the caller named, or `.` for the
/// context.
pub open spec fn project_to_scan(ctx: ContextView, root: Option<ScanRootView>) -> Result<
    ProjectView,
    AutoshimErrorView,
> {
    match root {
        Some(named) => match named.project {
            Some(project) => Ok(project),
            None => Err(AutoshimErrorView::NotAPackage { path: named.path }),
        },
        None => match ctx.project {
            Some(project) => Ok(project),
            None => Err(AutoshimErrorView::NotAPackage { path: "."@ }),
        },
    }
}

/// The registry and the failures after an attempt to create a shim for each
/// of `names` in turn, starting from `entries`.
pub open spec fn scan(entries: Seq<Seq<char>>, names: Seq<Seq<char>>) -> (
    Seq<Seq<char>>,
    Seq<ShimErrorView>,
)
    decreases names.len(),
{
    if names.len() == 0 {
        (entries, Seq::<ShimErrorView>::empty())
    } else {
        let earlier = scan(entries, names.drop_last());
        (
            entries_after_create(earlier.0, names.last()),
            match create_outcome(earlier.0, names.last()) {
                Ok(()) => earlier.1,
                Err(failure) => earlier.1.push(failure),
            },
        )
    }
}

/// How a scan with these failures ends: well where there are none.
pub open spec fn conclusion(failures: Seq<ShimErrorView>) -> Result<(), AutoshimErrorView> {
    if failures.len() == 0 {
        Ok(())
    } else {
        Err(AutoshimErrorView::Incomplete { failures })
    }
}

/// The value of the outcome of a scan.
pub open spec fn autoshim_outcome_view(outcome: Result<(), AutoshimError>) -> Result<
    (),
    AutoshimErrorView,
> {
    match outcome {
        Ok(()) => Ok(()),
        Err(e) => Err(e@),
    }
}

/// Ends a scan in which these attempts failed: well where none did, and else
/// with a failure that carries them all, in the same order.
pub fn conclude(failures: Vec<ShimError>) -> (outcome: Result<(), AutoshimError>)
    ensures
        autoshim_outcome_view(outcome) == conclusion(failure_views(failures@)),
{
    if failures.len() == 0 {
        Ok(())
    } else {
        Err(AutoshimError::Incomplete { failures })
    }
}

/// Creates a shim for each binary that `project` declares directly, in the
/// order of declaration, and returns the attempts that failed.
pub fn shim_binaries(registry: &mut ShimRegistry, project: &Project) -> (failures: Vec<ShimError>)
    requires
        old(registry).wf(),
    ensures
        final(registry).wf(),
        final(registry)@ == scan(old(registry)@, project@.binaries).0,
        failure_views(failures@) == scan(old(registry)@, project@.binaries).1,
{
    let ghost names = project@.binaries;
    let mut failures: Vec<ShimError> = Vec::new();
    let mut i: usize = 0;
    while i < project.binaries.len()
        invariant
            i <= project.binaries.len(),
            names == project@.binaries,
            names.len() == project.binaries.len(),
            registry.wf(),
            registry@ == scan(old(registry)@, names.take(i as int)).0,
            failure_views(failures@) == scan(old(registry)@, names.take(i as int)).1,
        decreases project.binaries.len() - i,
    {
        let ghost before = registry@;
        let ghost failed = failure_views(failures@);
        let name = project.binaries[i].clone();
        proof {
            let upto = names.take(i + 1);
            assert(upto.drop_last() =~= names.take(i as int));
        }
        match create(registry, name) {
            Ok(()) => {},
            Err(failure) => {
                failures.push(failure);
                assert(failure_views(failures@) =~= failed.push(failure@));
            },
        }
        i += 1;
    }
    assert(names.take(names.len() as int) =~= names);
    failures
}

/// Creates a shim for every binary that a project declares directly: the
/// project at `root` where the caller names one, the project of `ctx`
/// otherwise.
///
/// Where there is no such project, fails before the registry is touched. Else
/// every binary is attempted, in the order of declaration; one that fails
/// does not stop the rest. The call succeeds where no attempt failed, and
/// otherwise fails with all the failures, while the shims that could be
/// created stay created.
pub fn autoshim(registry: &mut ShimRegistry, ctx: &Context, root: Option<ScanRoot>) -> (outcome:
    Result<(), AutoshimError>)
    requires
        old(registry).wf(),
    ensures
        final(registry).wf(),
        match project_to_scan(ctx@, optional_root(root)) {
            Ok(project) => {
                &&& final(registry)@ == scan(old(registry)@, project.binaries).0
                &&& autoshim_outcome_view(outcome) == conclusion(
                    scan(old(registry)@, project.binaries).1,
                )
            },
            Err(e) => {
                &&& final(registry)@ == old(registry)@
                &&& autoshim_outcome_view(outcome) == Err::<(), AutoshimErrorView>(e)
            },
        },
{
    let failures = match root {
        Some(named) => match &named.project {
            Some(project) => shim_binaries(registry, project),
            None => {
                return Err(AutoshimError::NotAPackage { path: named.path });
            },
        },
        None => match &ctx.project {
            Some(project) => shim_binaries(registry, project),
            None => {
                return Err(AutoshimError::NotAPackage { path: ".".to_owned() });
            },
        },
    };
    conclude(failures)
}

/// A scan leaves registered what was registered, in its place, and registers
/// every name it was given, whatever attempts failed on the way: the registry
/// afterwards holds a name exactly if it held it before or the name was among
/// those given.
pub proof fn scan_registers_every_name(entries: Seq<Seq<char>>, names: Seq<Seq<char>>)
    requires
        entries.no_duplicates(),
    ensures
        scan(entries, names).0.no_duplicates(),
        entries.len() <= scan(entries, names).0.len(),
        scan(entries, names).0.subrange(0, entries.len() as int) == entries,
        forall|name: Seq<char>| #[trigger]
            scan(entries, names).0.contains(name) <==> entries.contains(name) || names.contains(
                name,
            ),
    decreases names.len(),
{
    if names.len() == 0 {
        assert(entries.subrange(0, entries.len() as int) =~= entries);
    } else {
        let earlier = scan(entries, names.drop_last()).0;
        let last = names.last();
        let after = scan(entries, names).0;
        scan_registers_every_name(entries, names.drop_last());
        assert(after.subrange(0, entries.len() as int) =~= earlier.subrange(
            0,
            entries.len() as int,
        ));
        if !earlier.contains(last) {
            assert(after == earlier.push(last));
            assert forall|a: int, b: int|
                0 <= a < after.len() && 0 <= b < after.len() && a != b implies after[a]
                != after[b] by {
                if a < earlier.len() {
                    assert(after[a] == earlier[a]);
                }
                if b < earlier.len() {
                    assert(after[b] == earlier[b]);
                }
            }
        }
        assert forall|name: Seq<char>| #[trigger]
            after.contains(name) <==> entries.contains(name) || names.contains(name) by {
            if names.contains(name) {
                let i = choose|i: int| 0 <= i < names.len() && names[i] == name;
                if i < names.len() - 1 {
                    assert(names.drop_last()[i] == name);
                }
            }
            if names.drop_last().contains(name) {
                let i = choose|i: int|
                    0 <= i < names.drop_last().len() && names.drop_last()[i] == name;
                assert(names[i] == name);
            }
            if earlier.contains(name) {
                let i = choose|i: int| 0 <= i < earlier.len() && earlier[i] == name;
                assert(after[i] == name);
            }
            if after.contains(name) && !earlier.contains(name) {
                let i = choose|i: int| 0 <= i < after.len() && after[i] == name;
                assert(i == earlier.len());
            }
            if name == last {
                assert(names[names.len() - 1] == name);
                if !earlier.contains(last) {
                    assert(after[earlier.len() as int] == name);
                }
            }
        }
    }
}

/// In a scan over names that are all different, the attempts that fail are
/// those for the names that were registered before, in the order given, and
/// each fails because its shim exists.
pub proof fn scan_fails_on_conflicts_only(entries: Seq<Seq<char>>, names: Seq<Seq<char>>)
    requires
        entries.no_duplicates(),
        names.no_duplicates(),
    ensures
        scan(entries, names).1 == names.filter(|name: Seq<char>| entries.contains(name)).map_values(
            |name: Seq<char>| ShimErrorView::AlreadyExists { name },
        ),
    decreases names.len(),
{
    let taken = |name: Seq<char>| entries.contains(name);
    let failure = |name: Seq<char>| ShimErrorView::AlreadyExists { name };
    reveal(Seq::filter);
    if names.len() == 0 {
        assert(names.filter(taken).map_values(failure) =~= Seq::<ShimErrorView>::empty());
    } else {
        let rest = names.drop_last();
        let last = names.last();
        assert(rest.no_duplicates()) by {
            assert forall|a: int, b: int| 0 <= a < rest.len() && 0 <= b < rest.len() && a != b implies
                rest[a] != rest[b] by {
                assert(rest[a] == names[a] && rest[b] == names[b]);
            }
        }
        scan_fails_on_conflicts_only(entries, rest);
        scan_registers_every_name(entries, rest);
        let earlier = scan(entries, rest);
        assert(!rest.contains(last)) by {
            if rest.contains(last) {
                let i = choose|i: int| 0 <= i < rest.len() && rest[i] == last;
                assert(names[i] == names[names.len() - 1]);
            }
        }
        assert(earlier.0.contains(last) <==> entries.contains(last));
        if entries.contains(last) {
            assert(names.filter(taken) == rest.filter(taken).push(last));
            assert(names.filter(taken).map_values(failure) =~= rest.filter(taken).map_values(
                failure,
            ).push(failure(last)));
        } else {
            assert(names.filter(taken) == rest.filter(taken));
        }
    }
}

} // verus!
