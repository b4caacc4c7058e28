//! The registry of shims: the set of names under which a shim is registered,
//! in the order of listing, and the two operations that change it.
//!
//! A shim is its name and nothing more. Creation and deletion are strict:
//! creating a shim that exists fails, and so does deleting one that does not.

use vstd::prelude::*;
use crate::error::{ShimError, ShimErrorView};
use crate::location::{clone_names, texts};
use crate::text::same_text;

verus! {

/// The registered shims.
#[derive(Debug, PartialEq, Eq)]
pub struct ShimRegistry {
    names: Vec<String>,
}

impl View for ShimRegistry {
    type V = Seq<Seq<char>>;

    /// The names of the registered shims, in the order of listing.
    closed spec fn view(&self) -> Seq<Seq<char>> {
        texts(self.names@)
    }
}

/// The entries after an attempt to create `name`: one more where the name was
/// free, the same where it was taken.
pub open spec fn entries_after_create(entries: Seq<Seq<char>>, name: Seq<char>) -> Seq<
    Seq<char>,
> {
    if entries.contains(name) {
        entries
    } else {
        entries.push(name)
    }
}

/// How an attempt to create `name` ends.
pub open spec fn create_outcome(entries: Seq<Seq<char>>, name: Seq<char>) -> Result<
    (),
    ShimErrorView,
> {
    if entries.contains(name) {
        Err(ShimErrorView::AlreadyExists { name })
    } else {
        Ok(())
    }
}

/// The entries after an attempt to delete `name`: without it where it was
/// there, the same where it was not.
pub open spec fn entries_after_delete(entries: Seq<Seq<char>>, name: Seq<char>) -> Seq<
    Seq<char>,
> {
    if entries.contains(name) {
        entries.remove(entries.index_of(name))
    } else {
        entries
    }
}

/// How an attempt to delete `name` ends.
pub open spec fn delete_outcome(entries: Seq<Seq<char>>, name: Seq<char>) -> Result<
    (),
    ShimErrorView,
> {
    if entries.contains(name) {
        Ok(())
    } else {
        Err(ShimErrorView::DoesNotExist { name })
    }
}

/// The value of the outcome of an operation on one shim.
pub open spec fn shim_outcome_view(outcome: Result<(), ShimError>) -> Result<(), ShimErrorView> {
    match outcome {
        Ok(()) => Ok(()),
        Err(e) => Err(e@),
    }
}

/// Taking one entry out of a list without repeats leaves a list without
/// repeats that lacks that entry and holds all the others.
pub proof fn lemma_remove_entry(entries: Seq<Seq<char>>, i: int)
    requires
        entries.no_duplicates(),
        0 <= i < entries.len(),
    ensures
        entries.remove(i).no_duplicates(),
        !entries.remove(i).contains(entries[i]),
        forall|other: Seq<char>|
            other != entries[i] ==> (entries.remove(i).contains(other) <==> entries.contains(
                other,
            )),
        entries.index_of(entries[i]) == i,
{
    let rest = entries.remove(i);
    assert forall|a: int, b: int| 0 <= a < rest.len() && 0 <= b < rest.len() && a != b implies
        rest[a] != rest[b] by {
        let a0 = if a < i { a } else { a + 1 };
        let b0 = if b < i { b } else { b + 1 };
        assert(rest[a] == entries[a0] && rest[b] == entries[b0]);
    }
    assert forall|a: int| 0 <= a < rest.len() implies rest[a] != entries[i] by {
        let a0 = if a < i { a } else { a + 1 };
        assert(rest[a] == entries[a0]);
    }
    assert forall|other: Seq<char>| other != entries[i] implies (rest.contains(other)
        <==> entries.contains(other)) by {
        if rest.contains(other) {
            let a = choose|a: int| 0 <= a < rest.len() && rest[a] == other;
            let a0 = if a < i { a } else { a + 1 };
            assert(entries[a0] == other);
        }
        if entries.contains(other) {
            let a0 = choose|a0: int| 0 <= a0 < entries.len() && entries[a0] == other;
            let a = if a0 < i { a0 } else { a0 - 1 };
            assert(rest[a] == other);
        }
    }
    let first = entries.index_of(entries[i]);
    assert(0 <= first < entries.len() && entries[first] == entries[i]);
}

impl Clone for ShimRegistry {
    fn clone(&self) -> (copy: ShimRegistry)
        ensures
            copy@ == self@,
    {
        ShimRegistry { names: clone_names(&self.names) }
    }
}

impl ShimRegistry {
    /// A registry holds no name twice.
    pub open spec fn wf(&self) -> bool {
        self@.no_duplicates()
    }

    /// The registry without shims.
    pub fn new() -> (registry: ShimRegistry)
        ensures
            registry.wf(),
            registry@ == Seq::<Seq<char>>::empty(),
    {
        let registry = ShimRegistry { names: Vec::new() };
        registry
    }

    /// The registry of the shims called `names`, listed in that order; none
    /// where a name occurs twice.
    pub fn from_names(names: Vec<String>) -> (registry: Option<ShimRegistry>)
        ensures
            registry is Some <==> texts(names@).no_duplicates(),
            registry matches Some(r) ==> r.wf() && r@ == texts(names@),
    {
        let mut i: usize = 0;
        while i < names.len()
            invariant
                i <= names.len(),
                forall|a: int, b: int| 0 <= a < b < i ==> names@[a]@ != names@[b]@,
            decreases names.len() - i,
        {
            let mut j: usize = 0;
            while j < i
                invariant
                    j <= i,
                    i < names.len(),
                    forall|a: int| 0 <= a < j ==> names@[a]@ != names@[i as int]@,
                decreases i - j,
            {
                if same_text(names[j].as_str(), names[i].as_str()) {
                    assert(texts(names@)[j as int] == texts(names@)[i as int]);
                    return None;
                }
                j += 1;
            }
            i += 1;
        }
        assert forall|a: int, b: int|
            0 <= a < texts(names@).len() && 0 <= b < texts(names@).len() && a != b implies texts(
            names@,
        )[a] != texts(names@)[b] by {
            if a < b {
                assert(names@[a]@ != names@[b]@);
            } else {
                assert(names@[b]@ != names@[a]@);
            }
        }
        Some(ShimRegistry { names })
    }

    /// The place of `name` in the listing, if a shim of that name is
    /// registered.
    fn position(&self, name: &str) -> (at: Option<usize>)
        ensures
            at is Some <==> self@.contains(name@),
            at matches Some(i) ==> i < self.names.len() && self@[i as int] == name@,
    {
        let mut i: usize = 0;
        while i < self.names.len()
            invariant
                i <= self.names.len(),
                forall|j: int| 0 <= j < i ==> self.names@[j]@ != name@,
            decreases self.names.len() - i,
        {
            if same_text(self.names[i].as_str(), name) {
                assert(self@[i as int] == name@);
                return Some(i);
            }
            i += 1;
        }
        assert forall|j: int| 0 <= j < self@.len() implies self@[j] != name@ by {
            assert(self@[j] == self.names@[j]@);
        }
        None
    }

    /// Whether a shim called `name` is registered.
    pub fn contains(&self, name: &str) -> (found: bool)
        ensures
            found == self@.contains(name@),
    {
        self.position(name).is_some()
    }

    /// The names of the registered shims, in the order of listing.
    pub fn list_entries(&self) -> (names: Vec<String>)
        ensures
            texts(names@) == self@,
    {
        clone_names(&self.names)
    }
}

/// Registers the shim `shim_name`. Fails, naming the shim and leaving the
/// registry as it was, where a shim of that name is registered already.
pub fn create(registry: &mut ShimRegistry, shim_name: String) -> (outcome: Result<(), ShimError>)
    requires
        old(registry).wf(),
    ensures
        final(registry).wf(),
        final(registry)@ == entries_after_create(old(registry)@, shim_name@),
        shim_outcome_view(outcome) == create_outcome(old(registry)@, shim_name@),
        final(registry)@.contains(shim_name@),
{
    if registry.contains(shim_name.as_str()) {
        return Err(ShimError::AlreadyExists { name: shim_name });
    }
    let ghost before = registry@;
    registry.names.push(shim_name);
    assert(registry@ =~= before.push(shim_name@));
    assert(registry@[before.len() as int] == shim_name@);
    assert forall|a: int, b: int|
        0 <= a < registry@.len() && 0 <= b < registry@.len() && a != b implies registry@[a]
        != registry@[b] by {
        if a < before.len() {
            assert(registry@[a] == before[a]);
        }
        if b < before.len() {
            assert(registry@[b] == before[b]);
        }
    }
    Ok(())
}

/// Removes the shim `shim_name`. Fails, naming the shim and leaving the
/// registry as it was, where no shim of that name is registered.
pub fn delete(registry: &mut ShimRegistry, shim_name: String) -> (outcome: Result<(), ShimError>)
    requires
        old(registry).wf(),
    ensures
        final(registry).wf(),
        final(registry)@ == entries_after_delete(old(registry)@, shim_name@),
        shim_outcome_view(outcome) == delete_outcome(old(registry)@, shim_name@),
        !final(registry)@.contains(shim_name@),
{
    match registry.position(shim_name.as_str()) {
        None => Err(ShimError::DoesNotExist { name: shim_name }),
        Some(i) => {
            let ghost before = registry@;
            registry.names.remove(i);
            proof {
                lemma_remove_entry(before, i as int);
                assert(registry@ =~= before.remove(i as int));
            }
            Ok(())
        },
    }
}

/// Creating a shim twice in a row fails the second time, because the shim
/// exists: whether the first attempt made it or found it.
pub proof fn create_twice_fails(entries: Seq<Seq<char>>, name: Seq<char>)
    ensures
        create_outcome(entries_after_create(entries, name), name) == Err::<(), ShimErrorView>(
            ShimErrorView::AlreadyExists { name },
        ),
{
    let after = entries_after_create(entries, name);
    if !entries.contains(name) {
        assert(after[entries.len() as int] == name);
    }
}

/// Deleting a shim right after it was created succeeds and gives back the
/// registry as it was before; deleting it once more fails, because the shim
/// does not exist.
pub proof fn delete_after_create(entries: Seq<Seq<char>>, name: Seq<char>)
    requires
        entries.no_duplicates(),
        create_outcome(entries, name) is Ok,
    ensures
        delete_outcome(entries_after_create(entries, name), name) == Ok::<(), ShimErrorView>(()),
        entries_after_delete(entries_after_create(entries, name), name) == entries,
        delete_outcome(
            entries_after_delete(entries_after_create(entries, name), name),
            name,
        ) == Err::<(), ShimErrorView>(ShimErrorView::DoesNotExist { name }),
{
    let after = entries.push(name);
    let last = entries.len() as int;
    assert(after[last] == name);
    assert(after.no_duplicates()) by {
        assert forall|a: int, b: int| 0 <= a < after.len() && 0 <= b < after.len() && a != b implies
            after[a] != after[b] by {
            if a < last {
                assert(after[a] == entries[a]);
            }
            if b < last {
                assert(after[b] == entries[b]);
            }
        }
    }
    lemma_remove_entry(after, last);
    assert(after.remove(last) =~= entries);
}

} // verus!
