//! Paths, held as the sequence of their components.

use vstd::prelude::*;

verus! {

/// A path on disk: its components from the outermost inwards. The library
/// never looks inside a component, so a root such as `/home/me/.notion` may
/// stand as one.
#[derive(Debug, PartialEq, Eq)]
pub struct Location {
    pub components: Vec<String>,
}

/// The characters of each string of a list, in order.
pub open spec fn texts(names: Seq<String>) -> Seq<Seq<char>> {
    names.map_values(|name: String| name@)
}

impl View for Location {
    type V = Seq<Seq<char>>;

    open spec fn view(&self) -> Seq<Seq<char>> {
        texts(self.components@)
    }
}

/// Copies a list of strings.
pub(crate) fn clone_names(names: &Vec<String>) -> (copy: Vec<String>)
    ensures
        texts(copy@) == texts(names@),
        copy.len() == names.len(),
        forall|j: int| 0 <= j < names.len() ==> copy@[j]@ == names@[j]@,
{
    let mut copy: Vec<String> = Vec::new();
    let mut i: usize = 0;
    while i < names.len()
        invariant
            i <= names.len(),
            copy.len() == i,
            forall|j: int| 0 <= j < i ==> copy@[j]@ == names@[j]@,
        decreases names.len() - i,
    {
        copy.push(names[i].clone());
        i += 1;
    }
    assert(texts(copy@) =~= texts(names@));
    copy
}

impl Clone for Location {
    fn clone(&self) -> (copy: Location)
        ensures
            copy@ == self@,
    {
        Location { components: clone_names(&self.components) }
    }
}

impl Location {
    /// The path with no components.
    pub fn new() -> (location: Location)
        ensures
            location@ == Seq::<Seq<char>>::empty(),
    {
        let location = Location { components: Vec::new() };
        location
    }

    /// The path of the entry `name` inside `self`.
    pub fn join(&self, name: &str) -> (inside: Location)
        ensures
            inside@ == self@.push(name@),
    {
        let mut components = clone_names(&self.components);
        components.push(name.to_owned());
        let inside = Location { components };
        assert(inside@ =~= self@.push(name@));
        inside
    }

    /// The path of `below`, taken relative to `self`.
    pub fn concat(&self, below: &Location) -> (inside: Location)
        ensures
            inside@ == self@ + below@,
    {
        let mut components = clone_names(&self.components);
        let mut i: usize = 0;
        while i < below.components.len()
            invariant
                i <= below.components.len(),
                components.len() == self.components.len() + i,
                forall|j: int| 0 <= j < self.components.len() ==> components@[j]@ == self@[j],
                forall|j: int|
                    0 <= j < i ==> components@[self.components.len() + j]@ == below@[j],
            decreases below.components.len() - i,
        {
            components.push(below.components[i].clone());
            i += 1;
        }
        let inside = Location { components };
        assert(inside@ =~= self@ + below@);
        inside
    }
}

} // verus!
