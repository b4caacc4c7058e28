//! Classification of shim names.

use vstd::prelude::*;
use crate::text::same_text;

verus! {

/// The class of executable that a shim name stands for.
#[derive(Clone, Copy, Debug, PartialEq, Eq, Structural)]
pub enum ToolClass {
    /// `node` and `npm`, which ship together.
    Node,
    /// `yarn`.
    Yarn,
    /// `npx`.
    Npx,
    /// Any other name: an executable that a package brings.
    ThirdParty,
}

/// The class of a name, as a function of its characters.
pub open spec fn class_of(name: Seq<char>) -> ToolClass {
    if name == "node"@ || name == "npm"@ {
        ToolClass::Node
    } else if name == "yarn"@ {
        ToolClass::Yarn
    } else if name == "npx"@ {
        ToolClass::Npx
    } else {
        ToolClass::ThirdParty
    }
}

/// Classifies a shim name.
pub fn classify(name: &str) -> (class: ToolClass)
    ensures
        class == class_of(name@),
{
    if same_text(name, "node") || same_text(name, "npm") {
        ToolClass::Node
    } else if same_text(name, "yarn") {
        ToolClass::Yarn
    } else if same_text(name, "npx") {
        ToolClass::Npx
    } else {
        ToolClass::ThirdParty
    }
}

/// The four names with rules of their own are four different names, and each
/// falls in its class.
pub proof fn lemma_reserved_names()
    ensures
        class_of("node"@) == ToolClass::Node,
        class_of("npm"@) == ToolClass::Node,
        class_of("yarn"@) == ToolClass::Yarn,
        class_of("npx"@) == ToolClass::Npx,
{
    reveal_strlit("node");
    reveal_strlit("npm");
    reveal_strlit("yarn");
    reveal_strlit("npx");
    assert("yarn"@.len() == 4 && "node"@.len() == 4 && "npm"@.len() == 3 && "npx"@.len() == 3);
    assert("yarn"@[0] != "node"@[0]);
    assert("npx"@[2] != "npm"@[2]);
}

} // verus!
