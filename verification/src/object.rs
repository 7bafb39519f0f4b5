//! Plain values that stand for what the repository backend hands out.

use vstd::prelude::*;

verus! {

/// The id of a commit, as the hexadecimal text that the backend prints.
#[derive(Debug, Clone, PartialEq, Eq)]
pub struct CommitId {
    pub hex: String,
}

impl View for CommitId {
    type V = Seq<char>;

    open spec fn view(&self) -> Seq<char> {
        self.hex@
    }
}

impl CommitId {
    /// The id that `hex` spells.
    pub fn new(hex: &str) -> (r: CommitId)
        ensures
            r@ == hex@,
    {
        CommitId { hex: String::from_str(hex) }
    }

    /// The hexadecimal text of this id.
    pub fn as_str(&self) -> (r: &str)
        ensures
            r@ == self@,
    {
        self.hex.as_str()
    }

    /// A second value for the same id.
    pub fn copy(&self) -> (r: CommitId)
        ensures
            r@ == self@,
    {
        CommitId { hex: self.hex.clone() }
    }
}

/// The id of a tree, as the hexadecimal text that the backend prints.
#[derive(Debug, Clone, PartialEq, Eq)]
pub struct TreeId {
    pub hex: String,
}

impl View for TreeId {
    type V = Seq<char>;

    open spec fn view(&self) -> Seq<char> {
        self.hex@
    }
}

/// The name and the address under which commits and tags are signed.
#[derive(Debug, Clone, PartialEq, Eq)]
pub struct Identity {
    pub name: String,
    pub email: String,
}

impl Identity {
    /// The identity of a user whose address is known: under the name that
    /// was found, or under the name `unknown` where none was.
    pub fn or_unknown(name: Option<String>, email: String) -> (r: Identity)
        ensures
            r.email == email,
            r.name@ == match name {
                Some(found) => found@,
                None => "unknown"@,
            },
    {
        let name = match name {
            Some(found) => found,
            None => String::from_str("unknown"),
        };
        Identity { name, email }
    }
}

/// A local branch: its name, where the backend could read one, and whether
/// it is the checked-out branch.
#[derive(Debug, Clone, PartialEq, Eq)]
pub struct BranchEntry {
    pub name: Option<String>,
    pub is_head: bool,
}

} // verus!
